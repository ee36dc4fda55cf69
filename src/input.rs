//! Held arrow keys and the velocity they give the player.
use vstd::prelude::*;

verus! {

/// Speed, in world units per second, that one held arrow key adds on its axis.
pub const SPEED: i32 = 200;

/// One of the four arrow keys.
#[derive(Clone, Copy, Debug, PartialEq, Eq, Structural)]
pub enum Direction {
    Up,
    Down,
    Left,
    Right,
}

/// Whether a key went down or came up.
#[derive(Clone, Copy, Debug, PartialEq, Eq, Structural)]
pub enum KeyState {
    Pressed,
    Released,
}

/// A key going down or coming up.
#[derive(Clone, Copy, Debug, PartialEq, Eq, Structural)]
pub struct KeyEvent {
    pub key: Direction,
    pub state: KeyState,
}

/// The set of arrow keys held down right now.
#[derive(Clone, Copy, Debug, PartialEq, Eq, Structural)]
pub struct HeldKeys {
    up: bool,
    down: bool,
    left: bool,
    right: bool,
}

/// A velocity in world units per second.
#[derive(Clone, Copy, Debug, PartialEq, Eq, Structural)]
pub struct Velocity {
    pub x: i32,
    pub y: i32,
    pub z: i32,
}

impl View for Velocity {
    type V = (int, int, int);

    open spec fn view(&self) -> (int, int, int) {
        (self.x as int, self.y as int, self.z as int)
    }
}

impl View for HeldKeys {
    type V = Set<Direction>;

    closed spec fn view(&self) -> Set<Direction> {
        Set::new(
            |d: Direction|
                match d {
                    Direction::Up => self.up,
                    Direction::Down => self.down,
                    Direction::Left => self.left,
                    Direction::Right => self.right,
                },
        )
    }
}

/// What one held key adds to the velocity: `SPEED` along its axis, with its sign.
pub open spec fn contribution(d: Direction) -> (int, int, int) {
    match d {
        Direction::Up => (0, SPEED as int, 0),
        Direction::Down => (0, -SPEED, 0),
        Direction::Right => (SPEED as int, 0, 0),
        Direction::Left => (-SPEED, 0, 0),
    }
}

/// The contribution of `d` if it is held, else nothing.
pub open spec fn held_contribution(held: Set<Direction>, d: Direction) -> (int, int, int) {
    if held.contains(d) {
        contribution(d)
    } else {
        (0, 0, 0)
    }
}

/// The velocity that a set of held keys gives: the vector sum of the
/// contributions of the keys in it.
pub open spec fn velocity_of(held: Set<Direction>) -> (int, int, int) {
    let u = held_contribution(held, Direction::Up);
    let d = held_contribution(held, Direction::Down);
    let l = held_contribution(held, Direction::Left);
    let r = held_contribution(held, Direction::Right);
    (u.0 + d.0 + l.0 + r.0, u.1 + d.1 + l.1 + r.1, u.2 + d.2 + l.2 + r.2)
}

/// The held set after one event: a press adds its key, a release removes it.
pub open spec fn after_event(held: Set<Direction>, e: KeyEvent) -> Set<Direction> {
    match e.state {
        KeyState::Pressed => held.insert(e.key),
        KeyState::Released => held.remove(e.key),
    }
}

/// The held set after a sequence of events, taken in order.
pub open spec fn after_events(held: Set<Direction>, events: Seq<KeyEvent>) -> Set<Direction>
    decreases events.len(),
{
    if events.len() == 0 {
        held
    } else {
        after_event(after_events(held, events.drop_last()), events.last())
    }
}

/// Taking one more event after a sequence is taking that event into the
/// held set the sequence left.
pub proof fn after_events_push(held: Set<Direction>, events: Seq<KeyEvent>, e: KeyEvent)
    ensures
        after_events(held, events.push(e)) == after_event(after_events(held, events), e),
{
    assert(events.push(e).drop_last() =~= events);
}

/// Two events in a row are taken one after the other.
pub proof fn after_two_events(held: Set<Direction>, a: KeyEvent, b: KeyEvent)
    ensures
        after_events(held, seq![a, b]) == after_event(after_event(held, a), b),
{
    let empty = Seq::<KeyEvent>::empty();
    after_events_push(held, empty, a);
    after_events_push(held, empty.push(a), b);
    assert(after_events(held, empty) == held);
    assert(empty.push(a).push(b) =~= seq![a, b]);
}

impl HeldKeys {
    /// No key held.
    pub fn new() -> (r: HeldKeys)
        ensures
            r@ == Set::<Direction>::empty(),
    {
        let r = HeldKeys { up: false, down: false, left: false, right: false };
        assert(r@ =~= Set::<Direction>::empty());
        r
    }

    /// Whether `d` is held.
    pub fn contains(&self, d: Direction) -> (r: bool)
        ensures
            r == self@.contains(d),
    {
        match d {
            Direction::Up => self.up,
            Direction::Down => self.down,
            Direction::Left => self.left,
            Direction::Right => self.right,
        }
    }

    fn set(&mut self, d: Direction, held: bool)
        ensures
            final(self)@ == if held {
                old(self)@.insert(d)
            } else {
                old(self)@.remove(d)
            },
    {
        match d {
            Direction::Up => self.up = held,
            Direction::Down => self.down = held,
            Direction::Left => self.left = held,
            Direction::Right => self.right = held,
        }
        if held {
            assert(self@ =~= old(self)@.insert(d));
        } else {
            assert(self@ =~= old(self)@.remove(d));
        }
    }

    /// Marks `d` as held; pressing a key already held changes nothing.
    pub fn press(&mut self, d: Direction)
        ensures
            final(self)@ == old(self)@.insert(d),
    {
        self.set(d, true);
    }

    /// Marks `d` as no longer held; releasing a key not held changes nothing.
    pub fn release(&mut self, d: Direction)
        ensures
            final(self)@ == old(self)@.remove(d),
    {
        self.set(d, false);
    }

    /// Applies one event.
    pub fn apply(&mut self, e: KeyEvent)
        ensures
            final(self)@ == after_event(old(self)@, e),
    {
        match e.state {
            KeyState::Pressed => self.press(e.key),
            KeyState::Released => self.release(e.key),
        }
    }

    /// Applies events in the order they arrived.
    pub fn apply_all(&mut self, events: &Vec<KeyEvent>)
        ensures
            final(self)@ == after_events(old(self)@, events@),
    {
        let mut i: usize = 0;
        while i < events.len()
            invariant
                i <= events@.len(),
                self@ == after_events(old(self)@, events@.subrange(0, i as int)),
            decreases events@.len() - i,
        {
            self.apply(events[i]);
            proof {
                after_events_push(old(self)@, events@.subrange(0, i as int), events@[i as int]);
                assert(events@.subrange(0, i + 1) =~= events@.subrange(0, i as int).push(
                    events@[i as int],
                ));
            }
            i = i + 1;
        }
        assert(events@.subrange(0, i as int) =~= events@);
    }

    /// The velocity that the held keys give, computed afresh from the set.
    pub fn velocity(&self) -> (r: Velocity)
        ensures
            r@ == velocity_of(self@),
    {
        let mut v = Velocity { x: 0, y: 0, z: 0 };
        if self.up {
            v.y = v.y + SPEED;
        }
        if self.down {
            v.y = v.y - SPEED;
        }
        if self.right {
            v.x = v.x + SPEED;
        }
        if self.left {
            v.x = v.x - SPEED;
        }
        assert(self@.contains(Direction::Up) == self.up);
        assert(self@.contains(Direction::Down) == self.down);
        assert(self@.contains(Direction::Left) == self.left);
        assert(self@.contains(Direction::Right) == self.right);
        v
    }
}

/// One step of keyboard steering: takes this step's events in order into
/// the held set, then returns the velocity the player is given, which
/// depends on the held set alone.
pub fn keyboard_movement(held: &mut HeldKeys, events: &Vec<KeyEvent>) -> (r: Velocity)
    ensures
        final(held)@ == after_events(old(held)@, events@),
        r@ == velocity_of(final(held)@),
{
    held.apply_all(events);
    held.velocity()
}

/// The velocity on each axis is the speed of the positive key if held, less
/// the speed of the negative key if held; nothing moves along the depth axis.
/// So a pair of opposite keys held together cancels to zero on its axis.
pub proof fn velocity_by_axis(held: Set<Direction>)
    ensures
        velocity_of(held).0 == (if held.contains(Direction::Right) { SPEED as int } else { 0 }) - (
        if held.contains(Direction::Left) { SPEED as int } else { 0 }),
        velocity_of(held).1 == (if held.contains(Direction::Up) { SPEED as int } else { 0 }) - (
        if held.contains(Direction::Down) { SPEED as int } else { 0 }),
        velocity_of(held).2 == 0,
        held.contains(Direction::Left) && held.contains(Direction::Right) ==> velocity_of(held).0
            == 0,
        held.contains(Direction::Up) && held.contains(Direction::Down) ==> velocity_of(held).1
            == 0,
{
}

/// Pressing a key and then releasing it leaves it not held, so it adds
/// nothing to the velocity, which is that of the other keys held before.
pub proof fn press_then_release(held: Set<Direction>, d: Direction)
    ensures
        !after_events(
            held,
            seq![
                KeyEvent { key: d, state: KeyState::Pressed },
                KeyEvent { key: d, state: KeyState::Released },
            ],
        ).contains(d),
        after_events(
            held,
            seq![
                KeyEvent { key: d, state: KeyState::Pressed },
                KeyEvent { key: d, state: KeyState::Released },
            ],
        ) == held.remove(d),
        held_contribution(
            after_events(
                held,
                seq![
                    KeyEvent { key: d, state: KeyState::Pressed },
                    KeyEvent { key: d, state: KeyState::Released },
                ],
            ),
            d,
        ) == (0int, 0int, 0int),
{
    after_two_events(
        held,
        KeyEvent { key: d, state: KeyState::Pressed },
        KeyEvent { key: d, state: KeyState::Released },
    );
    assert(held.insert(d).remove(d) =~= held.remove(d));
}

/// Releasing a key that is not held leaves the held set as it was.
pub proof fn release_unheld_is_noop(held: Set<Direction>, d: Direction)
    requires
        !held.contains(d),
    ensures
        after_event(held, KeyEvent { key: d, state: KeyState::Released }) == held,
{
    assert(held.remove(d) =~= held);
}

/// Pressing the same key twice in a row, with no release between, gives the
/// same held set as pressing it once: the key is held, once.
pub proof fn press_is_idempotent(held: Set<Direction>, d: Direction)
    ensures
        after_events(
            held,
            seq![
                KeyEvent { key: d, state: KeyState::Pressed },
                KeyEvent { key: d, state: KeyState::Pressed },
            ],
        ) == after_event(held, KeyEvent { key: d, state: KeyState::Pressed }),
        after_event(held, KeyEvent { key: d, state: KeyState::Pressed }) == held.insert(d),
{
    after_two_events(
        held,
        KeyEvent { key: d, state: KeyState::Pressed },
        KeyEvent { key: d, state: KeyState::Pressed },
    );
    assert(held.insert(d).insert(d) =~= held.insert(d));
}

} // verus!
