//! The startup choice of the player's size, and the player body it gives.
use vstd::prelude::*;
use vstd::string::StrSliceExecFns;
use crate::arena::{BoxShape, Tint, HALF_DEPTH};

verus! {

/// Half-extent of the player box across the plane in the `working` setup.
pub const WORKING_HALF_EXTENT: u32 = 19;

/// Half-extent of the player box across the plane in the `broken` setup.
pub const BROKEN_HALF_EXTENT: u32 = 20;

/// Which of the two player sizes to set up.
#[derive(Clone, Copy, Debug, PartialEq, Eq, Structural)]
pub enum Mode {
    Working,
    Broken,
}

/// The mode that a command-line argument names, if any.
pub open spec fn mode_of(arg: Seq<char>) -> Option<Mode> {
    if arg == "working"@ {
        Some(Mode::Working)
    } else if arg == "broken"@ {
        Some(Mode::Broken)
    } else {
        None
    }
}

/// The mode that a program's argument list names by its first argument after
/// the program's own name; none when that argument is missing.
pub open spec fn mode_of_args(args: Seq<Seq<char>>) -> Option<Mode> {
    if args.len() < 2 {
        None
    } else {
        mode_of(args[1])
    }
}

/// Whether two strings hold the same characters.
fn same_text(a: &str, b: &str) -> (r: bool)
    ensures
        r == (a@ == b@),
{
    let n = a.unicode_len();
    if n != b.unicode_len() {
        return false;
    }
    let mut i: usize = 0;
    while i < n
        invariant
            n == a@.len() == b@.len(),
            i <= n,
            a@.subrange(0, i as int) == b@.subrange(0, i as int),
        decreases n - i,
    {
        if a.get_char(i) != b.get_char(i) {
            assert(a@[i as int] != b@[i as int]);
            return false;
        }
        assert(a@.subrange(0, i + 1) =~= a@.subrange(0, i as int).push(a@[i as int]));
        assert(b@.subrange(0, i + 1) =~= b@.subrange(0, i as int).push(b@[i as int]));
        i = i + 1;
    }
    assert(a@ =~= a@.subrange(0, n as int));
    assert(b@ =~= b@.subrange(0, n as int));
    true
}

impl Mode {
    /// Reads the mode from one argument: `working` or `broken`; anything
    /// else names no mode.
    pub fn from_arg(arg: &str) -> (r: Option<Mode>)
        ensures
            r == mode_of(arg@),
    {
        if same_text(arg, "working") {
            Some(Mode::Working)
        } else if same_text(arg, "broken") {
            Some(Mode::Broken)
        } else {
            None
        }
    }

    /// Reads the mode from a program's argument list, whose first entry is
    /// the program's own name.
    pub fn from_args(args: &Vec<String>) -> (r: Option<Mode>)
        ensures
            r == mode_of_args(args@.map_values(|s: String| s@)),
    {
        if args.len() < 2 {
            None
        } else {
            Mode::from_arg(args[1].as_str())
        }
    }

    /// The player's half-extent across the plane in this mode.
    pub fn player_half_extent(self) -> (r: u32)
        ensures
            r == match self {
                Mode::Working => WORKING_HALF_EXTENT,
                Mode::Broken => BROKEN_HALF_EXTENT,
            },
    {
        match self {
            Mode::Working => WORKING_HALF_EXTENT,
            Mode::Broken => BROKEN_HALF_EXTENT,
        }
    }
}

/// The one dynamic body: a box that starts at the origin and is steered by
/// the keyboard.
#[derive(Clone, Copy, Debug, PartialEq, Eq, Structural)]
pub struct Player {
    pub half_extent: u32,
}

impl Player {
    /// The player of the given mode.
    pub fn new(mode: Mode) -> (r: Player)
        ensures
            r.half_extent == match mode {
                Mode::Working => WORKING_HALF_EXTENT,
                Mode::Broken => BROKEN_HALF_EXTENT,
            },
    {
        Player { half_extent: mode.player_half_extent() }
    }

    /// The player's box: square across the plane, thin along the depth axis.
    pub fn shape(&self) -> (r: BoxShape)
        ensures
            r == (BoxShape { hx: self.half_extent, hy: self.half_extent, hz: HALF_DEPTH }),
    {
        BoxShape { hx: self.half_extent, hy: self.half_extent, hz: HALF_DEPTH }
    }

    /// The colour the player is outlined in.
    pub fn color(&self) -> (r: Tint)
        ensures
            r == Tint::Green,
    {
        Tint::Green
    }

    /// Where the player starts: the origin.
    pub fn start(&self) -> (r: (i64, i64, i64))
        ensures
            r == (0i64, 0i64, 0i64),
    {
        (0, 0, 0)
    }
}

/// The player's half-extent for a command-line argument: exactly the
/// `working` size for `working`, the `broken` size for `broken`, and no
/// player at all for any other argument.
pub proof fn half_extent_of_arg(arg: Seq<char>)
    ensures
        arg == "working"@ ==> mode_of(arg) == Some(Mode::Working) && WORKING_HALF_EXTENT == 19,
        arg == "broken"@ ==> mode_of(arg) == Some(Mode::Broken) && BROKEN_HALF_EXTENT == 20,
        arg != "working"@ && arg != "broken"@ ==> mode_of(arg).is_none(),
{
    reveal_strlit("working");
    reveal_strlit("broken");
    assert("working"@.len() != "broken"@.len());
}

} // verus!
