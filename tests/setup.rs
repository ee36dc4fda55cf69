use arena_repro::arena::{arena_cubes, outline, spawn_grid_of_cubes, BoxShape, FixedCube, Outline, Tint};
use arena_repro::config::{Mode, Player};

#[test]
fn working_argument_gives_nineteen() {
    assert_eq!(Mode::from_arg("working"), Some(Mode::Working));
    let p = Player::new(Mode::Working);
    assert_eq!(p.half_extent, 19);
    assert_eq!(p.shape(), BoxShape { hx: 19, hy: 19, hz: 1 });
    assert_eq!(p.color(), Tint::Green);
    assert_eq!(p.start(), (0, 0, 0));
}

#[test]
fn broken_argument_gives_twenty() {
    assert_eq!(Mode::from_arg("broken"), Some(Mode::Broken));
    assert_eq!(Mode::Broken.player_half_extent(), 20);
    assert_eq!(Player::new(Mode::Broken).shape(), BoxShape { hx: 20, hy: 20, hz: 1 });
}

#[test]
fn other_arguments_name_no_mode() {
    for arg in ["", "work", "Working", "brokenx", "workin", " broken", "fixed"] {
        assert_eq!(Mode::from_arg(arg), None, "{arg:?}");
    }
}

#[test]
fn argument_list_reads_first_argument() {
    let args = |v: &[&str]| v.iter().map(|s| s.to_string()).collect::<Vec<String>>();
    assert_eq!(Mode::from_args(&args(&["prog", "working"])), Some(Mode::Working));
    assert_eq!(Mode::from_args(&args(&["prog", "broken", "extra"])), Some(Mode::Broken));
    assert_eq!(Mode::from_args(&args(&["prog"])), None);
    assert_eq!(Mode::from_args(&args(&[])), None);
    assert_eq!(Mode::from_args(&args(&["working"])), None);
    assert_eq!(Mode::from_args(&args(&["prog", "other"])), None);
}

#[test]
fn grid_is_column_major() {
    let mut out = Vec::new();
    spawn_grid_of_cubes(&mut out, -1, 0, 5, 6, 0, Tint::Blue);
    let cells: Vec<(i32, i32)> = out.iter().map(|c| (c.cell_x, c.cell_y)).collect();
    assert_eq!(cells, vec![(-1, 5), (-1, 6), (0, 5), (0, 6)]);
    assert!(out.iter().all(|c| c.z == 0 && c.color == Tint::Blue));
}

#[test]
fn empty_range_spawns_nothing() {
    let mut out = vec![FixedCube { cell_x: 9, cell_y: 9, z: 0, color: Tint::Gray }];
    spawn_grid_of_cubes(&mut out, 2, 1, 0, 3, 0, Tint::Blue);
    spawn_grid_of_cubes(&mut out, 0, 3, 2, 1, 0, Tint::Blue);
    assert_eq!(out.len(), 1);
}

#[test]
fn floor_has_one_cube_per_cell() {
    let cubes = arena_cubes();
    assert_eq!(cubes.len(), 49 + 4 * 7);
    for x in -3..=3 {
        for y in -3..=3 {
            let floor: Vec<&FixedCube> = cubes
                .iter()
                .filter(|c| c.z == -2 && c.cell_x == x && c.cell_y == y)
                .collect();
            assert_eq!(floor.len(), 1, "({x}, {y})");
            assert_eq!(floor[0].color, Tint::Gray);
        }
    }
}

#[test]
fn walls_stand_only_on_edges() {
    let cubes = arena_cubes();
    for c in cubes.iter().filter(|c| c.z != -2) {
        assert_eq!(c.z, 0);
        assert_eq!(c.color, Tint::Blue);
        assert!(c.cell_x.abs() == 3 || c.cell_y.abs() == 3, "{c:?}");
        assert!(c.cell_x.abs() <= 3 && c.cell_y.abs() <= 3);
    }
    for x in -3..=3 {
        for y in -3..=3 {
            let walls = cubes.iter().filter(|c| c.z == 0 && c.cell_x == x && c.cell_y == y).count();
            let edge = x == -3 || x == 3 || y == -3 || y == 3;
            assert_eq!(walls > 0, edge, "({x}, {y})");
        }
    }
    // Corners are shared by two walls.
    assert_eq!(cubes.iter().filter(|c| c.z == 0 && c.cell_x == 3 && c.cell_y == 3).count(), 2);
}

#[test]
fn cube_translation_and_shape() {
    let c = FixedCube { cell_x: -3, cell_y: 2, z: -2, color: Tint::Gray };
    assert_eq!(c.translation(), (-60, 40, -2));
    assert_eq!(c.shape(), BoxShape { hx: 10, hy: 10, hz: 1 });
    let first = arena_cubes()[0];
    assert_eq!(first, FixedCube { cell_x: -3, cell_y: -3, z: -2, color: Tint::Gray });
    assert_eq!(first.translation(), (-60, -60, -2));
}

#[test]
fn fixed_cube_outline_is_twenty_square() {
    let c = FixedCube { cell_x: 0, cell_y: 3, z: 0, color: Tint::Blue };
    assert_eq!(outline(c.shape(), c.color), Outline { width: 20, height: 20, color: Tint::Blue });
}

#[test]
fn player_outlines_follow_mode() {
    let working = Player::new(Mode::Working);
    assert_eq!(
        outline(working.shape(), working.color()),
        Outline { width: 38, height: 38, color: Tint::Green }
    );
    let broken = Player::new(Mode::Broken);
    assert_eq!(
        outline(broken.shape(), broken.color()),
        Outline { width: 40, height: 40, color: Tint::Green }
    );
}

#[test]
fn outline_of_uneven_box() {
    let shape = BoxShape { hx: 3, hy: u32::MAX, hz: 7 };
    assert_eq!(
        outline(shape, Tint::Gray),
        Outline { width: 6, height: 2 * u32::MAX as u64, color: Tint::Gray }
    );
}

#[test]
fn arena_holds_seventy_seven_boxes() {
    let cubes = arena_cubes();
    assert_eq!(cubes.len(), 77);
    assert_eq!(cubes.iter().filter(|c| c.color == Tint::Gray).count(), 49);
    assert_eq!(cubes.iter().filter(|c| c.color == Tint::Blue).count(), 28);
}
