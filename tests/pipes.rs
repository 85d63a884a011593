use pipes_rs::animation::{Args, Command, Input, PipesRs, RunError};
use pipes_rs::overlay::box_changes;
use pipes_rs::pipe::Pipe;
use pipes_rs::random::Random;
use pipes_rs::utils::{catalog_entry, Direction, PipeSet, PipeSetError, PIPESET_COUNT};

const ALL: [Direction; 4] = [Direction::UP, Direction::RIGHT, Direction::DOWN, Direction::LEFT];

fn args() -> Args {
    Args {
        debug: false,
        pipes: 1,
        pipeset: 0,
        fps: 60,
        frame_clear: 1000,
        straight_bias: 13,
        random_pipeset: false,
        no_colors: false,
        keep_colors: false,
        transparent: false,
    }
}

fn set(i: usize) -> PipeSet {
    PipeSet::get_pipeset(i).unwrap()
}

fn clears(changes: &[Command]) -> usize {
    changes.iter().filter(|c| matches!(c, Command::ClearScreen { .. })).count()
}

#[test]
fn direction_rotations_are_inverse() {
    for d in ALL {
        assert_eq!(d.left().right(), d);
        assert_eq!(d.right().left(), d);
        assert_eq!(d.left().left().left().left(), d);
        assert_ne!(d.left(), d);
    }
    assert_eq!(Direction::UP.left(), Direction::LEFT);
    assert_eq!(Direction::UP.right(), Direction::RIGHT);
    assert_eq!(Direction::LEFT.right(), Direction::UP);
}

#[test]
fn direction_index_round_trip() {
    for i in 0..4 {
        assert_eq!(Direction::from_index(i).get_index(), i);
    }
    assert_eq!(Direction::from_index(2), Direction::DOWN);
}

#[test]
fn catalog_entries_all_load() {
    for i in PipeSet::pipeset_idx_range() {
        let p = PipeSet::get_pipeset(i).unwrap();
        let glyphs = [
            p.vertical(),
            p.horizontal(),
            p.top_left(),
            p.bottom_right(),
            p.top_right(),
            p.bottom_left(),
        ];
        let s: String = glyphs.iter().collect();
        assert_eq!(s, catalog_entry(i).unwrap());
    }
    assert_eq!(PipeSet::pipeset_idx_range(), 0..PIPESET_COUNT);
    assert_eq!(PIPESET_COUNT, 6);
}

#[test]
fn catalog_index_out_of_range_fails() {
    assert_eq!(PipeSet::get_pipeset(6).err(), Some(PipeSetError::UnknownIndex(6)));
    assert_eq!(PipeSet::get_pipeset(100).err(), Some(PipeSetError::UnknownIndex(100)));
    assert!(catalog_entry(6).is_none());
}

#[test]
fn glyph_string_needs_six_characters() {
    assert!(PipeSet::new("abcdef".to_string()).is_ok());
    assert!(PipeSet::new("┃━┏┛┓┗".to_string()).is_ok());
    assert_eq!(PipeSet::new("abcde".to_string()).err(), Some(PipeSetError::InvalidLength(5)));
    assert_eq!(PipeSet::new("abcdefg".to_string()).err(), Some(PipeSetError::InvalidLength(7)));
    assert_eq!(PipeSet::new(String::new()).err(), Some(PipeSetError::InvalidLength(0)));
    assert_eq!(PipeSet::new("┃━┏┛┓".to_string()).err(), Some(PipeSetError::InvalidLength(5)));
}

#[test]
fn glyph_roles() {
    let p = PipeSet::new("vhabcd".to_string()).unwrap();
    assert_eq!(p.vertical(), 'v');
    assert_eq!(p.horizontal(), 'h');
    assert_eq!(p.top_left(), 'a');
    assert_eq!(p.bottom_right(), 'b');
    assert_eq!(p.top_right(), 'c');
    assert_eq!(p.bottom_left(), 'd');
    let light = set(1);
    assert_eq!(light.vertical(), '│');
    assert_eq!(light.bottom_left(), '└');
}

#[test]
fn default_pipeset_is_first_entry() {
    let p = PipeSet::default();
    assert_eq!(p.vertical(), '┃');
    assert_eq!(p.horizontal(), '━');
    assert_eq!(p.top_left(), '┏');
}

fn pipe(x: i64, y: i64, d: Direction, keep: bool) -> Pipe {
    Pipe::from_parts([x, y], d, 7, PipeSet::new("vhabcd".to_string()).unwrap(), 13, keep)
}

#[test]
fn straight_move_right_in_bounds() {
    let mut p = pipe(3, 4, Direction::RIGHT, false);
    let (pos, glyph) = p.apply_move(&[10, 8], 99, false, 0);
    assert_eq!(pos, [4, 4]);
    assert_eq!(glyph, 'h');
    assert_eq!(p.get_color(), 7);
    assert_eq!(p.get_direction(), Direction::RIGHT);
}

#[test]
fn straight_move_right_wraps_and_recolors() {
    let mut p = pipe(9, 4, Direction::RIGHT, false);
    let (pos, glyph) = p.apply_move(&[10, 8], 99, false, 0);
    assert_eq!(pos, [0, 4]);
    assert_eq!(glyph, 'h');
    assert_eq!(p.get_color(), 99);
}

#[test]
fn wrap_keeps_color_when_asked() {
    let mut p = pipe(9, 4, Direction::RIGHT, true);
    let (pos, _) = p.apply_move(&[10, 8], 99, false, 0);
    assert_eq!(pos, [0, 4]);
    assert_eq!(p.get_color(), 7);
}

#[test]
fn move_left_from_first_column_wraps_to_last() {
    let mut p = pipe(0, 2, Direction::LEFT, false);
    let (pos, _) = p.apply_move(&[10, 8], 1, false, 0);
    assert_eq!(pos, [9, 2]);
    let mut q = pipe(5, 0, Direction::UP, false);
    let (pos, glyph) = q.apply_move(&[10, 8], 1, false, 0);
    assert_eq!(pos, [5, 7]);
    assert_eq!(glyph, 'v');
}

#[test]
fn start_past_the_edge_wraps_in() {
    let mut p = pipe(10, 8, Direction::DOWN, false);
    let (pos, _) = p.apply_move(&[10, 8], 1, false, 0);
    assert_eq!(pos, [0, 1]);
}

#[test]
fn turns_split_four_left_three_right() {
    for d in ALL {
        let mut lefts = 0;
        let mut rights = 0;
        for roll in 0..=6 {
            let mut p = pipe(3, 3, d, false);
            p.apply_move(&[10, 10], 0, true, roll);
            if p.get_direction() == d.left() {
                lefts += 1;
                assert!(roll > 2);
            } else {
                assert_eq!(p.get_direction(), d.right());
                rights += 1;
                assert!(roll <= 2);
            }
        }
        assert_eq!((lefts, rights), (4, 3));
    }
}

fn corner_of(d: Direction, roll: i64) -> (Direction, char) {
    let mut p = pipe(3, 3, d, false);
    let (_, g) = p.apply_move(&[10, 10], 0, true, roll);
    (p.get_direction(), g)
}

#[test]
fn corner_glyphs_are_symmetric() {
    // up then right, left then down
    assert_eq!(corner_of(Direction::UP, 0), (Direction::RIGHT, 'a'));
    assert_eq!(corner_of(Direction::LEFT, 3), (Direction::DOWN, 'a'));
    // right then up, down then left
    assert_eq!(corner_of(Direction::RIGHT, 6), (Direction::UP, 'b'));
    assert_eq!(corner_of(Direction::DOWN, 1), (Direction::LEFT, 'b'));
    // up then left, right then down
    assert_eq!(corner_of(Direction::UP, 4), (Direction::LEFT, 'c'));
    assert_eq!(corner_of(Direction::RIGHT, 2), (Direction::DOWN, 'c'));
    // left then up, down then right
    assert_eq!(corner_of(Direction::LEFT, 0), (Direction::UP, 'd'));
    assert_eq!(corner_of(Direction::DOWN, 5), (Direction::RIGHT, 'd'));
}

#[test]
fn random_moves_stay_on_grid() {
    let mut random = Random::new();
    let mut p = Pipe::new(&[12, 5], &mut random, set(0), 3, false);
    let start = p.get_position();
    assert!(start[0] >= 0 && start[0] <= 12 && start[1] >= 0 && start[1] <= 5);
    for _ in 0..2000 {
        let (pos, _) = p.get_move(&[12, 5], &mut random);
        assert!(pos[0] >= 0 && pos[0] < 12 && pos[1] >= 0 && pos[1] < 5);
        assert_eq!(pos, p.get_position());
    }
}

#[test]
fn bias_of_one_turns_every_tick() {
    let mut random = Random::new();
    let mut p = Pipe::new(&[20, 20], &mut random, set(2), 1, false);
    for _ in 0..200 {
        let before = p.get_direction();
        let (_, g) = p.get_move(&[20, 20], &mut random);
        assert_ne!(p.get_direction(), before);
        assert!("╔╝╗╚".contains(g));
    }
}

#[test]
fn random_source_ranges() {
    let mut random = Random::new();
    for _ in 0..500 {
        let p = random.get_random_position(&[3, 2]);
        assert!(p[0] >= 0 && p[0] <= 3 && p[1] >= 0 && p[1] <= 2);
        let r = random.random_range(0, 6);
        assert!((0..=6).contains(&r));
        assert!(random.random_ratio(4, 4));
        assert!(!random.random_ratio(0, 4));
        let _ = random.get_random_direction();
        let _ = random.get_random_color();
        let s = random.random_pipeset().unwrap();
        let c = s.vertical();
        assert!((0..PIPESET_COUNT).any(|i| catalog_entry(i).unwrap().starts_with(c)));
    }
}

#[test]
fn new_animation_clears_and_makes_pipes() {
    let mut a = PipesRs::new(Random::new(), [80, 24], Args { pipes: 3, ..args() }).unwrap();
    assert_eq!(a.pipes().len(), 3);
    assert_eq!(a.take_changes(), vec![Command::ClearScreen { transparent: false }]);
    assert!(a.take_changes().is_empty());
    assert_eq!(a.frames_since_clear(), 0);
    assert!(!a.is_running());
    assert_eq!(a.screen_size(), [80, 24]);
    let t = PipesRs::new(Random::new(), [80, 24], Args { transparent: true, ..args() }).unwrap();
    let mut t = t;
    assert_eq!(t.take_changes(), vec![Command::ClearScreen { transparent: true }]);
}

#[test]
fn unknown_pipeset_fails_at_construction() {
    let bad = Args { pipeset: 9, ..args() };
    assert_eq!(
        PipesRs::new(Random::new(), [80, 24], bad).err(),
        Some(PipeSetError::UnknownIndex(9))
    );
    assert_eq!(
        PipesRs::new(Random::new(), [80, 24], Args { pipes: 0, ..bad }).err(),
        Some(PipeSetError::UnknownIndex(9))
    );
    assert!(PipesRs::new(Random::new(), [80, 24], Args { random_pipeset: true, ..bad }).is_ok());
}

#[test]
fn clear_comes_after_the_interval() {
    let mut a = PipesRs::new(Random::new(), [80, 24], args()).unwrap();
    a.take_changes();
    for _ in 0..1000 {
        a.tick();
    }
    assert_eq!(a.frames_since_clear(), 1000);
    assert_eq!(clears(&a.take_changes()), 0);
    a.tick();
    let changes = a.take_changes();
    assert_eq!(clears(&changes), 1);
    assert_eq!(changes[0], Command::ClearScreen { transparent: false });
    assert_eq!(a.frames_since_clear(), 1);
}

#[test]
fn tick_draws_each_pipe() {
    let mut a = PipesRs::new(Random::new(), [80, 24], Args { pipes: 2, ..args() }).unwrap();
    a.take_changes();
    a.tick();
    let changes = a.take_changes();
    assert_eq!(changes.len(), 6);
    for (i, p) in a.pipes().iter().enumerate() {
        let pos = p.get_position();
        assert_eq!(changes[3 * i], Command::Foreground(p.get_color()));
        assert_eq!(changes[3 * i + 1], Command::MoveTo { x: pos[0] as usize, y: pos[1] as usize });
        assert!(matches!(changes[3 * i + 2], Command::Glyph(_)));
    }
    let mut plain = PipesRs::new(Random::new(), [80, 24], Args { no_colors: true, ..args() }).unwrap();
    plain.take_changes();
    plain.tick();
    let changes = plain.take_changes();
    assert_eq!(changes.len(), 2);
    assert!(matches!(changes[0], Command::MoveTo { .. }));
}

#[test]
fn add_then_remove_restores_pipes() {
    let mut a = PipesRs::new(Random::new(), [80, 24], Args { pipes: 2, ..args() }).unwrap();
    for _ in 0..5 {
        a.tick();
    }
    a.take_changes();
    let before: Vec<[i64; 2]> = a.pipes().iter().map(|p| p.get_position()).collect();
    a.handle_input(Input::Key('+')).unwrap();
    assert_eq!(a.pipes().len(), 3);
    a.handle_input(Input::Key('-')).unwrap();
    let after: Vec<[i64; 2]> = a.pipes().iter().map(|p| p.get_position()).collect();
    assert_eq!(after, before);
    assert_eq!(a.take_changes(), vec![Command::ClearScreen { transparent: false }]);
    assert_eq!(a.frames_since_clear(), 0);
}

#[test]
fn remove_from_empty_still_clears() {
    let mut a = PipesRs::new(Random::new(), [80, 24], Args { pipes: 0, ..args() }).unwrap();
    a.take_changes();
    a.remove_pipe();
    assert_eq!(a.pipes().len(), 0);
    assert_eq!(clears(&a.take_changes()), 1);
}

#[test]
fn resize_applies_on_next_tick() {
    let mut a = PipesRs::new(Random::new(), [80, 24], Args { pipes: 6, ..args() }).unwrap();
    a.handle_input(Input::Resized { cols: 3, rows: 2 }).unwrap();
    assert_eq!(a.screen_size(), [3, 2]);
    assert_eq!(a.frames_since_clear(), 0);
    a.tick();
    for p in a.pipes() {
        let pos = p.get_position();
        assert!(pos[0] >= 0 && pos[0] < 3 && pos[1] >= 0 && pos[1] < 2);
    }
}

#[test]
fn keys_drive_the_state() {
    let mut a = PipesRs::new(Random::new(), [80, 24], args()).unwrap();
    assert_eq!(a.start(), Ok(()));
    assert_eq!(a.start(), Err(RunError::AlreadyRunning));
    a.tick();
    a.tick();
    a.take_changes();
    a.handle_input(Input::Key('x')).unwrap();
    a.handle_input(Input::Other).unwrap();
    assert!(a.take_changes().is_empty());
    assert_eq!(a.frames_since_clear(), 2);
    a.handle_input(Input::Key('d')).unwrap();
    assert!(a.is_debug());
    assert_eq!(a.frames_since_clear(), 2);
    a.handle_input(Input::Key('c')).unwrap();
    assert_eq!(a.frames_since_clear(), 0);
    assert_eq!(clears(&a.take_changes()), 2);
    a.handle_input(Input::Key('q')).unwrap();
    assert!(!a.is_running());
    a.cleanup();
    assert_eq!(a.take_changes(), vec![Command::MoveTo { x: 0, y: 0 }]);
}

#[test]
fn debug_box_layout() {
    let lines = vec!["ab".to_string(), "abcd".to_string()];
    let changes = box_changes([2, 1], &lines);
    assert_eq!(
        changes,
        vec![
            Command::Foreground(15),
            Command::MoveTo { x: 2, y: 1 },
            Command::Text("┏━━━━━━┓".to_string()),
            Command::MoveTo { x: 2, y: 2 },
            Command::Text("┃ ab   ┃".to_string()),
            Command::MoveTo { x: 2, y: 3 },
            Command::Text("┃ abcd ┃".to_string()),
            Command::MoveTo { x: 2, y: 4 },
            Command::Text("┗━━━━━━┛".to_string()),
        ]
    );
    let mut a = PipesRs::new(Random::new(), [80, 24], args()).unwrap();
    a.take_changes();
    a.draw_box([2, 1], lines);
    assert_eq!(a.take_changes(), changes);
}

#[test]
fn random_draws_vary() {
    let mut random = Random::new();
    let mut seen = [false; 7];
    let mut xs = std::collections::HashSet::new();
    let mut turns = 0;
    for _ in 0..2000 {
        seen[random.random_range(0, 6) as usize] = true;
        xs.insert(random.get_random_position(&[50, 50])[0]);
        if random.random_ratio(1, 2) {
            turns += 1;
        }
    }
    assert!(seen.iter().all(|s| *s));
    assert!(xs.len() > 10);
    assert!(turns > 500 && turns < 1500);
}

#[test]
fn zero_clear_interval_clears_once() {
    let mut a = PipesRs::new(Random::new(), [80, 24], Args { frame_clear: 0, ..args() }).unwrap();
    a.take_changes();
    a.tick();
    assert_eq!(clears(&a.take_changes()), 1);
    assert_eq!(a.frames_since_clear(), 1);
    for _ in 0..50 {
        assert!(a.ready_to_tick());
        a.tick();
    }
    assert_eq!(clears(&a.take_changes()), 0);
    assert_eq!(a.frames_since_clear(), 51);
}
