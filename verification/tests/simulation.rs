use pipes_rs::app::{App, ControlFlow};
use pipes_rs::color::{Color, ColorMode, Oklch, Palette};
use pipes_rs::config::Config;
use pipes_rs::direction::Direction;
use pipes_rs::kind::{Kind, KindSet};
use pipes_rs::pipe::{HistoryKeeper, Pipe};
use pipes_rs::position::{InScreenBounds, Position};
use pipes_rs::rng::{Rng, CHANCE_MAX};
use pipes_rs::terminal::{Event, Terminal};

fn on_edge_pointing_inward(p: &Pipe, size: (u16, u16)) -> bool {
    match p.current_direction() {
        Direction::Up => p.position.y == size.1 - 1 && p.position.x < size.0,
        Direction::Down => p.position.y == 0 && p.position.x < size.0,
        Direction::Left => p.position.x == size.0 - 1 && p.position.y < size.1,
        Direction::Right => p.position.x == 0 && p.position.y < size.1,
    }
}

#[test]
fn spawn_sits_on_an_edge_pointing_inward() {
    let mut rng = Rng::new(1);
    for _ in 0..100 {
        let p = Pipe::new((10, 5), &mut rng, ColorMode::Ansi, Palette::Default, Kind::Heavy);
        assert!(on_edge_pointing_inward(&p, (10, 5)));
    }
}

#[test]
fn duplicate_preserves_color_and_kind_exactly() {
    let mut rng = Rng::new(2);
    for _ in 0..100 {
        let p = Pipe::new((12, 7), &mut rng, ColorMode::Rgb, Palette::Pastel, Kind::Curved);
        let d = p.dup((12, 7), &mut rng);
        assert_eq!(d.color, p.color);
        assert_eq!(d.kind(), p.kind());
        assert!(on_edge_pointing_inward(&d, (12, 7)));
        assert_eq!(d.previous_direction(), None);
    }
}

#[test]
fn reachable_transitions_always_have_a_glyph() {
    let mut rng = Rng::new(3);
    let size = (20u16, 20u16);
    let mut p = Pipe::new(size, &mut rng, ColorMode::Ansi, Palette::Default, Kind::Light);
    let table = Kind::Light.chars();
    for _ in 0..2000 {
        let glyph = p.to_char();
        assert!(table.contains(&glyph), "every drawn glyph comes from the kind's table");
        let prev = match p.previous_direction() {
            Some(d) => d,
            None => p.current_direction(),
        };
        let cur = p.current_direction();
        let reversed = matches!(
            (prev, cur),
            (Direction::Up, Direction::Down)
                | (Direction::Down, Direction::Up)
                | (Direction::Left, Direction::Right)
                | (Direction::Right, Direction::Left)
        );
        assert!(!reversed, "a pipe never reverses in place");
        let InScreenBounds(stayed) = p.tick(size, &mut rng, CHANCE_MAX / 2, 0);
        if !stayed {
            p = p.dup(size, &mut rng);
        }
    }
}

#[test]
fn straight_run_then_forced_left_turn() {
    // A 10 by 5 grid, a pipe heading right from (0, 2).
    let size = (10u16, 5u16);
    let mut rng = Rng::new(4);
    let mut p = Pipe::new_at(Position { x: 0, y: 2 }, Direction::Right, None, Kind::Heavy);
    for step in 0..3 {
        assert_eq!(p.to_char(), '━', "straight glyph while going right");
        let r = p.tick(size, &mut rng, 0, 0);
        assert_eq!(r, InScreenBounds(true));
        assert_eq!((p.position.x, p.position.y), (step + 1, 2));
    }
    assert_eq!((p.position.x, p.position.y), (3, 2));

    // A left turn while heading right points the pipe down, and the glyph
    // drawn at the turn cell is the kind's top-right corner.
    assert_eq!(Direction::Right.turned_left(), Direction::Down);
    let mut history = HistoryKeeper::new(Direction::Right);
    history.update(Direction::Down);
    let turned = Pipe { history, position: Position { x: 4, y: 2 }, color: None, kind: Kind::Heavy };
    assert_eq!(turned.to_char(), Kind::Heavy.top_right());
    assert_eq!(turned.to_char(), '┓');
}

#[test]
fn forced_turns_draw_corner_glyphs() {
    let size = (10u16, 5u16);
    let mut rng = Rng::new(5);
    let mut saw_down = false;
    let mut saw_up = false;
    for _ in 0..200 {
        let mut p = Pipe::new_at(Position { x: 3, y: 2 }, Direction::Right, None, Kind::Heavy);
        let r = p.tick(size, &mut rng, CHANCE_MAX, 0);
        assert_eq!(r, InScreenBounds(true));
        assert_eq!((p.position.x, p.position.y), (4, 2));
        match p.current_direction() {
            Direction::Down => {
                assert_eq!(p.to_char(), '┓');
                saw_down = true;
            }
            Direction::Up => {
                assert_eq!(p.to_char(), '┛');
                saw_up = true;
            }
            other => panic!("a forced turn from right must go up or down, not {:?}", other),
        }
    }
    assert!(saw_down && saw_up, "both turn outcomes occur over 200 draws");
}

#[test]
fn blocked_move_mutates_nothing_further() {
    // A pipe at the left edge heading left: out-of-bounds is reported
    // immediately and nothing else changes, not even the color.
    let size = (10u16, 5u16);
    let mut rng = Rng::new(13);
    let color = Color::Sampled(Oklch { l_milli: 750, c_milli: 125, h_mdeg: 100_000 });
    let mut p = Pipe::new_at(Position { x: 0, y: 2 }, Direction::Left, Some(color), Kind::Heavy);
    let r = p.tick(size, &mut rng, CHANCE_MAX, 30);
    assert_eq!(r, InScreenBounds(false));
    assert_eq!((p.position.x, p.position.y), (0, 2));
    assert_eq!(p.color, Some(color), "a blocked move leaves the color alone");
    assert_eq!(p.current_direction(), Direction::Left);
    assert_eq!(p.previous_direction(), None);
}

#[test]
fn applied_move_off_the_far_edge_still_rotates_the_color() {
    // Heading off the right edge the step is applied and the bounds check
    // catches it afterward, so the color update of the applied step stands.
    let size = (10u16, 5u16);
    let mut rng = Rng::new(14);
    let color = Color::Sampled(Oklch { l_milli: 750, c_milli: 125, h_mdeg: 100_000 });
    let mut p = Pipe::new_at(Position { x: 9, y: 2 }, Direction::Right, Some(color), Kind::Heavy);
    let r = p.tick(size, &mut rng, 0, 30);
    assert_eq!(r, InScreenBounds(false));
    assert_eq!((p.position.x, p.position.y), (10, 2));
    assert_eq!(
        p.color,
        Some(Color::Sampled(Oklch { l_milli: 750, c_milli: 125, h_mdeg: 130_000 }))
    );
}

#[test]
fn tick_applies_hue_rotation() {
    let size = (10u16, 5u16);
    let mut rng = Rng::new(6);
    let color = Color::Sampled(Oklch { l_milli: 750, c_milli: 125, h_mdeg: 100_000 });
    let mut p = Pipe::new_at(Position { x: 0, y: 2 }, Direction::Right, Some(color), Kind::Heavy);
    let r = p.tick(size, &mut rng, 0, 30);
    assert_eq!(r, InScreenBounds(true));
    assert_eq!(
        p.color,
        Some(Color::Sampled(Oklch { l_milli: 750, c_milli: 125, h_mdeg: 130_000 }))
    );
}

#[test]
fn terminal_scales_columns_by_the_glyph_width() {
    let t = Terminal::new(80, 24, 2);
    assert_eq!(t.size(), (40, 24));
    assert_eq!(t.max_char_width(), 2);

    let narrow = Terminal::new(81, 24, 2);
    assert_eq!(narrow.size(), (40, 24));
}

#[test]
fn max_char_width_measures_glyphs_and_overrides() {
    assert_eq!(Terminal::determine_max_char_width(&vec!['━', '│'], None), 1);
    assert_eq!(Terminal::determine_max_char_width(&vec!['👆', '━'], None), 2);
    assert_eq!(Terminal::determine_max_char_width(&vec!['━'], Some(2)), 2);
    assert_eq!(Terminal::determine_max_char_width(&vec!['👆'], Some(1)), 2);
    assert_eq!(Terminal::determine_max_char_width(&Vec::new(), None), 0);
}

#[test]
fn terminal_for_kind_set_uses_the_widest_glyph() {
    let emoji = KindSet::from_one(Kind::Emoji);
    let t = Terminal::for_kind_set(80, 24, &emoji).expect("emoji glyphs are measurable");
    assert_eq!(t.max_char_width(), 2);
    assert_eq!(t.size(), (40, 24));

    let dots = KindSet::from_one(Kind::Dots);
    let t = Terminal::for_kind_set(80, 24, &dots).expect("dots declare a custom width");
    assert_eq!(t.max_char_width(), 2, "the custom width wins over the measured width");

    let heavy = KindSet::from_one(Kind::Heavy);
    let t = Terminal::for_kind_set(80, 24, &heavy).expect("box-drawing glyphs are one column");
    assert_eq!(t.max_char_width(), 1);
    assert_eq!(t.size(), (80, 24));
}

#[test]
fn terminal_tracks_coverage_and_physical_columns() {
    let mut t = Terminal::new(8, 4, 2);
    assert_eq!(t.size(), (4, 4));
    let phys = t.move_cursor_to(3, 1);
    assert_eq!(phys, 6, "logical cells scale to physical columns");
    t.print('━');
    assert_eq!(t.portion_covered(), (1, 16));
    assert!(t.is_covered(3, 1));
    t.clear();
    assert_eq!(t.portion_covered(), (0, 16));
}

#[test]
fn terminal_resize_rescales_and_uncovers() {
    let mut t = Terminal::new(8, 4, 2);
    t.move_cursor_to(0, 0);
    t.print('━');
    t.resize(12, 6);
    assert_eq!(t.size(), (6, 6));
    assert_eq!(t.portion_covered(), (0, 36));
}

fn small_app(threshold: Option<u32>, pipes: u32) -> App {
    let terminal = Terminal::new(4, 4, 1);
    let rng = Rng::new(8);
    let mut config = Config::unset();
    config.reset_threshold = threshold;
    config.num_pipes = Some(pipes);
    App::new(terminal, rng, config).expect("a 4 by 4 grid is usable")
}

#[test]
fn half_threshold_trips_after_eight_of_sixteen_cells() {
    // A reset threshold of one half on a 4 by 4 grid: sixteen cells.
    let mut app = small_app(Some(CHANCE_MAX / 2), 1);
    let cells = [(0, 0), (1, 0), (2, 0), (3, 0), (0, 1), (1, 1), (2, 1)];
    for &(x, y) in &cells {
        app.terminal.move_cursor_to(x, y);
        app.terminal.print('━');
    }
    assert_eq!(app.terminal.portion_covered(), (7, 16));
    assert!(app.under_threshold(), "seven of sixteen is below one half");

    app.terminal.move_cursor_to(3, 1);
    app.terminal.print('━');
    // Marking a cell twice must not push the count over.
    app.terminal.move_cursor_to(3, 1);
    app.terminal.print('━');
    assert_eq!(app.terminal.portion_covered(), (8, 16));
    assert!(
        !app.under_threshold(),
        "at exactly half coverage the loop leaves its running state"
    );
}

#[test]
fn zero_threshold_disables_resets() {
    let mut app = small_app(Some(0), 1);
    for y in 0..4 {
        for x in 0..4 {
            app.terminal.move_cursor_to(x, y);
            app.terminal.print('━');
        }
    }
    assert_eq!(app.terminal.portion_covered(), (16, 16));
    assert!(app.under_threshold(), "a zero threshold never trips, even fully covered");
}

#[test]
fn exit_and_reset_events_short_circuit_the_frame() {
    let mut app = small_app(None, 2);
    let (flow, cmds) = app.tick_frame(Some(Event::Exit));
    assert_eq!(flow, ControlFlow::Break);
    assert!(cmds.is_empty());
    let (flow, cmds) = app.tick_frame(Some(Event::Reset));
    assert_eq!(flow, ControlFlow::Reset);
    assert!(cmds.is_empty());
}

#[test]
fn a_frame_renders_each_pipe_then_advances_it() {
    let mut app = small_app(None, 3);
    let before: Vec<(u16, u16)> = app.pipes.iter().map(|p| (p.position.x, p.position.y)).collect();
    let (flow, cmds) = app.tick_frame(None);
    assert_eq!(flow, ControlFlow::Continue);
    assert_eq!(cmds.len(), 3);
    for (cmd, &(x, y)) in cmds.iter().zip(before.iter()) {
        assert_eq!((cmd.x, cmd.y), (x, y), "commands draw the pipes where they stood");
        assert!(app.terminal.is_covered(cmd.x, cmd.y), "rendering covers the cell");
        assert!(Kind::Heavy.chars().contains(&cmd.glyph));
    }
    assert_eq!(app.pipes.len(), 3);
}

#[test]
fn inherited_style_survives_many_frames() {
    let terminal = Terminal::new(3, 3, 1);
    let rng = Rng::new(10);
    let mut config = Config::unset();
    config.inherit_style = Some(true);
    config.color_mode = Some(ColorMode::Rgb);
    config.kinds = Some(KindSet::from_one(Kind::Curved));
    let mut app = App::new(terminal, rng, config).unwrap();
    let kind0 = app.pipes[0].kind();
    for _ in 0..200 {
        let (flow, _) = app.tick_frame(None);
        assert_eq!(flow, ControlFlow::Continue);
        assert_eq!(app.pipes[0].kind(), kind0, "style inherited across respawns");
        assert!(matches!(app.pipes[0].color, Some(Color::Sampled(_))));
    }
}

#[test]
fn reset_uncovers_and_respawns() {
    let mut app = small_app(None, 2);
    let (_, _) = app.tick_frame(None);
    assert_ne!(app.terminal.portion_covered().0, 0);
    app.reset();
    assert_eq!(app.terminal.portion_covered(), (0, 16));
    assert_eq!(app.pipes.len(), 2);
    for p in &app.pipes {
        assert!(on_edge_pointing_inward(p, (4, 4)));
    }
}

#[test]
fn resize_acts_as_a_full_reset() {
    let mut app = small_app(None, 2);
    let (_, _) = app.tick_frame(None);
    assert!(app.handle_resize(6, 5));
    assert_eq!(app.terminal.size(), (6, 5));
    assert_eq!(app.terminal.portion_covered(), (0, 30));
    assert_eq!(app.pipes.len(), 2);
    for p in &app.pipes {
        assert!(on_edge_pointing_inward(p, (6, 5)));
    }
}

#[test]
fn resize_to_an_empty_grid_is_refused() {
    let mut app = small_app(None, 1);
    assert!(!app.handle_resize(0, 5));
    assert!(!app.handle_resize(6, 0));
    assert_eq!(app.terminal.size(), (4, 4), "a refused resize changes nothing");
}

#[test]
fn app_refuses_an_unusable_grid() {
    let terminal = Terminal::new(0, 24, 1);
    let rng = Rng::new(12);
    assert!(App::new(terminal, rng, Config::unset()).is_none());
}
