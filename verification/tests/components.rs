use pipes_rs::color::{gen_random_color, Color, ColorMode, Oklch, Palette, FULL_CIRCLE_MDEG};
use pipes_rs::config::{Config, ConfigError};
use pipes_rs::direction::Direction;
use pipes_rs::kind::{Kind, KindSet, KindWidth};
use pipes_rs::position::{InScreenBounds, Position};
use pipes_rs::rng::{Rng, CHANCE_MAX};
use pipes_rs::screen::Screen;
use pipes_rs::terminal;

#[test]
fn maybe_turn_zero_chance_never_turns() {
    let mut rng = Rng::new(7);
    let dirs = [Direction::Up, Direction::Down, Direction::Left, Direction::Right];
    for &d in &dirs {
        for _ in 0..100 {
            assert_eq!(d.maybe_turn(&mut rng, 0), d);
        }
    }
}

#[test]
fn maybe_turn_full_chance_always_turns() {
    let mut rng = Rng::new(11);
    let dirs = [Direction::Up, Direction::Down, Direction::Left, Direction::Right];
    for &d in &dirs {
        for _ in 0..100 {
            let r = d.maybe_turn(&mut rng, CHANCE_MAX);
            assert_ne!(r, d);
            assert!(r == d.turned_left() || r == d.turned_right());
        }
    }
}

#[test]
fn turn_permutations_are_fixed() {
    assert_eq!(Direction::Up.turned_left(), Direction::Left);
    assert_eq!(Direction::Down.turned_left(), Direction::Right);
    assert_eq!(Direction::Left.turned_left(), Direction::Up);
    assert_eq!(Direction::Right.turned_left(), Direction::Down);
    assert_eq!(Direction::Up.turned_right(), Direction::Right);
    assert_eq!(Direction::Down.turned_right(), Direction::Left);
    assert_eq!(Direction::Left.turned_right(), Direction::Down);
    assert_eq!(Direction::Right.turned_right(), Direction::Up);
}

#[test]
fn gen_range_stays_in_bounds_and_varies() {
    let mut rng = Rng::new(42);
    let mut seen = std::collections::HashSet::new();
    for _ in 0..200 {
        let v = rng.gen_range(10, 1000);
        assert!((10..1000).contains(&v));
        seen.insert(v);
    }
    assert!(seen.len() > 1, "a real generator draws more than one value");
}

#[test]
fn gen_range_16_stays_in_bounds() {
    let mut rng = Rng::new(3);
    for _ in 0..200 {
        let v = rng.gen_range_16(5, 9);
        assert!((5..9).contains(&v));
    }
}

#[test]
fn gen_chance_edges() {
    let mut rng = Rng::new(5);
    for _ in 0..100 {
        assert!(!rng.gen_chance(0));
        assert!(rng.gen_chance(CHANCE_MAX));
    }
}

#[test]
fn move_left_at_zero_reports_out_of_bounds_without_mutating() {
    let mut p = Position { x: 0, y: 3 };
    let r = p.move_in(Direction::Left, (10, 5));
    assert_eq!(r, InScreenBounds(false));
    assert_eq!(p.x, 0);
    assert_eq!(p.y, 3);
}

#[test]
fn move_up_at_zero_reports_out_of_bounds_without_mutating() {
    let mut p = Position { x: 4, y: 0 };
    let r = p.move_in(Direction::Up, (10, 5));
    assert_eq!(r, InScreenBounds(false));
    assert_eq!(p.x, 4);
    assert_eq!(p.y, 0);
}

#[test]
fn move_off_far_edge_is_caught_by_the_bounds_check() {
    let mut p = Position { x: 9, y: 3 };
    let r = p.move_in(Direction::Right, (10, 5));
    assert_eq!(r, InScreenBounds(false));
    assert_eq!(p.x, 10, "the step itself happens; the check catches it");
    assert_eq!(p.y, 3);

    let mut q = Position { x: 2, y: 4 };
    let r = q.move_in(Direction::Down, (10, 5));
    assert_eq!(r, InScreenBounds(false));
    assert_eq!(q.y, 5);
}

#[test]
fn move_inside_stays_in_bounds() {
    let mut p = Position { x: 4, y: 2 };
    assert_eq!(p.move_in(Direction::Right, (10, 5)), InScreenBounds(true));
    assert_eq!((p.x, p.y), (5, 2));
    assert_eq!(p.move_in(Direction::Up, (10, 5)), InScreenBounds(true));
    assert_eq!((p.x, p.y), (5, 1));
}

#[test]
fn glyph_tables_have_the_documented_entries() {
    assert_eq!(Kind::Heavy.up(), '┃');
    assert_eq!(Kind::Heavy.left(), '━');
    assert_eq!(Kind::Heavy.top_left(), '┏');
    assert_eq!(Kind::Heavy.top_right(), '┓');
    assert_eq!(Kind::Heavy.bottom_left(), '┗');
    assert_eq!(Kind::Heavy.bottom_right(), '┛');
    assert_eq!(Kind::Light.down(), '│');
    assert_eq!(Kind::Curved.top_left(), '╭');
    assert_eq!(Kind::Outline.right(), '═');
    assert_eq!(Kind::Dots.up(), '•');
    assert_eq!(Kind::Emoji.right(), '👉');
    assert_eq!(Kind::Heavy.chars().len(), 8);
}

#[test]
fn kind_widths() {
    assert_eq!(Kind::Dots.width(), KindWidth::Custom(2));
    assert_eq!(Kind::Heavy.width(), KindWidth::Auto);
    assert_eq!(Kind::Emoji.width(), KindWidth::Auto);
}

#[test]
fn kind_from_name_parses_every_known_name() {
    assert_eq!(Kind::from_name("heavy"), Some(Kind::Heavy));
    assert_eq!(Kind::from_name("light"), Some(Kind::Light));
    assert_eq!(Kind::from_name("curved"), Some(Kind::Curved));
    assert_eq!(Kind::from_name("knobby"), Some(Kind::Knobby));
    assert_eq!(Kind::from_name("emoji"), Some(Kind::Emoji));
    assert_eq!(Kind::from_name("outline"), Some(Kind::Outline));
    assert_eq!(Kind::from_name("dots"), Some(Kind::Dots));
    assert_eq!(Kind::from_name("Heavy"), None);
    assert_eq!(Kind::from_name(""), None);
    assert_eq!(Kind::from_name("heavyy"), None);
}

#[test]
fn kind_set_deduplicates_keeping_first_occurrences() {
    let ks = KindSet::new(vec![Kind::Heavy, Kind::Light, Kind::Heavy, Kind::Dots, Kind::Light]);
    assert_eq!(ks.iter(), vec![Kind::Heavy, Kind::Light, Kind::Dots]);
}

#[test]
fn kind_set_from_one_and_accessors() {
    let ks = KindSet::from_one(Kind::Dots);
    assert_eq!(ks.iter(), vec![Kind::Dots]);
    assert_eq!(ks.chars(), Kind::Dots.chars());
    assert_eq!(ks.custom_widths(), vec![2]);
    assert_eq!(ks.max_custom_width(), Some(2));

    let plain = KindSet::from_one(Kind::Heavy);
    assert_eq!(plain.custom_widths(), Vec::<u16>::new());
    assert_eq!(plain.max_custom_width(), None);
}

#[test]
fn kind_set_random_choice_is_a_member() {
    let ks = KindSet::new(vec![Kind::Heavy, Kind::Curved]);
    let mut rng = Rng::new(9);
    for _ in 0..50 {
        let k = ks.choose_random(&mut rng);
        assert!(k == Kind::Heavy || k == Kind::Curved);
    }
}

#[test]
fn coverage_fraction_counts_distinct_cells() {
    let mut s = Screen::new(4, 4);
    assert_eq!(s.portion_covered(), (0, 16));
    s.move_cursor_to(1, 2);
    s.print();
    assert_eq!(s.portion_covered(), (1, 16));
    s.move_cursor_to(3, 0);
    s.print();
    assert_eq!(s.portion_covered(), (2, 16));
}

#[test]
fn marking_a_covered_cell_twice_changes_nothing() {
    let mut s = Screen::new(4, 4);
    s.move_cursor_to(2, 2);
    s.print();
    let before = s.portion_covered();
    s.print();
    assert_eq!(s.portion_covered(), before);
    s.move_cursor_to(2, 2);
    s.print();
    assert_eq!(s.portion_covered(), before);
}

#[test]
fn clearing_uncovers_everything() {
    let mut s = Screen::new(3, 2);
    s.move_cursor_to(0, 0);
    s.print();
    s.move_cursor_to(2, 1);
    s.print();
    assert_eq!(s.portion_covered(), (2, 6));
    s.clear();
    assert_eq!(s.portion_covered(), (0, 6));
    assert!(!s.is_covered(0, 0));
    assert!(!s.is_covered(2, 1));
}

#[test]
fn resizing_reallocates_and_uncovers() {
    let mut s = Screen::new(2, 2);
    s.move_cursor_to(1, 1);
    s.print();
    s.resize(5, 3);
    assert_eq!(s.portion_covered(), (0, 15));
}

#[test]
fn color_update_rotates_and_wraps_the_hue() {
    let mut c = Color::Sampled(Oklch { l_milli: 750, c_milli: 125, h_mdeg: 359_000 });
    c.update(2_000);
    assert_eq!(c, Color::Sampled(Oklch { l_milli: 750, c_milli: 125, h_mdeg: 1_000 }));
    c.update(0);
    assert_eq!(c, Color::Sampled(Oklch { l_milli: 750, c_milli: 125, h_mdeg: 1_000 }));
    assert!(FULL_CIRCLE_MDEG == 360_000);
}

#[test]
fn two_small_shifts_equal_one_combined_shift() {
    let start = Color::Sampled(Oklch { l_milli: 700, c_milli: 110, h_mdeg: 100_000 });
    let mut twice = start;
    twice.update(200_000);
    twice.update(200_000);
    let mut once = start;
    once.update((200_000 + 200_000) % FULL_CIRCLE_MDEG);
    assert_eq!(twice, once);
    assert_eq!(twice, Color::Sampled(Oklch { l_milli: 700, c_milli: 110, h_mdeg: 140_000 }));
}

#[test]
fn named_color_ignores_hue_rotation() {
    let mut c = Color::Named(terminal::Color::Green);
    c.update(90_000);
    assert_eq!(c, Color::Named(terminal::Color::Green));
}

#[test]
fn color_generation_follows_the_mode() {
    let mut rng = Rng::new(21);
    assert_eq!(gen_random_color(&mut rng, ColorMode::Plain, Palette::Default), None);
    for _ in 0..50 {
        match gen_random_color(&mut rng, ColorMode::Ansi, Palette::Default) {
            Some(Color::Named(_)) => {}
            other => panic!("ansi mode must yield a named color, got {:?}", other),
        }
        match gen_random_color(&mut rng, ColorMode::Rgb, Palette::Matrix) {
            Some(Color::Sampled(ok)) => {
                assert_eq!(ok.h_mdeg, 145_000, "the matrix palette fixes its hue");
                assert!((500..900).contains(&ok.l_milli));
                assert_eq!(ok.c_milli, 110);
            }
            other => panic!("rgb mode must yield a sample, got {:?}", other),
        }
    }
}

#[test]
fn palette_parameters() {
    assert_eq!(Palette::Default.get_hue_range(), (0, 360_000));
    assert_eq!(Palette::Default.get_lightness_range(), (750, 750));
    assert_eq!(Palette::Default.get_chroma(), 125);
    assert_eq!(Palette::Darker.get_lightness_range(), (650, 650));
    assert_eq!(Palette::Pastel.get_chroma(), 85);
    assert_eq!(Palette::Matrix.get_hue_range(), (145_000, 145_000));
}

#[test]
fn config_defaults() {
    let c = Config::unset();
    assert_eq!(c.color_mode(), ColorMode::Ansi);
    assert_eq!(c.palette(), Palette::Default);
    assert_eq!(c.rainbow(), 0);
    assert_eq!(c.delay_ms(), 20);
    assert_eq!(c.frame_delay_ms(), Some(20));
    assert_eq!(c.reset_threshold(), Some(CHANCE_MAX / 2));
    assert_eq!(c.kinds().iter(), vec![Kind::Heavy]);
    assert!(c.bold());
    assert!(!c.inherit_style());
    assert_eq!(c.num_pipes(), 1);
    assert_eq!(c.turn_chance(), 1500);
    assert_eq!(c.validate(), Ok(()));
}

#[test]
fn reset_threshold_zero_means_disabled() {
    let mut c = Config::unset();
    c.reset_threshold = Some(0);
    assert_eq!(c.reset_threshold(), None);
    c.reset_threshold = Some(2500);
    assert_eq!(c.reset_threshold(), Some(2500));
}

#[test]
fn frame_delay_resolution() {
    let mut c = Config::unset();
    c.delay_ms = Some(35);
    assert_eq!(c.frame_delay_ms(), Some(35));

    let mut c = Config::unset();
    c.fps = Some(50);
    assert_eq!(c.frame_delay_ms(), Some(20));

    let mut c = Config::unset();
    c.fps = Some(0);
    assert_eq!(c.frame_delay_ms(), None, "unlimited frame rate sleeps not at all");
}

#[test]
fn config_with_both_delay_and_fps_is_rejected() {
    let mut c = Config::unset();
    c.delay_ms = Some(20);
    c.fps = Some(60);
    assert_eq!(c.validate(), Err(ConfigError::DelayAndFps));
    assert_eq!(
        c.validate().unwrap_err().message(),
        "cannot specify both delay and fps"
    );
}

#[test]
fn out_of_range_fractions_are_rejected() {
    let mut c = Config::unset();
    c.reset_threshold = Some(CHANCE_MAX + 1);
    assert_eq!(c.validate(), Err(ConfigError::ResetThresholdOutOfRange));

    let mut c = Config::unset();
    c.turn_chance = Some(CHANCE_MAX + 1);
    assert_eq!(c.validate(), Err(ConfigError::TurnChanceOutOfRange));

    let mut c = Config::unset();
    c.reset_threshold = Some(CHANCE_MAX);
    c.turn_chance = Some(CHANCE_MAX);
    assert_eq!(c.validate(), Ok(()));
}

#[test]
fn combine_prefers_the_overriding_config() {
    let mut base = Config::unset();
    base.delay_ms = Some(10);
    base.num_pipes = Some(3);
    let mut over = Config::unset();
    over.num_pipes = Some(7);
    over.bold = Some(false);
    let merged = base.combine(over);
    assert_eq!(merged.delay_ms, Some(10));
    assert_eq!(merged.num_pipes, Some(7));
    assert_eq!(merged.bold, Some(false));
    assert_eq!(merged.fps, None);
}
