use pastel_palette::color::hex_code;
use pastel_palette::palette::{display_palette, palette_from_pixels, ExtractError};
use pastel_palette::session::{Action, App, Key};

fn float_pastel(c: u8) -> u8 {
    ((c as f32 * 0.7) + 255.0 * 0.3) as u8
}

#[test]
fn pastel_of_black_white_and_mid_gray() {
    assert_eq!(App::to_pastel(0, 0, 0), (76, 76, 76));
    assert_eq!(App::to_pastel(255, 255, 255), (255, 255, 255));
    assert_eq!(App::to_pastel(128, 128, 128), (166, 166, 166));
    assert_eq!(App::to_pastel(10, 100, 200), (83, 146, 216));
}

#[test]
fn pastel_agrees_with_float_blend_on_every_channel() {
    for c in 0..=255u8 {
        assert_eq!(App::to_pastel(c, c, c), (float_pastel(c), float_pastel(c), float_pastel(c)));
    }
}

#[test]
fn variations_agree_with_float_scaling_on_every_channel() {
    for c in 0..=255u8 {
        let lighter = (c as f32 * 1.2).min(255.0) as u8;
        let darker = (c as f32 * 0.8) as u8;
        assert_eq!(App::get_color_variations(c, c, c), vec![(c, c, c), (lighter, lighter, lighter), (darker, darker, darker)]);
    }
}

#[test]
fn pastel_twice_is_at_least_pastel_once() {
    let once = App::to_pastel(0, 0, 0);
    let twice = App::to_pastel(once.0, once.1, once.2);
    assert_eq!(twice, (129, 129, 129));
    assert_ne!(once, twice);
    let once = App::to_pastel(3, 140, 250);
    let twice = App::to_pastel(once.0, once.1, once.2);
    assert!(twice.0 >= once.0 && twice.1 >= once.1 && twice.2 >= once.2);
}

#[test]
fn variations_of_a_color() {
    assert_eq!(App::get_color_variations(200, 100, 50), vec![(200, 100, 50), (240, 120, 60), (160, 80, 40)]);
    assert_eq!(App::get_color_variations(250, 213, 7), vec![(250, 213, 7), (255, 255, 8), (200, 170, 5)]);
    let v = App::get_color_variations(0, 1, 255);
    assert_eq!(v[1], (0, 1, 255));
    assert_eq!(v[2], (0, 0, 204));
}

#[test]
fn display_palette_orders_tones_then_accents() {
    let extracted = vec![(200, 100, 50), (10, 20, 30), (40, 50, 60)];
    let shown = display_palette(&extracted).unwrap();
    let expected = vec![
        App::to_pastel(240, 120, 60),
        App::to_pastel(200, 100, 50),
        App::to_pastel(160, 80, 40),
        App::to_pastel(10, 20, 30),
        App::to_pastel(40, 50, 60),
    ];
    assert_eq!(shown, expected);
    assert_eq!(shown, vec![(244, 160, 118), (216, 146, 111), (188, 132, 104), (83, 90, 97), (104, 111, 118)]);
}

#[test]
fn display_palette_uses_only_first_three_colors() {
    let extracted = vec![(1, 2, 3), (4, 5, 6), (7, 8, 9), (250, 250, 250), (0, 0, 0)];
    let shown = display_palette(&extracted).unwrap();
    assert_eq!(shown.len(), 5);
    assert_eq!(shown[3], App::to_pastel(4, 5, 6));
    assert_eq!(shown[4], App::to_pastel(7, 8, 9));
}

#[test]
fn display_palette_needs_three_colors() {
    assert_eq!(display_palette(&vec![]), Err(ExtractError::Palette));
    assert_eq!(display_palette(&vec![(1, 2, 3)]), Err(ExtractError::Palette));
    assert_eq!(display_palette(&vec![(1, 2, 3), (4, 5, 6)]), Err(ExtractError::Palette));
}

#[test]
fn backspace_on_empty_path_keeps_it_empty() {
    let mut app = App::new();
    assert_eq!(app.handle_key(Key::Backspace, true), Action::Continue);
    assert_eq!(app.image_path, "");
    assert!(app.colors.is_empty());
}

#[test]
fn typing_and_erasing_the_path() {
    let mut app = App::new();
    for c in "a.pngx".chars() {
        assert_eq!(app.handle_key(Key::Char(c), true), Action::Continue);
    }
    assert_eq!(app.image_path, "a.pngx");
    assert_eq!(app.handle_key(Key::Backspace, true), Action::Continue);
    assert_eq!(app.image_path, "a.png");
}

#[test]
fn released_and_unknown_keys_change_nothing() {
    let mut app = App::new();
    app.handle_key(Key::Char('x'), true);
    assert_eq!(app.handle_key(Key::Char('y'), false), Action::Continue);
    assert_eq!(app.handle_key(Key::Backspace, false), Action::Continue);
    assert_eq!(app.handle_key(Key::Esc, false), Action::Continue);
    assert_eq!(app.handle_key(Key::Enter, false), Action::Continue);
    assert_eq!(app.handle_key(Key::Other, true), Action::Continue);
    assert_eq!(app.image_path, "x");
}

#[test]
fn enter_asks_for_extraction_and_escape_quits() {
    let mut app = App::new();
    app.handle_key(Key::Char('p'), true);
    assert_eq!(app.handle_key(Key::Enter, true), Action::Extract);
    assert_eq!(app.handle_key(Key::Esc, true), Action::Quit);
    assert_eq!(app.image_path, "p");
}

#[test]
fn undecodable_image_keeps_the_palette() {
    let mut app = App::new();
    assert_eq!(app.extract_colors(None), Err(ExtractError::Decode));
    assert!(app.colors.is_empty());
    app.colors = vec![(1, 1, 1), (2, 2, 2), (3, 3, 3), (4, 4, 4), (5, 5, 5)];
    assert_eq!(app.extract_colors(None), Err(ExtractError::Decode));
    assert_eq!(app.colors, vec![(1, 1, 1), (2, 2, 2), (3, 3, 3), (4, 4, 4), (5, 5, 5)]);
}

fn striped_pixels() -> Vec<u8> {
    let stripes: [(u8, u8, u8); 4] = [(200, 30, 30), (30, 200, 30), (30, 30, 200), (200, 200, 30)];
    let mut pixels = Vec::new();
    for (i, s) in stripes.iter().enumerate() {
        for _ in 0..(4000 - 700 * i) {
            pixels.extend_from_slice(&[s.0, s.1, s.2]);
        }
    }
    pixels
}

#[test]
fn extraction_from_pixels_shows_five_pastel_colors() {
    let pixels = striped_pixels();
    let shown = palette_from_pixels(&pixels).unwrap();
    assert_eq!(shown.len(), 5);
    for c in &shown {
        assert!(c.0 >= 76 && c.1 >= 76 && c.2 >= 76);
    }
    assert_ne!(shown[0], (200, 30, 30));
    let mut app = App::new();
    assert_eq!(app.extract_colors(Some(&pixels)), Ok(()));
    assert_eq!(app.colors, shown);
}

#[test]
fn hex_code_is_upper_case_and_zero_padded() {
    assert_eq!(hex_code((1, 2, 255)), "#0102FF");
    assert_eq!(hex_code((0, 0, 0)), "#000000");
    assert_eq!(hex_code((171, 205, 239)), "#ABCDEF");
    assert_eq!(hex_code((16, 9, 160)), "#1009A0");
}
