use tui_playground::app::App;
use tui_playground::commands::effect::{Canvas, Cell, Effects, Nav, Rgb, MODE_COUNT};
use tui_playground::key::Key;
use tui_playground::prompt::Area;
use tui_playground::text::trim_chars;

#[test]
fn effects_cursor_stays_in_the_menu() {
    let mut e = Effects::new();
    assert_eq!(e.handle_key(Key::Up), Nav::Stay);
    assert_eq!(e.cursor(), 0);
    for _ in 0..10 {
        assert_eq!(e.handle_key(Key::Down), Nav::Stay);
    }
    assert_eq!(e.cursor(), MODE_COUNT - 1);
    assert_eq!(e.handle_key(Key::Char('k')), Nav::Stay);
    assert_eq!(e.cursor(), 2);
    assert_eq!(e.handle_key(Key::Esc), Nav::Exit);
    assert_eq!(e.handle_key(Key::Char('q')), Nav::Quit);
    assert_eq!(e.handle_key(Key::Enter), Nav::Stay);
    assert_eq!(e.cursor(), 2);
}

#[test]
fn moving_restarts_the_animation() {
    let mut e = Effects::new();
    e.tick();
    e.tick();
    assert_eq!(e.ticks(), 2);
    e.handle_key(Key::Up);
    assert_eq!(e.ticks(), 2);
    e.handle_key(Key::Down);
    assert_eq!(e.ticks(), 0);
    e.tick();
    e.reset();
    assert_eq!(e.cursor(), 0);
    assert_eq!(e.ticks(), 0);
}

#[test]
fn menu_marks_the_selected_effect() {
    let mut e = Effects::new();
    e.handle_key(Key::Down);
    let lines = e.menu_lines();
    let texts: Vec<String> = lines.iter().map(|l| l.text.clone()).collect();
    assert_eq!(texts, vec!["Pulse", "▶ Orbit", "Starburst", "Ripple"]);
    assert!(lines[1].selected && !lines[0].selected);
    let layout = e.menu_layout(30);
    assert_eq!((layout.top, layout.height, layout.selected_row, layout.help_row), (12, 6, 15, 29));
    let layout = e.menu_layout(0);
    assert_eq!((layout.top, layout.height, layout.selected_row, layout.help_row), (0, 6, 3, 0));
}

#[test]
fn canvas_draws_inside_only() {
    let color = Rgb { r: 1, g: 2, b: 3 };
    let mut canvas = Canvas::new(3, 2);
    canvas.set(2, 1, '#', color);
    canvas.set(-1, 0, 'x', color);
    canvas.set(3, 0, 'x', color);
    canvas.set(0, 2, 'x', color);
    let rows = canvas.into_rows();
    assert_eq!(rows.len(), 2);
    assert_eq!(rows[0], vec![None, None, None]);
    assert_eq!(rows[1], vec![None, None, Some(Cell { ch: '#', color })]);
}

#[test]
fn trim_drops_surrounding_white_space() {
    let s: Vec<char> = " \t ab c\u{3000}\n".chars().collect();
    assert_eq!(trim_chars(&s), vec!['a', 'b', ' ', 'c']);
    let s: Vec<char> = "   ".chars().collect();
    assert!(trim_chars(&s).is_empty());
}

#[test]
fn prompt_view_needs_two_rows() {
    let app = App::new();
    assert!(app.prompt_view(0, 10).is_none());
    assert!(app.prompt_view(10, 1).is_none());
    assert!(app.prompt_view(10, 2).is_some());
}

#[test]
fn prompt_view_shows_the_newest_history() {
    let mut app = App::new();
    for i in 0..5 {
        app.push_output(format!("l{i}"));
    }
    let view = app.prompt_view(40, 5).unwrap();
    assert_eq!(view.history, "l2\nl3\nl4");
    assert_eq!(view.history_area, Area { x: 0, y: 0, width: 40, height: 3 });
    assert_eq!(view.input_area, Area { x: 0, y: 3, width: 40, height: 1 });
    assert_eq!(view.help_area, Area { x: 0, y: 4, width: 40, height: 1 });
}

#[test]
fn prompt_view_popup_lists_candidates() {
    let mut app = App::new();
    app.handle_key(Key::Down, false);
    let view = app.prompt_view(40, 10).unwrap();
    assert!(!view.shell);
    assert!(view.hint_area.is_none());
    let popup = view.popup.unwrap();
    assert_eq!(popup.area, Area { x: 2, y: 4, width: 10, height: 4 });
    let labels: Vec<String> = popup.rows.iter().map(|r| r.label.clone()).collect();
    assert_eq!(labels, vec![" effect   ", " help     ", " clear    ", " quit     "]);
    let selected: Vec<bool> = popup.rows.iter().map(|r| r.selected).collect();
    assert_eq!(selected, vec![false, true, false, false]);
    let narrow = app.prompt_view(5, 10).unwrap().popup.unwrap();
    assert_eq!(narrow.area.width, 3);
    assert_eq!(narrow.rows[0].label, " effect");
}

#[test]
fn prompt_view_shell_mode_shows_the_hint() {
    let mut app = App::new();
    for c in "!ls".chars() {
        app.handle_key(Key::Char(c), false);
    }
    let view = app.prompt_view(80, 10).unwrap();
    assert!(view.shell);
    assert_eq!(view.body, "ls");
    assert!(view.popup.is_none());
    assert_eq!(view.hint_area, Some(Area { x: 2, y: 7, width: 35, height: 1 }));
    let narrow = app.prompt_view(10, 2).unwrap();
    assert_eq!(narrow.hint_area, Some(Area { x: 2, y: 0, width: 8, height: 1 }));
}

#[test]
fn white_space_is_the_unicode_white_space_set() {
    let listed = |u: u32| {
        (0x09..=0x0d).contains(&u)
            || u == 0x20
            || u == 0x85
            || u == 0xa0
            || u == 0x1680
            || (0x2000..=0x200a).contains(&u)
            || u == 0x2028
            || u == 0x2029
            || u == 0x202f
            || u == 0x205f
            || u == 0x3000
    };
    for u in 0..=0x10ffffu32 {
        if let Some(c) = char::from_u32(u) {
            assert_eq!(c.is_whitespace(), listed(u), "U+{u:04X}");
        }
    }
}
