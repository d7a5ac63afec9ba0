use tui_playground::app::{App, Screen};
use tui_playground::commands::CommandId;
use tui_playground::key::Key;

fn type_text(app: &mut App, text: &str) {
    for c in text.chars() {
        assert!(app.handle_key(Key::Char(c), false).is_none());
    }
}

fn lines(app: &App) -> Vec<String> {
    app.output().clone()
}

#[test]
fn starts_empty_on_the_prompt() {
    let app = App::new();
    assert_eq!(app.screen(), Screen::Prompt);
    assert!(app.output().is_empty());
    assert_eq!(app.input_text(), "");
    assert!(!app.is_quitting());
    assert_eq!(app.ticks(), 0);
}

#[test]
fn empty_input_offers_every_command_in_order() {
    let app = App::new();
    assert_eq!(
        app.matches(),
        vec![CommandId::Effect, CommandId::Help, CommandId::Clear, CommandId::Quit]
    );
}

#[test]
fn blank_input_offers_every_command() {
    let mut app = App::new();
    type_text(&mut app, "   ");
    assert_eq!(app.matches().len(), 4);
}

#[test]
fn prefix_narrows_the_candidates() {
    let mut app = App::new();
    type_text(&mut app, "e");
    assert_eq!(app.matches(), vec![CommandId::Effect]);
    let mut app = App::new();
    type_text(&mut app, "  q");
    assert_eq!(app.matches(), vec![CommandId::Quit]);
    let mut app = App::new();
    type_text(&mut app, "x");
    assert!(app.matches().is_empty());
}

#[test]
fn exact_name_offers_nothing() {
    let mut app = App::new();
    type_text(&mut app, "help");
    assert!(app.matches().is_empty());
}

#[test]
fn shell_mode_offers_nothing() {
    let mut app = App::new();
    type_text(&mut app, "!");
    assert!(app.is_shell_mode());
    assert!(app.matches().is_empty());
    let mut app = App::new();
    type_text(&mut app, " !");
    assert!(!app.is_shell_mode());
}

#[test]
fn tab_takes_the_selected_candidate() {
    let mut app = App::new();
    type_text(&mut app, "he");
    assert!(app.handle_key(Key::Tab, false).is_none());
    assert_eq!(app.input_text(), "help");
    assert!(app.matches().is_empty());
}

#[test]
fn down_and_up_move_the_selection_within_the_candidates() {
    let mut app = App::new();
    app.handle_key(Key::Up, false);
    assert_eq!(app.selected_suggestion(), 0);
    for _ in 0..10 {
        app.handle_key(Key::Down, false);
    }
    assert_eq!(app.selected_suggestion(), 3);
    app.handle_key(Key::Up, false);
    assert_eq!(app.selected_suggestion(), 2);
    app.handle_key(Key::Tab, false);
    assert_eq!(app.input_text(), "clear");
    assert_eq!(app.selected_suggestion(), 0);
}

#[test]
fn typing_resets_the_selection() {
    let mut app = App::new();
    app.handle_key(Key::Down, false);
    assert_eq!(app.selected_suggestion(), 1);
    type_text(&mut app, "c");
    assert_eq!(app.selected_suggestion(), 0);
    app.handle_key(Key::Down, false);
    app.handle_key(Key::Backspace, false);
    assert_eq!(app.selected_suggestion(), 0);
    assert_eq!(app.input_text(), "");
}

#[test]
fn backspace_on_empty_input_does_nothing_more() {
    let mut app = App::new();
    app.handle_key(Key::Backspace, false);
    assert_eq!(app.input_text(), "");
}

#[test]
fn enter_on_empty_input_takes_the_first_candidate_then_runs_it() {
    let mut app = App::new();
    assert!(app.handle_key(Key::Enter, false).is_none());
    assert_eq!(app.input_text(), "effect");
    assert_eq!(app.screen(), Screen::Prompt);
    assert!(app.handle_key(Key::Enter, false).is_none());
    assert_eq!(app.screen(), Screen::Effects);
    assert_eq!(lines(&app), vec!["> effect".to_string()]);
    assert_eq!(app.input_text(), "");
}

#[test]
fn help_lists_the_commands() {
    let mut app = App::new();
    type_text(&mut app, " help ");
    app.handle_key(Key::Enter, false);
    assert_eq!(
        lines(&app),
        vec![
            "> help".to_string(),
            "  effect  エフェクト画面を開く".to_string(),
            "  help    コマンド一覧を表示".to_string(),
            "  clear   出力を消去".to_string(),
            "  quit    終了（Esc でも可）".to_string(),
            "  !<cmd>  シェルを実行（例: !ls -la）".to_string(),
            "  Tab     補完 / ↑↓ で候補選択".to_string(),
        ]
    );
}

#[test]
fn unknown_command_is_reported() {
    let mut app = App::new();
    type_text(&mut app, "xyz");
    assert!(app.handle_key(Key::Enter, false).is_none());
    assert_eq!(
        lines(&app),
        vec![
            "> xyz".to_string(),
            "unknown command: xyz  ('help' でコマンド一覧)".to_string(),
        ]
    );
}

#[test]
fn empty_line_submits_nothing() {
    let mut app = App::new();
    type_text(&mut app, "   ");
    assert_eq!(app.submit(), None);
    assert!(app.output().is_empty());
    assert_eq!(app.input_text(), "");
}

#[test]
fn clear_empties_the_history() {
    let mut app = App::new();
    type_text(&mut app, "xyz");
    app.handle_key(Key::Enter, false);
    type_text(&mut app, "clear");
    app.handle_key(Key::Enter, false);
    assert!(app.output().is_empty());
}

#[test]
fn quit_command_and_escape_end_the_application() {
    let mut app = App::new();
    type_text(&mut app, "quit");
    app.handle_key(Key::Enter, false);
    assert!(app.is_quitting());
    assert_eq!(lines(&app), vec!["> quit".to_string()]);
    let mut app = App::new();
    app.handle_key(Key::Esc, false);
    assert!(app.is_quitting());
}

#[test]
fn ctrl_c_quits_on_either_screen() {
    let mut app = App::new();
    app.handle_key(Key::Char('c'), true);
    assert!(app.is_quitting());
    assert_eq!(app.input_text(), "");
    let mut app = App::new();
    app.open_effects();
    app.handle_key(Key::Char('c'), true);
    assert!(app.is_quitting());
    let mut app = App::new();
    app.handle_key(Key::Char('c'), false);
    assert!(!app.is_quitting());
    assert_eq!(app.input_text(), "c");
}

#[test]
fn effect_screen_keys() {
    let mut app = App::new();
    app.open_effects();
    app.handle_key(Key::Char('j'), false);
    assert_eq!(app.effects().cursor(), 1);
    app.handle_key(Key::Esc, false);
    assert_eq!(app.screen(), Screen::Prompt);
    assert!(!app.is_quitting());
    app.open_effects();
    assert_eq!(app.effects().cursor(), 0);
    app.handle_key(Key::Char('q'), false);
    assert!(app.is_quitting());
    assert_eq!(app.screen(), Screen::Effects);
}

#[test]
fn update_advances_the_animations() {
    let mut app = App::new();
    app.update();
    assert_eq!(app.ticks(), 1);
    assert_eq!(app.effects().ticks(), 0);
    app.open_effects();
    app.update();
    app.update();
    assert_eq!(app.ticks(), 3);
    assert_eq!(app.effects().ticks(), 2);
}

#[test]
fn history_keeps_the_newest_five_hundred_lines() {
    let mut app = App::new();
    for i in 0..600 {
        app.push_output(format!("line {i}"));
    }
    assert_eq!(app.output().len(), 500);
    assert_eq!(app.output()[0], "line 100");
    assert_eq!(app.output()[499], "line 599");
}

#[test]
fn leaving_the_effect_screen_gives_back_the_prompt() {
    let mut app = App::new();
    type_text(&mut app, "xyz");
    app.handle_key(Key::Enter, false);
    type_text(&mut app, "ef");
    app.open_effects();
    app.handle_key(Key::Down, false);
    app.handle_key(Key::Esc, false);
    assert_eq!(app.screen(), Screen::Prompt);
    assert_eq!(app.input_text(), "ef");
    assert_eq!(app.output().len(), 2);
    assert!(!app.is_quitting());
}

#[test]
fn every_command_is_offered_and_listed() {
    let app = App::new();
    let mut helped = App::new();
    type_text(&mut helped, "help");
    helped.submit();
    for id in tui_playground::commands::registry() {
        assert!(app.matches().contains(&id));
        let line = format!("  {:<8}{}", id.name(), id.help());
        assert!(helped.output().contains(&line));
    }
}
