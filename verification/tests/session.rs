use shortcuts_tui::catalog::{Category, Config, Shortcut, ShortcutGroup};
use shortcuts_tui::session::{HostEvent, Key, KeyEvent, Outcome, ShortcutsTui};
use zellij_tile::prelude::{BareKey, Event, KeyWithModifier};

fn press(key: Key) -> KeyEvent {
    KeyEvent { key, shift: false }
}

fn shifted(key: Key) -> KeyEvent {
    KeyEvent { key, shift: true }
}

fn named(names: &[&str]) -> Config {
    let mut categories = Vec::new();
    for name in names {
        let group = ShortcutGroup::new("Group", vec![Shortcut::new("k", "does something")]);
        categories.push(Category::new(name, vec![group]));
    }
    Config::new(categories)
}

fn session_with(names: &[&str]) -> ShortcutsTui {
    let mut tui = ShortcutsTui::new();
    tui.load(Some(named(names)));
    tui
}

fn type_text(tui: &mut ShortcutsTui, text: &str) {
    for c in text.chars() {
        assert_eq!(tui.handle_key(press(Key::Char(c))), Outcome::Redraw);
    }
}

#[test]
fn new_session_is_empty_and_browsing() {
    let tui = ShortcutsTui::new();
    assert_eq!(tui.config().categories.len(), 0);
    assert_eq!(tui.active_tab(), 0);
    assert!(!tui.search_mode());
    assert_eq!(tui.search_query(), "");
}

#[test]
fn default_session_is_the_new_session() {
    let tui = ShortcutsTui::default();
    assert_eq!(tui.config().categories.len(), 0);
    assert_eq!(tui.active_tab(), 0);
    assert!(!tui.search_mode());
    assert_eq!(tui.search_query(), "");
}

#[test]
fn load_without_source_uses_builtin_catalog() {
    let mut tui = ShortcutsTui::new();
    tui.load(None);
    assert_eq!(tui.config(), &Config::default_config());
    assert_eq!(tui.active_tab(), 0);
    assert!(!tui.search_mode());
    assert_eq!(tui.search_query(), "");
}

#[test]
fn load_with_source_uses_it() {
    let tui = session_with(&["A", "B", "C"]);
    assert_eq!(tui.config(), &named(&["A", "B", "C"]));
    assert_eq!(tui.config().categories.len(), 3);
}

#[test]
fn load_keeps_the_session_state() {
    let mut tui = session_with(&["A", "B", "C"]);
    tui.handle_key(press(Key::Tab));
    tui.handle_key(press(Key::Char('/')));
    type_text(&mut tui, "abc");
    tui.load_default_config();
    assert_eq!(tui.config(), &Config::default_config());
    assert_eq!(tui.active_tab(), 1);
    assert!(tui.search_mode());
    assert_eq!(tui.search_query(), "abc");
    tui.load(Some(named(&["X", "Y"])));
    assert_eq!(tui.config(), &named(&["X", "Y"]));
    assert_eq!(tui.active_tab(), 1);
    assert!(tui.search_mode());
    assert_eq!(tui.search_query(), "abc");
    tui.load(None);
    assert_eq!(tui.config(), &Config::default_config());
    assert_eq!(tui.active_tab(), 1);
    assert!(tui.search_mode());
    assert_eq!(tui.search_query(), "abc");
}

#[test]
fn load_keeps_a_tab_beyond_the_new_catalog() {
    let mut tui = session_with(&["A", "B", "C"]);
    tui.handle_key(press(Key::Char('3')));
    assert_eq!(tui.active_tab(), 2);
    tui.load_default_config();
    assert_eq!(tui.active_tab(), 2);
    let lines = tui.render(0, 0);
    assert_eq!(lines.len(), 8);
    assert_eq!(lines[2], "  1: Git   2: Zellij ");
    assert_eq!(tui.handle_key(press(Key::Tab)), Outcome::Redraw);
    assert_eq!(tui.active_tab(), 1);
}

#[test]
fn scenario_tab_search_escape() {
    let mut tui = ShortcutsTui::new();
    tui.load_default_config();
    let names: Vec<&str> = tui.config().categories.iter().map(|c| c.name.as_str()).collect();
    assert_eq!(names, vec!["Git", "Zellij"]);
    assert_eq!(tui.active_tab(), 0);
    assert!(!tui.search_mode());

    assert_eq!(tui.handle_key(press(Key::Tab)), Outcome::Redraw);
    assert_eq!(tui.active_tab(), 1);

    assert_eq!(tui.handle_key(press(Key::Char('/'))), Outcome::Redraw);
    assert!(tui.search_mode());

    type_text(&mut tui, "pane");
    assert_eq!(tui.search_query(), "pane");

    let lines = tui.render(24, 80);
    let shown: Vec<&String> = lines.iter().filter(|l| l.contains("Ctrl+")).collect();
    assert_eq!(
        shown,
        vec![
            "  Ctrl+p n             New pane",
            "  Ctrl+p d             New pane down",
            "  Ctrl+p r             New pane right",
            "  Ctrl+p x             Close pane",
        ]
    );
    assert!(!lines.iter().any(|l| l.contains("New tab")));
    assert!(!lines.iter().any(|l| l.contains("Close tab")));
    assert!(!lines.iter().any(|l| l.contains("Previous/Next tab")));

    assert_eq!(tui.handle_key(press(Key::Esc)), Outcome::Redraw);
    assert!(!tui.search_mode());
    assert_eq!(tui.search_query(), "");
    assert_eq!(tui.active_tab(), 1);
}

#[test]
fn active_tab_stays_in_range_over_a_key_sequence() {
    let mut tui = session_with(&["A", "B", "C"]);
    let keys = vec![
        press(Key::Tab),
        press(Key::Char('9')),
        shifted(Key::Tab),
        shifted(Key::Tab),
        shifted(Key::Tab),
        press(Key::Char('3')),
        press(Key::Tab),
        press(Key::Char('/')),
        press(Key::Char('7')),
        press(Key::Tab),
        press(Key::Backspace),
        press(Key::Backspace),
        press(Key::Esc),
        press(Key::Char('0')),
        press(Key::Other),
        press(Key::Char('2')),
        press(Key::Tab),
        press(Key::Tab),
    ];
    for key in keys {
        tui.handle_key(key);
        assert!(tui.active_tab() < 3);
        assert!(tui.search_mode() || tui.search_query().is_empty());
    }
    assert_eq!(tui.active_tab(), 0);
}

#[test]
fn tab_cycles_back_to_the_start() {
    for start in 0..4 {
        let mut tui = session_with(&["A", "B", "C", "D"]);
        for _ in 0..start {
            tui.handle_key(press(Key::Tab));
        }
        assert_eq!(tui.active_tab(), start);
        for _ in 0..4 {
            tui.handle_key(press(Key::Tab));
        }
        assert_eq!(tui.active_tab(), start);
        for _ in 0..4 {
            tui.handle_key(shifted(Key::Tab));
        }
        assert_eq!(tui.active_tab(), start);
    }
}

#[test]
fn tab_advances_and_wraps() {
    let mut tui = session_with(&["A", "B", "C"]);
    assert_eq!(tui.handle_key(press(Key::Tab)), Outcome::Redraw);
    assert_eq!(tui.active_tab(), 1);
    tui.handle_key(press(Key::Tab));
    assert_eq!(tui.active_tab(), 2);
    tui.handle_key(press(Key::Tab));
    assert_eq!(tui.active_tab(), 0);
}

#[test]
fn reverse_tab_goes_back_and_wraps() {
    let mut tui = session_with(&["A", "B", "C"]);
    assert_eq!(tui.handle_key(shifted(Key::Tab)), Outcome::Redraw);
    assert_eq!(tui.active_tab(), 2);
    tui.handle_key(shifted(Key::Tab));
    assert_eq!(tui.active_tab(), 1);
    tui.handle_key(shifted(Key::Tab));
    assert_eq!(tui.active_tab(), 0);
}

#[test]
fn tab_works_while_searching() {
    let mut tui = session_with(&["A", "B"]);
    tui.handle_key(press(Key::Char('/')));
    type_text(&mut tui, "x");
    assert_eq!(tui.handle_key(press(Key::Tab)), Outcome::Redraw);
    assert_eq!(tui.active_tab(), 1);
    assert!(tui.search_mode());
    assert_eq!(tui.search_query(), "x");
}

#[test]
fn tab_on_empty_catalog_is_handled_without_change() {
    let mut tui = ShortcutsTui::new();
    assert_eq!(tui.handle_key(press(Key::Tab)), Outcome::Redraw);
    assert_eq!(tui.active_tab(), 0);
    assert_eq!(tui.handle_key(shifted(Key::Tab)), Outcome::Redraw);
    assert_eq!(tui.active_tab(), 0);
    assert_eq!(tui.handle_key(press(Key::Char('1'))), Outcome::Redraw);
    assert_eq!(tui.active_tab(), 0);
}

#[test]
fn escape_after_search_clears_the_query() {
    let mut tui = session_with(&["A"]);
    tui.handle_key(press(Key::Char('/')));
    assert_eq!(tui.handle_key(press(Key::Esc)), Outcome::Redraw);
    assert!(!tui.search_mode());
    assert_eq!(tui.search_query(), "");

    tui.handle_key(press(Key::Char('/')));
    type_text(&mut tui, "some long query /q1");
    assert_eq!(tui.search_query(), "some long query /q1");
    assert_eq!(tui.handle_key(press(Key::Esc)), Outcome::Redraw);
    assert!(!tui.search_mode());
    assert_eq!(tui.search_query(), "");
}

#[test]
fn escape_while_browsing_closes() {
    let mut tui = session_with(&["A", "B"]);
    tui.handle_key(press(Key::Tab));
    let outcome = tui.handle_key(press(Key::Esc));
    assert_eq!(outcome, Outcome::Close);
    assert!(outcome.handled());
    assert!(outcome.closes());
    assert_eq!(tui.active_tab(), 1);
    assert!(!tui.search_mode());
}

#[test]
fn q_closes_while_browsing_and_is_typed_while_searching() {
    let mut tui = session_with(&["A"]);
    assert_eq!(tui.handle_key(press(Key::Char('q'))), Outcome::Close);
    assert!(!tui.search_mode());
    tui.handle_key(press(Key::Char('/')));
    assert_eq!(tui.handle_key(press(Key::Char('q'))), Outcome::Redraw);
    assert_eq!(tui.search_query(), "q");
    assert!(tui.search_mode());
}

#[test]
fn slash_enters_search_and_is_typed_while_searching() {
    let mut tui = session_with(&["A"]);
    assert_eq!(tui.handle_key(press(Key::Char('/'))), Outcome::Redraw);
    assert!(tui.search_mode());
    assert_eq!(tui.search_query(), "");
    assert_eq!(tui.handle_key(press(Key::Char('/'))), Outcome::Redraw);
    assert_eq!(tui.search_query(), "/");
}

#[test]
fn digit_five_with_three_categories_changes_nothing() {
    let mut tui = session_with(&["A", "B", "C"]);
    tui.handle_key(press(Key::Tab));
    assert_eq!(tui.active_tab(), 1);
    let outcome = tui.handle_key(press(Key::Char('5')));
    assert_eq!(outcome, Outcome::Redraw);
    assert_eq!(tui.active_tab(), 1);
    assert!(!tui.search_mode());
    assert_eq!(tui.search_query(), "");
}

#[test]
fn digits_jump_to_their_tab() {
    let mut tui = session_with(&["A", "B", "C"]);
    assert_eq!(tui.handle_key(press(Key::Char('3'))), Outcome::Redraw);
    assert_eq!(tui.active_tab(), 2);
    assert_eq!(tui.handle_key(press(Key::Char('1'))), Outcome::Redraw);
    assert_eq!(tui.active_tab(), 0);
    assert_eq!(tui.handle_key(press(Key::Char('2'))), Outcome::Redraw);
    assert_eq!(tui.active_tab(), 1);
    assert_eq!(tui.handle_key(press(Key::Char('4'))), Outcome::Redraw);
    assert_eq!(tui.active_tab(), 1);
}

#[test]
fn digit_nine_reaches_the_ninth_of_ten() {
    let mut tui = session_with(&["A", "B", "C", "D", "E", "F", "G", "H", "I", "J"]);
    tui.handle_key(press(Key::Char('9')));
    assert_eq!(tui.active_tab(), 8);
    tui.handle_key(press(Key::Tab));
    assert_eq!(tui.active_tab(), 9);
    tui.handle_key(press(Key::Tab));
    assert_eq!(tui.active_tab(), 0);
}

#[test]
fn digit_zero_is_unhandled_while_browsing() {
    let mut tui = ShortcutsTui::default();
    tui.load_default_config();
    tui.handle_key(press(Key::Tab));
    assert_eq!(tui.active_tab(), 1);
    let outcome = tui.update(HostEvent::Key(press(Key::Char('0'))));
    assert_eq!(outcome, Outcome::Unhandled);
    assert!(!outcome.handled());
    assert!(!outcome.closes());
    assert_eq!(tui.active_tab(), 1);
    assert!(!tui.search_mode());
    assert_eq!(tui.search_query(), "");
    let zero = Event::Key(KeyWithModifier::new(BareKey::Char('0')));
    assert_eq!(tui.update_from_host(&zero), Outcome::Unhandled);
    assert_eq!(tui.active_tab(), 1);
}

#[test]
fn digit_zero_is_typed_while_searching() {
    let mut tui = session_with(&["A", "B"]);
    tui.handle_key(press(Key::Char('/')));
    assert_eq!(tui.handle_key(press(Key::Char('0'))), Outcome::Redraw);
    assert_eq!(tui.search_query(), "0");
}

#[test]
fn digits_are_typed_while_searching() {
    let mut tui = session_with(&["A", "B"]);
    tui.handle_key(press(Key::Char('/')));
    assert_eq!(tui.handle_key(press(Key::Char('2'))), Outcome::Redraw);
    assert_eq!(tui.active_tab(), 0);
    assert_eq!(tui.search_query(), "2");
}

#[test]
fn backspace_removes_the_last_character() {
    let mut tui = session_with(&["A"]);
    tui.handle_key(press(Key::Char('/')));
    type_text(&mut tui, "né");
    assert_eq!(tui.handle_key(press(Key::Backspace)), Outcome::Redraw);
    assert_eq!(tui.search_query(), "n");
    assert_eq!(tui.handle_key(press(Key::Backspace)), Outcome::Redraw);
    assert_eq!(tui.search_query(), "");
    assert_eq!(tui.handle_key(press(Key::Backspace)), Outcome::Redraw);
    assert_eq!(tui.search_query(), "");
    assert!(tui.search_mode());
}

#[test]
fn unmatched_keys_are_unhandled() {
    let mut tui = session_with(&["A", "B"]);
    let outcome = tui.handle_key(press(Key::Backspace));
    assert_eq!(outcome, Outcome::Unhandled);
    assert!(!outcome.handled());
    assert!(!outcome.closes());
    assert_eq!(tui.handle_key(press(Key::Char('x'))), Outcome::Unhandled);
    assert_eq!(tui.handle_key(press(Key::Other)), Outcome::Unhandled);
    assert_eq!(tui.active_tab(), 0);
    assert!(!tui.search_mode());
    assert_eq!(tui.search_query(), "");
    tui.handle_key(press(Key::Char('/')));
    assert_eq!(tui.handle_key(press(Key::Other)), Outcome::Unhandled);
    assert!(tui.search_mode());
}

#[test]
fn update_passes_keys_on_and_ignores_the_rest() {
    let mut tui = session_with(&["A", "B"]);
    assert_eq!(tui.update(HostEvent::Other), Outcome::Unhandled);
    assert_eq!(tui.active_tab(), 0);
    assert_eq!(tui.update(HostEvent::Key(press(Key::Tab))), Outcome::Redraw);
    assert_eq!(tui.active_tab(), 1);
    assert_eq!(tui.update(HostEvent::Key(press(Key::Esc))), Outcome::Close);
}

#[test]
fn redraw_is_handled_and_does_not_close() {
    assert!(Outcome::Redraw.handled());
    assert!(!Outcome::Redraw.closes());
}

#[test]
fn host_keys_are_read_into_key_events() {
    let mut tui = session_with(&["A", "B", "C"]);
    assert_eq!(tui.handle_host_key(&KeyWithModifier::new(BareKey::Tab)), Outcome::Redraw);
    assert_eq!(tui.active_tab(), 1);
    let back = KeyWithModifier::new(BareKey::Tab).with_shift_modifier();
    assert_eq!(tui.handle_host_key(&back), Outcome::Redraw);
    assert_eq!(tui.active_tab(), 0);
    assert_eq!(tui.handle_host_key(&back), Outcome::Redraw);
    assert_eq!(tui.active_tab(), 2);
    let ctrl_tab = KeyWithModifier::new(BareKey::Tab).with_ctrl_modifier();
    assert_eq!(tui.handle_host_key(&ctrl_tab), Outcome::Redraw);
    assert_eq!(tui.active_tab(), 0);
    assert_eq!(tui.handle_host_key(&KeyWithModifier::new(BareKey::Enter)), Outcome::Unhandled);
    assert_eq!(tui.handle_host_key(&KeyWithModifier::new(BareKey::Backspace)), Outcome::Unhandled);
    assert_eq!(tui.handle_host_key(&KeyWithModifier::new(BareKey::Char('/'))), Outcome::Redraw);
    assert_eq!(tui.handle_host_key(&KeyWithModifier::new(BareKey::Char('Q'))), Outcome::Redraw);
    assert_eq!(tui.search_query(), "Q");
    assert_eq!(tui.handle_host_key(&KeyWithModifier::new(BareKey::Backspace)), Outcome::Redraw);
    assert_eq!(tui.search_query(), "");
    assert_eq!(tui.handle_host_key(&KeyWithModifier::new(BareKey::Esc)), Outcome::Redraw);
    assert_eq!(tui.handle_host_key(&KeyWithModifier::new(BareKey::Esc)), Outcome::Close);
}

#[test]
fn host_events_other_than_keys_are_unhandled() {
    let mut tui = session_with(&["A", "B"]);
    assert_eq!(tui.update_from_host(&Event::Visible(true)), Outcome::Unhandled);
    assert_eq!(tui.active_tab(), 0);
    let tab = Event::Key(KeyWithModifier::new(BareKey::Tab));
    assert_eq!(tui.update_from_host(&tab), Outcome::Redraw);
    assert_eq!(tui.active_tab(), 1);
    let quit = Event::Key(KeyWithModifier::new(BareKey::Char('q')));
    assert_eq!(tui.update_from_host(&quit), Outcome::Close);
}
