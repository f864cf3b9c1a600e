use chat_composer::ChatComposer;
use chat_composer::InputResult;
use chat_composer::Key;
use chat_composer::KeyEvent;
use chat_composer::Rect;

fn plain(key: Key) -> KeyEvent {
    KeyEvent { key, ctrl: false, alt: false, shift: false }
}

fn type_str(composer: &mut ChatComposer, s: &str) {
    for ch in s.chars() {
        composer.handle_key_event(plain(Key::Char(ch)));
    }
}

#[test]
fn double_esc_clears_input() {
    let mut composer = ChatComposer::new(true);
    for ch in "hello".chars() {
        composer.handle_key_event(plain(Key::Char(ch)));
    }
    assert_eq!(composer.current_text(), "hello");
    composer.handle_key_event(plain(Key::Esc));
    // first esc should not clear
    assert_eq!(composer.current_text(), "hello");
    composer.handle_key_event(plain(Key::Esc));
    assert_eq!(composer.current_text(), "");
}

#[test]
fn esc_other_key_resets_arm() {
    let mut composer = ChatComposer::new(true);
    for ch in "bye".chars() {
        composer.handle_key_event(plain(Key::Char(ch)));
    }
    composer.handle_key_event(plain(Key::Esc));
    composer.handle_key_event(plain(Key::Char('x')));
    composer.handle_key_event(plain(Key::Esc));
    assert_eq!(composer.current_text(), "byex");
    composer.handle_key_event(plain(Key::Esc));
    assert_eq!(composer.current_text(), "");
}

#[test]
fn modified_esc_does_not_arm() {
    let mut composer = ChatComposer::new(true);
    type_str(&mut composer, "keep");
    composer.handle_key_event(KeyEvent { key: Key::Esc, ctrl: true, alt: false, shift: false });
    composer.handle_key_event(plain(Key::Esc));
    // the modified escape must not have armed the gesture
    assert_eq!(composer.current_text(), "keep");
}

#[test]
fn plain_enter_submits_and_clears() {
    let mut composer = ChatComposer::new(true);
    type_str(&mut composer, "a message");
    let (result, redraw) = composer.handle_key_event(plain(Key::Enter));
    assert!(redraw);
    match result {
        InputResult::Submitted(text) => assert_eq!(text, "a message"),
        InputResult::NoSubmission => panic!("expected a submission"),
    }
    assert_eq!(composer.current_text(), "");
}

#[test]
fn empty_enter_submits_nothing_and_records_nothing() {
    let mut composer = ChatComposer::new(true);
    let (result, redraw) = composer.handle_key_event(plain(Key::Enter));
    assert!(redraw);
    assert!(matches!(result, InputResult::NoSubmission));
    // no history was recorded: an Up key on the empty buffer finds nothing
    composer.handle_key_event(plain(Key::Up));
    assert_eq!(composer.current_text(), "");
    assert!(composer.take_history_fetch().is_none());
}

#[test]
fn newline_chord_inserts_newline() {
    let mut composer = ChatComposer::new(true);
    type_str(&mut composer, "one");
    composer.handle_key_event(KeyEvent { key: Key::Char('j'), ctrl: true, alt: false, shift: false });
    type_str(&mut composer, "two");
    assert_eq!(composer.current_text(), "one\ntwo");
    // Enter with a modifier inserts a newline as well
    composer.handle_key_event(KeyEvent { key: Key::Enter, ctrl: false, alt: false, shift: true });
    type_str(&mut composer, "three");
    assert_eq!(composer.current_text(), "one\ntwo\nthree");
}

#[test]
fn popup_follows_slash_prefix() {
    let mut composer = ChatComposer::new(true);
    assert!(!composer.is_command_popup_visible());
    composer.handle_key_event(plain(Key::Char('/')));
    assert!(composer.is_command_popup_visible());
    composer.handle_key_event(plain(Key::Backspace));
    assert!(!composer.is_command_popup_visible());
}

#[test]
fn popup_filters_candidates_by_token() {
    let mut composer = ChatComposer::new(true);
    type_str(&mut composer, "/cl");
    assert!(composer.is_command_popup_visible());
    let names = composer.popup_match_names().expect("popup must be present");
    assert_eq!(names, vec!["clear".to_string()]);
    type_str(&mut composer, "zz");
    let names = composer.popup_match_names().expect("popup must be present");
    assert!(names.is_empty());
    assert!(composer.popup_selected_index().is_none());
}

#[test]
fn popup_selection_moves_and_stops_at_ends() {
    let mut composer = ChatComposer::new(true);
    composer.handle_key_event(plain(Key::Char('/')));
    assert_eq!(composer.popup_selected_index(), Some(0));
    composer.handle_key_event(plain(Key::Down));
    assert_eq!(composer.popup_selected_index(), Some(1));
    composer.handle_key_event(plain(Key::Up));
    assert_eq!(composer.popup_selected_index(), Some(0));
    composer.handle_key_event(plain(Key::Up));
    assert_eq!(composer.popup_selected_index(), Some(0));
    // content is untouched by selection movement
    assert_eq!(composer.current_text(), "/");
}

#[test]
fn tab_completes_selected_command() {
    let mut composer = ChatComposer::new(true);
    type_str(&mut composer, "/cl");
    composer.handle_key_event(plain(Key::Tab));
    assert_eq!(composer.current_text(), "/clear ");
    assert!(composer.is_command_popup_visible());
    // a second Tab on the exact completion is a no-op
    composer.handle_key_event(plain(Key::Tab));
    assert_eq!(composer.current_text(), "/clear ");
}

#[test]
fn enter_commits_selected_command() {
    let mut composer = ChatComposer::new(true);
    type_str(&mut composer, "/he");
    let (result, redraw) = composer.handle_key_event(plain(Key::Enter));
    assert!(redraw);
    assert!(matches!(result, InputResult::NoSubmission));
    assert_eq!(composer.current_text(), "");
    assert!(!composer.is_command_popup_visible());
    assert_eq!(composer.take_dispatched_command(), Some("help".to_string()));
    assert_eq!(composer.take_dispatched_command(), None);
}

#[test]
fn enter_without_candidates_submits_text() {
    let mut composer = ChatComposer::new(true);
    type_str(&mut composer, "/nosuch");
    let (result, _) = composer.handle_key_event(plain(Key::Enter));
    match result {
        InputResult::Submitted(text) => assert_eq!(text, "/nosuch"),
        InputResult::NoSubmission => panic!("expected a submission"),
    }
    assert!(composer.take_dispatched_command().is_none());
}

#[test]
fn esc_under_popup_neither_arms_nor_clears() {
    let mut composer = ChatComposer::new(true);
    composer.handle_key_event(plain(Key::Char('/')));
    composer.handle_key_event(plain(Key::Esc));
    composer.handle_key_event(plain(Key::Esc));
    assert_eq!(composer.current_text(), "/");
    assert!(composer.is_command_popup_visible());
}

#[test]
fn local_history_recall_up_and_down() {
    let mut composer = ChatComposer::new(true);
    type_str(&mut composer, "first");
    composer.handle_key_event(plain(Key::Enter));
    type_str(&mut composer, "second");
    composer.handle_key_event(plain(Key::Enter));

    composer.handle_key_event(plain(Key::Up));
    assert_eq!(composer.current_text(), "second");
    composer.handle_key_event(plain(Key::Up));
    assert_eq!(composer.current_text(), "first");
    composer.handle_key_event(plain(Key::Down));
    assert_eq!(composer.current_text(), "second");
    composer.handle_key_event(plain(Key::Down));
    assert_eq!(composer.current_text(), "");
}

#[test]
fn up_on_nonempty_buffer_moves_cursor_only() {
    let mut composer = ChatComposer::new(true);
    type_str(&mut composer, "draft");
    composer.handle_key_event(plain(Key::Enter));
    type_str(&mut composer, "typing");
    // buffer is not empty, so Up must not recall history
    composer.handle_key_event(plain(Key::Up));
    assert_eq!(composer.current_text(), "typing");
}

#[test]
fn remote_history_fetch_and_response() {
    let mut composer = ChatComposer::new(true);
    composer.set_history_metadata(7, 3);
    composer.handle_key_event(plain(Key::Up));
    // nothing local: the navigator asks for the newest remote entry
    assert_eq!(composer.current_text(), "");
    let fetch = composer.take_history_fetch().expect("a fetch must be pending");
    assert_eq!(fetch.log_id, 7);
    assert_eq!(fetch.offset, 2);
    // a matching response fills the buffer
    let applied = composer.on_history_entry_response(7, 2, Some("older".to_string()));
    assert!(applied);
    assert_eq!(composer.current_text(), "older");
}

#[test]
fn stale_history_response_is_dropped() {
    let mut composer = ChatComposer::new(true);
    composer.set_history_metadata(7, 3);
    composer.handle_key_event(plain(Key::Up));
    composer.take_history_fetch();
    // wrong offset: ignored
    assert!(!composer.on_history_entry_response(7, 1, Some("stale".to_string())));
    assert_eq!(composer.current_text(), "");
    // wrong session: ignored
    assert!(!composer.on_history_entry_response(8, 2, Some("stale".to_string())));
    assert_eq!(composer.current_text(), "");
    // the matching response still applies afterwards
    assert!(composer.on_history_entry_response(7, 2, Some("good".to_string())));
    assert_eq!(composer.current_text(), "good");
    // and a second identical response is now stale too
    assert!(!composer.on_history_entry_response(7, 2, Some("good".to_string())));
}

#[test]
fn matching_response_without_entry_changes_nothing() {
    let mut composer = ChatComposer::new(true);
    composer.set_history_metadata(9, 1);
    composer.handle_key_event(plain(Key::Up));
    composer.take_history_fetch();
    let applied = composer.on_history_entry_response(9, 0, None);
    assert!(applied);
    assert_eq!(composer.current_text(), "");
}

#[test]
fn required_height_counts_lines_border_and_popup() {
    let area = Rect { x: 0, y: 0, width: 80, height: 24 };
    let mut composer = ChatComposer::new(true);
    // one buffer line plus the two border rows
    assert_eq!(composer.calculate_required_height(&area), 3);
    composer.handle_key_event(KeyEvent { key: Key::Char('j'), ctrl: true, alt: false, shift: false });
    assert_eq!(composer.calculate_required_height(&area), 4);
    // "/" matches all four commands: four rows plus the popup border
    type_str(&mut composer, "x");
    composer.handle_key_event(plain(Key::Esc));
    composer.handle_key_event(plain(Key::Esc));
    composer.handle_key_event(plain(Key::Char('/')));
    assert_eq!(composer.calculate_required_height(&area), 3 + 6);
}

#[test]
fn required_height_is_monotone_in_lines_and_popup() {
    let area = Rect { x: 0, y: 0, width: 80, height: 24 };
    let mut composer = ChatComposer::new(true);
    let mut last = composer.calculate_required_height(&area);
    for _ in 0..4 {
        composer.handle_key_event(KeyEvent {
            key: Key::Char('j'),
            ctrl: true,
            alt: false,
            shift: false,
        });
        let h = composer.calculate_required_height(&area);
        assert!(h >= last);
        last = h;
    }
    let without_popup = ChatComposer::new(true).calculate_required_height(&area);
    let mut with_popup = ChatComposer::new(true);
    with_popup.handle_key_event(plain(Key::Char('/')));
    assert!(with_popup.calculate_required_height(&area) >= without_popup);
}

#[test]
fn layout_splits_area_between_popup_and_buffer() {
    let area = Rect { x: 2, y: 1, width: 60, height: 20 };
    let mut composer = ChatComposer::new(true);
    let (popup_rect, text_rect) = composer.layout(area);
    assert!(popup_rect.is_none());
    assert_eq!(text_rect, area);

    composer.handle_key_event(plain(Key::Char('/')));
    let (popup_rect, text_rect) = composer.layout(area);
    let popup_rect = popup_rect.expect("popup region must be present");
    // four candidates plus a two-row border
    assert_eq!(popup_rect, Rect { x: 2, y: 1, width: 60, height: 6 });
    assert_eq!(text_rect, Rect { x: 2, y: 7, width: 60, height: 14 });
}

#[test]
fn set_input_focus_keeps_content() {
    let mut composer = ChatComposer::new(true);
    assert!(composer.has_input_focus());
    type_str(&mut composer, "text");
    composer.set_input_focus(false);
    assert!(!composer.has_input_focus());
    assert_eq!(composer.current_text(), "text");
}

#[test]
fn typing_hello_matches_plain_round_trip() {
    let mut composer = ChatComposer::new(false);
    type_str(&mut composer, "hello");
    assert_eq!(composer.current_text(), "hello");
}

#[test]
fn tab_then_enter_commits_completed_command() {
    let mut composer = ChatComposer::new(true);
    type_str(&mut composer, "/qu");
    composer.handle_key_event(plain(Key::Tab));
    assert_eq!(composer.current_text(), "/quit ");
    let (result, _) = composer.handle_key_event(plain(Key::Enter));
    assert!(matches!(result, InputResult::NoSubmission));
    assert_eq!(composer.take_dispatched_command(), Some("quit".to_string()));
    assert_eq!(composer.current_text(), "");
    assert!(!composer.is_command_popup_visible());
}

#[test]
fn tab_without_candidates_changes_nothing() {
    let mut composer = ChatComposer::new(true);
    type_str(&mut composer, "/zz");
    assert!(composer.is_command_popup_visible());
    composer.handle_key_event(plain(Key::Tab));
    assert_eq!(composer.current_text(), "/zz");
    composer.handle_key_event(plain(Key::Up));
    composer.handle_key_event(plain(Key::Down));
    assert!(composer.popup_selected_index().is_none());
    assert_eq!(composer.current_text(), "/zz");
}

#[test]
fn deleting_slash_restores_escape_gesture() {
    let mut composer = ChatComposer::new(true);
    composer.handle_key_event(plain(Key::Char('/')));
    assert!(composer.is_command_popup_visible());
    composer.handle_key_event(plain(Key::Backspace));
    assert!(!composer.is_command_popup_visible());
    type_str(&mut composer, "hi");
    composer.handle_key_event(plain(Key::Esc));
    composer.handle_key_event(plain(Key::Esc));
    assert_eq!(composer.current_text(), "");
}

#[test]
fn arrow_keys_leave_content_alone() {
    let mut composer = ChatComposer::new(true);
    type_str(&mut composer, "stay");
    composer.handle_key_event(plain(Key::Left));
    composer.handle_key_event(plain(Key::Right));
    composer.handle_key_event(plain(Key::Home));
    composer.handle_key_event(plain(Key::End));
    assert_eq!(composer.current_text(), "stay");
}
