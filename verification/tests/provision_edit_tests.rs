use edp_tui::capacity::ProvisionInputPolicy;
use edp_tui::state::AppState;

#[test]
fn typing_inserts_at_the_cursor() {
    let mut state = AppState::new();
    state.provision_mut().field_cursor = 1;
    let text = state.provision_push_char('9', Some("12"), ProvisionInputPolicy::UnsignedInteger);
    assert_eq!(text.as_deref(), Some("192"));
    assert_eq!(state.provision_mut().field_cursor, 2);
    assert_eq!(state.provision_mut().message, None);
}

#[test]
fn typing_a_refused_character_shows_the_policy_message() {
    let mut state = AppState::new();
    state.provision_mut().field_cursor = 2;
    let text = state.provision_push_char('x', Some("12"), ProvisionInputPolicy::UnsignedInteger);
    assert_eq!(text, None);
    assert_eq!(state.provision_mut().field_cursor, 2);
    assert_eq!(
        state.provision_mut().message.as_deref(),
        Some(ProvisionInputPolicy::UnsignedInteger.rejection_message())
    );
}

#[test]
fn typing_control_characters_or_past_the_limit_changes_nothing() {
    let mut state = AppState::new();
    assert_eq!(state.provision_push_char('\u{7}', Some("ab"), ProvisionInputPolicy::Text), None);
    let long = "a".repeat(128);
    assert_eq!(state.provision_push_char('b', Some(&long), ProvisionInputPolicy::Text), None);
    assert_eq!(state.provision_push_char('b', None, ProvisionInputPolicy::Text), None);
    assert_eq!(state.provision_mut().message, None);
}

#[test]
fn backspace_removes_the_character_before_the_cursor() {
    let mut state = AppState::new();
    state.provision_mut().field_cursor = 9;
    assert_eq!(state.provision_backspace(Some("abc")).as_deref(), Some("ab"));
    assert_eq!(state.provision_mut().field_cursor, 2);
    state.provision_mut().field_cursor = 0;
    assert_eq!(state.provision_backspace(Some("abc")), None);
}

#[test]
fn backspace_after_typing_gives_the_text_back() {
    let mut state = AppState::new();
    state.provision_mut().field_cursor = 1;
    let typed = state.provision_push_char('z', Some("ab"), ProvisionInputPolicy::Text).unwrap();
    assert_eq!(typed, "azb");
    assert_eq!(state.provision_backspace(Some(&typed)).as_deref(), Some("ab"));
    assert_eq!(state.provision_mut().field_cursor, 1);
}

#[test]
fn delete_removes_the_character_under_the_cursor() {
    let mut state = AppState::new();
    state.provision_mut().field_cursor = 1;
    assert_eq!(state.provision_delete_char(Some("abc")).as_deref(), Some("ac"));
    assert_eq!(state.provision_mut().field_cursor, 1);
    state.provision_mut().field_cursor = 3;
    assert_eq!(state.provision_delete_char(Some("abc")), None);
}

#[test]
fn moving_between_fields_stops_at_the_ends_and_syncs_the_cursor() {
    let mut state = AppState::new();
    state.provision_move_field(1, &[3, 5, 0]);
    assert_eq!(state.provision_mut().field_selected, 1);
    assert_eq!(state.provision_mut().field_cursor, 5);
    state.provision_move_field(7, &[3, 5, 0]);
    assert_eq!(state.provision_mut().field_selected, 2);
    assert_eq!(state.provision_mut().field_cursor, 0);
    state.provision_move_field(-9, &[3, 5, 0]);
    assert_eq!(state.provision_mut().field_selected, 0);
    assert_eq!(state.provision_mut().field_cursor, 3);
    state.provision_move_field(1, &[]);
    assert_eq!(state.provision_mut().field_selected, 0);
}

#[test]
fn the_cursor_moves_within_the_text() {
    let mut state = AppState::new();
    state.provision_mut().field_cursor = 1;
    state.provision_move_cursor(5, Some("abc"));
    assert_eq!(state.provision_mut().field_cursor, 3);
    state.provision_move_cursor(-2, Some("abc"));
    assert_eq!(state.provision_mut().field_cursor, 1);
    state.provision_move_cursor(-4, Some("abc"));
    assert_eq!(state.provision_mut().field_cursor, 0);
    state.provision_cursor_end(Some("abcd"));
    assert_eq!(state.provision_mut().field_cursor, 4);
    state.provision_cursor_home(Some("abcd"));
    assert_eq!(state.provision_mut().field_cursor, 0);
}
