use edp_tui::keymap::{is_actionable_key, KeyCode, KeyInput, KeyMapper, TuiAction};
use edp_tui::state::InputMode;

fn key(code: KeyCode) -> KeyInput {
    KeyInput { code, ctrl: false, release: false }
}

#[test]
fn g_prefix_combines_within_the_timeout() {
    let mut m = KeyMapper::new();
    assert_eq!(m.map_at(InputMode::Normal, key(KeyCode::Char('g')), 0), None);
    assert_eq!(m.map_at(InputMode::Normal, key(KeyCode::Char('g')), 500_000_000), Some(TuiAction::Top));
    assert_eq!(m.map_at(InputMode::Normal, key(KeyCode::Char('g')), 1_000_000_000), None);
    assert_eq!(m.map_at(InputMode::Normal, key(KeyCode::Char('i')), 1_100_000_000), Some(TuiAction::WorkspaceInspect));
}

#[test]
fn stale_prefix_is_forgotten() {
    let mut m = KeyMapper::new();
    assert_eq!(m.map_at(InputMode::Normal, key(KeyCode::Char('g')), 0), None);
    assert_eq!(m.map_at(InputMode::Normal, key(KeyCode::Char('j')), 2_000_000_000), Some(TuiAction::MoveDown));
}

#[test]
fn ctrl_w_moves_between_panels_and_releases_are_ignored() {
    let mut m = KeyMapper::new();
    let ctrl_w = KeyInput { code: KeyCode::Char('w'), ctrl: true, release: false };
    assert_eq!(m.map_at(InputMode::Normal, ctrl_w, 10), None);
    let release = KeyInput { code: KeyCode::Char('l'), ctrl: false, release: true };
    assert!(!is_actionable_key(&release));
    assert_eq!(m.map_at(InputMode::Normal, release, 20), None);
    assert_eq!(m.map_at(InputMode::Normal, key(KeyCode::Char('l')), 30), Some(TuiAction::PanelRight));
    let ctrl_c = KeyInput { code: KeyCode::Char('c'), ctrl: true, release: false };
    assert_eq!(m.map_at(InputMode::Normal, ctrl_c, 40), Some(TuiAction::Quit));
}

#[test]
fn text_modes_type_characters() {
    let mut m = KeyMapper::new();
    assert_eq!(m.map_at(InputMode::Insert, key(KeyCode::Char('q')), 0), Some(TuiAction::Text('q')));
    assert_eq!(m.map_at(InputMode::Search, key(KeyCode::Enter), 0), Some(TuiAction::Submit));
    assert_eq!(m.map_at(InputMode::Confirm, key(KeyCode::Char('y')), 0), Some(TuiAction::Confirm));
    assert_eq!(m.map_at(InputMode::Confirm, key(KeyCode::Char('n')), 0), Some(TuiAction::Cancel));
    assert_eq!(m.map_at(InputMode::Help, key(KeyCode::Char('q')), 0), Some(TuiAction::Back));
    assert_eq!(m.map_at(InputMode::Help, key(KeyCode::Char('j')), 0), None);
    let ctrl_a = KeyInput { code: KeyCode::Char('a'), ctrl: true, release: false };
    assert_eq!(m.map_at(InputMode::Command, ctrl_a, 0), None);
}
