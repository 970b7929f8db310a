use edp_tui::inspect::{AdvancedInspectSource, InspectWorkspace};
use edp_tui::state::AppState;

fn browsing() -> AppState {
    let mut state = AppState::new();
    assert!(state.begin_advanced_inspect(AdvancedInspectSource::Disk(1)));
    state.advanced_inspect_finish(Ok(InspectWorkspace { total_sectors: 100, items: vec![] }));
    state
}

#[test]
fn tree_moves_stop_at_the_first_and_last_rows() {
    let mut state = browsing();
    state.advanced_inspect_move_tree(3, 5);
    assert_eq!(state.advanced_inspect().unwrap().tree_selected, 3);
    state.advanced_inspect_move_tree(9, 5);
    assert_eq!(state.advanced_inspect().unwrap().tree_selected, 4);
    state.advanced_inspect_move_tree(-2, 5);
    assert_eq!(state.advanced_inspect().unwrap().tree_selected, 2);
    state.advanced_inspect_move_tree(-7, 5);
    assert_eq!(state.advanced_inspect().unwrap().tree_selected, 0);
    state.advanced_inspect_move_tree(1, 0);
    assert_eq!(state.advanced_inspect().unwrap().tree_selected, 0);
}

#[test]
fn tree_top_and_bottom_select_the_ends() {
    let mut state = browsing();
    state.advanced_inspect_tree_bottom(7);
    assert_eq!(state.advanced_inspect().unwrap().tree_selected, 6);
    state.advanced_inspect_tree_top();
    assert_eq!(state.advanced_inspect().unwrap().tree_selected, 0);
    state.advanced_inspect_tree_bottom(0);
    assert_eq!(state.advanced_inspect().unwrap().tree_selected, 0);
}

#[test]
fn tree_moves_wait_for_the_browser() {
    let mut state = AppState::new();
    assert!(state.begin_advanced_inspect(AdvancedInspectSource::Disk(1)));
    state.advanced_inspect_move_tree(2, 5);
    assert_eq!(state.advanced_inspect().unwrap().tree_selected, 0);
}
