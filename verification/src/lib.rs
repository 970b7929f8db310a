//! Pure, verified state and layout logic for the EDP terminal workspace.

pub mod animation;
pub mod capacity;
pub mod backups;
pub mod cells;
pub mod column_fit;
pub mod command;
pub mod disk_bar;
pub mod disk_layout;
pub mod device_view;
pub mod dispatch;
pub mod event_loop;
pub mod frame_plan;
pub mod inspect;
pub mod key_routing;
pub mod keymap;
pub mod list_view;
pub mod navigate;
pub mod navigation;
pub mod pane;
pub mod provision;
pub mod provision_edit;
pub mod provision_fields;
pub mod provision_view;
pub mod refresh;
pub mod resume;
pub mod sector;
pub mod sector_cache;
pub mod sector_view;
pub mod stage_panels;
pub mod state;
pub mod status_line;
pub mod table_layout;
pub mod task;
pub mod text;
