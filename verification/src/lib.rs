//! Verified core logic of a local kanban board and its agent tooling.
pub mod text;
pub mod targets;
pub mod hooks;
pub mod card;
pub mod queue;
pub mod graph;
pub mod plan;
pub mod render;
pub mod listing;
pub mod depgraph;
pub mod board_app;
pub mod board_nav;
pub mod board_jump;
pub mod board_keys;
pub mod board_dialogs;
pub mod board_commit;
pub mod board_labels;
pub mod board_state;
pub mod workflow;
pub mod board_laws;
pub mod read_text;
pub mod ranking;
pub mod memory_text;
pub mod board_view;
pub mod board_dialog_view;
pub mod board_edits;
pub mod card_list;
pub mod watch_scan;
pub mod backup;
pub mod board_answers;
