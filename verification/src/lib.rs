//! State, rules and text of a terminal client for a notes service.

pub mod app;
pub mod app_laws;
pub mod arrivals;
pub mod browsing;
pub mod browsing_laws;
pub mod change_laws;
pub mod client_laws;
pub mod config;
pub mod config_laws;
pub mod demo;
pub mod document;
pub mod draft;
pub mod draft_laws;
pub mod edit;
pub mod editing;
pub mod editor;
pub mod editor_laws;
pub mod file_laws;
pub mod folder_laws;
pub mod folders;
pub mod jobs;
pub mod keyboard;
pub mod keyboard_laws;
pub mod keys;
pub mod model;
pub mod navigation;
pub mod notes;
pub mod pane_laws;
pub mod popups;
pub mod preview;
pub mod preview_laws;
pub mod refresh_laws;
pub mod refreshing;
pub mod returning;
pub mod returning_laws;
pub mod rich_text_laws;
pub mod rows;
pub mod screen;
pub mod screen_laws;
pub mod session;
pub mod settings;
pub mod settings_laws;
pub mod step_laws;
pub mod steps;
pub mod support_laws;
pub mod text;
pub mod text_laws;
pub mod tree_laws;
pub mod typing_laws;
pub mod workflow;
pub mod workflow_laws;
