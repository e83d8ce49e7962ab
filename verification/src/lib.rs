//! Verified decision logic of an editor's search bars, agent tooling,
//! debugger panels and Linux windowing glue.
pub mod text;
pub mod paths;
pub mod variable_list;
pub mod tool_permissions;
pub mod search_options;
pub mod buffer_search;
pub mod project_search;
pub mod breakpoints;
pub mod console_completion;
pub mod x11;
pub mod wayland;
pub mod acp;
pub mod markdown_preview;
pub mod read_file;
pub mod search_history;
pub mod acp_sessions;
pub mod acp_launch;
pub mod debugger_panes;
pub mod markdown_sync;
pub mod x11_refresh;
pub mod x11_events;
pub mod x11_screen;
pub mod x11_window;
pub mod x11_window_setup;
