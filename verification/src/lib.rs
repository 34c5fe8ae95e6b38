//! Verified core of a status bar: what each widget of the bar shows, how
//! user input is routed to window-manager actions, and how the bar reacts to
//! runtime updates. The windowing toolkit itself is driven by the program
//! around this library.
pub mod text;
pub mod workspaces;
pub mod layout_selector;
pub mod status_strip;
pub mod app;
pub mod launch;
pub mod transport_clock;
