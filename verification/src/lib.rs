//! Window-manager display-server logic for LeftWM: event translation, window
//! property decoding, pointer-mode state machine, window registry and cursor
//! animation, with the X11 / Wayland I/O kept at the edges.

pub mod models;
pub mod xatom;
pub mod props;
pub mod hints;
pub mod mode;
pub mod dock;
pub mod events;
pub mod states;
pub mod setters;
pub mod actions;
pub mod error;
pub mod screens;
pub mod windows;
pub mod notify;
pub mod cursor;
pub mod registry;
pub mod color;
pub mod refresh;
pub mod xlib;
pub mod wayland;
pub mod focus;
pub mod visibility;
