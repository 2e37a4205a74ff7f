//! State and update model of a terminal todo list.
//!
//! The crate holds the list, the application state around it, the closed
//! set of messages a user interface can send, and the transition function
//! that maps a state and a message to the next state. Every function is
//! verified against a mathematical model of the state.

pub mod item;
pub mod keys;
pub mod laws;
pub mod model;
pub mod screen;
mod text;
pub mod transition;

pub use item::{ItemView, TodoItem};
pub use model::{InteractionMode, Message, MessageView, Model, ModelView, RunningState};
pub use transition::update;
pub use keys::{advance, handle_event, handle_key, Event, KeyCode, KeyEvent, KeyEventKind};
pub use screen::{view, Area, Dialog, DialogView, Screen, ScreenView};
