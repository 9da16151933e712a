//! Core of a terminal typing-speed trainer: the session engine that scores
//! keystrokes against a target text, the settings store, the lifetime
//! statistics, and the word-list provider.

pub mod clock;
pub mod display;
pub mod input;
pub mod languages;
pub mod metrics;
pub mod model;
pub mod settings;
pub mod state;
pub mod stats;
pub mod words;

pub use display::CharStatus;
pub use input::{Action, Key};
pub use languages::{Language, LanguageManager};
pub use model::AppMode;
pub use settings::{Settings, TestMode};
pub use state::App;
pub use stats::{SessionResult, UserStats};
