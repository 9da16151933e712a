//! The word-list provider: named lists of words and texts sampled from them.

pub mod manager;
pub mod models;

pub use manager::LanguageManager;
pub use models::Language;
