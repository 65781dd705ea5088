//! Verified core of a character-sheet site for a vampire chronicle: routing
//! decisions, authentication steps, cookie headers, form validation and the
//! shaping of character and experience data.

pub mod roles;
pub mod text;
pub mod errors;
pub mod cookies;
pub mod assets;
pub mod routing;
pub mod auth;
pub mod dates;
pub mod urls;
pub mod torpor;
pub mod forms;
pub mod sheets;
pub mod settings;
