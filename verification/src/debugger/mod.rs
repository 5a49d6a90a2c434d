//! The debugger's command language
pub mod dbglanguage;
pub mod language;
pub mod session;
