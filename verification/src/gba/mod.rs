//! Experimental GBA support
pub mod registers;
pub mod shifter;
pub mod control;
pub mod io;
pub mod laws;
pub mod machine;
