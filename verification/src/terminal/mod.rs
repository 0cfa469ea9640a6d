//! The variants of the table and the editor used by the terminal front end.
pub mod editor;
pub mod table;
