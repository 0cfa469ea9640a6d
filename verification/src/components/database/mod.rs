pub mod command;
pub mod textarea;
pub mod database_explorer;
pub mod preview;
pub mod selection;
pub mod container;
