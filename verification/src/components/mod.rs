pub mod container;
pub mod menu;
pub mod status;
pub mod database;
pub mod navigation;
pub mod explorer;
pub mod file;
pub mod rows;
pub mod editor;
pub mod home;
pub mod template;
