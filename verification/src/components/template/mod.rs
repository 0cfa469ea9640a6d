pub mod editor;
pub mod template_explorer;
pub mod template_layout;
pub mod container;
