pub mod list;
pub mod scrollbar;
pub mod selection;
pub mod table;
