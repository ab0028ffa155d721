pub mod cursor;
pub mod editor;
pub mod output;
pub mod render;
pub mod rows;
