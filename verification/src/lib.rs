pub mod strutil;
pub mod date;
pub mod model;
pub mod decode;
pub mod slug;
pub mod render;
pub mod toml_doc;
