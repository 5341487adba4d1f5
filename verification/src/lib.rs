pub mod ext_tools;
pub mod native;
pub mod recorder;
pub mod text;
pub mod types;
