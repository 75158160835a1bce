pub mod bitfocus;
pub mod dashboard;
pub mod gate;
pub mod json;
pub mod run;
pub mod safety;
pub mod text;
pub mod update;
pub mod version;
