pub mod helpers;
pub mod navigation;
