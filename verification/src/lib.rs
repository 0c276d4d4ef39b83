//! The verified core of MangoGeneration: the decisions, texts and plans of the
//! desktop tool that generates wallpapers, sorts files and converts images.
//! The process launches, file system work, dynamic libraries and the window
//! live in `app/`; everything they decide on is computed here.

pub mod text;
pub mod lua;
pub mod json;
pub mod brain;
pub mod resources;
pub mod gui;
pub mod copy;
pub mod wallpaper;
