//! The native shell of a desktop application that shows a web page in
//! windows of the operating system: which windows exist, which global
//! shortcuts the settings bind, and which links may leave the application.
//!
//! The library decides and keeps the books; it touches neither windows nor
//! files. Its caller carries out what the library hands back and reports
//! how the host answered.

pub mod cmd;
pub mod conf;
pub mod link;
pub mod menu;
pub mod settings;
pub mod setup;
pub mod shortcut;
pub mod text;
pub mod window;
