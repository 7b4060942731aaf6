//! Core of a file viewer: acquiring one file from a picker, tracking the
//! state of that acquisition, and classifying the acquired bytes for display.

pub mod content_view;
pub mod controller;
pub mod file_loading;
pub mod text;
pub mod xml_parsing;
