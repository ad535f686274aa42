//! The core of a text editor for the terminal.
//!
//! A [`line::Line`] holds one row of text as grapheme clusters with their display
//! widths; a [`buffer::Buffer`] holds the rows of a document; a [`view::View`] holds
//! the cursor and the window on the document, and keeps the cursor inside the
//! window. The [`editor::Editor`] decides what a command does to these and to the
//! bars around them. Reading keys, painting and file access are left to the
//! caller, who hands in what was read and is told what to write and to paint.
//!
//! Text is segmented and measured by code outside this library, which [`boundary`]
//! calls; everything else is proved against the contracts stated there.

pub mod boundary;
pub mod buffer;
pub mod command;
pub mod commandbar;
pub mod documentstatus;
pub mod editor;
pub mod file_info;
pub mod line;
pub mod messagebar;
pub mod position;
pub mod size;
pub mod statusbar;
pub mod text;
pub mod uicomponent;
pub mod view;
