//! Places a custom song file into a game's song directory: locating the
//! directory, classifying the source, and deciding between a byte copy and a
//! re-encode.
pub mod text;
pub mod song;
pub mod locate;
pub mod source;
pub mod place;
pub mod run;
