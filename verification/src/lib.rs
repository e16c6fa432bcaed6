//! Decision logic of a command-line audio downloader that drives two
//! external programs, an extractor (yt-dlp) and an encoder (FFmpeg).
//!
//! The library runs no program and touches no file. Its caller does, and
//! hands over what happened; the library says what that means and what to do
//! next:
//!
//! - `setup` resolves the two programs before any download starts;
//! - `download` builds the extractor's arguments for one item, reads what the
//!   extractor printed, and plans the renaming of the file;
//! - `filename` cleans the name of a downloaded file;
//! - `playlist` expands a playlist into the addresses of its items;
//! - `batch` schedules the downloads of a playlist and tallies them;
//! - `choices` turns the user's answers into the settings and the plan of a
//!   run.

pub mod batch;
pub mod choices;
pub mod download;
pub mod filename;
pub mod format;
pub mod platform;
pub mod playlist;
pub mod setup;
pub mod text;
