//! Directory listing: turns raw file metadata into the rows of a listing
//! (name, type, human-readable size, modification stamp, permission string),
//! filters hidden entries and renders the final table text.

pub mod size;
pub mod permissions;
pub mod clock;
pub mod entry;
pub mod table;
pub mod listing;
pub mod options;
