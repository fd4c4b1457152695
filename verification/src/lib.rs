//! Release history records of FINAL FANTASY XIV's regional clients: game versions, the data
//! files they are kept in, and the consistency checks run against outside sources.
pub mod text;
pub mod date;
pub mod game_version;
pub mod version;
pub mod release_date_format;
pub mod data_file;
pub mod basic_check;
pub mod thaliak;
pub mod urls;
pub mod patterns;
pub mod html;
pub mod update_notice;

pub use data_file::DataFile;
pub use date::{CalendarDateTime, Date, Time};
pub use game_version::{GameVersion, ParseGameVersionError};
pub use version::Version;
