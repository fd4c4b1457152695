//! Release records of game versions.
use vstd::prelude::*;
use crate::date::Date;
use crate::game_version::GameVersion;

verus! {

/// One release: the game version, the name it was announced under, the day it was released,
/// and the links to its patch notes and its update notice, if there are any. Links are held as
/// the text of the URL.
#[derive(Clone, Debug, PartialEq)]
pub struct Version {
    pub game_version: GameVersion,
    pub version_name: String,
    pub release_date: Date,
    pub patch_note_url: Option<String>,
    pub update_notice_url: Option<String>,
}

} // verus!
