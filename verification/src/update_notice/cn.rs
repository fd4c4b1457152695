//! CN update notices, which the news API returns as JSON: the publication time (China
//! Standard Time) and the notice's text.
use vstd::prelude::*;
use super::{
    UpdateNoticeInfo, UpdateNoticeType, UpdateNoticeTypeView, UpdateNoticeParseError, is_utc_of,
    utc_in_range, to_utc,
};
use crate::date::{CalendarDateTime, DateTimeView, spec_chrono_parse_datetime, chrono_parse_datetime};
use crate::game_version::{GameVersion, spec_parse_game_version};
use crate::patterns::{spec_regex_compiles, spec_regex_captures, regex_captures, regex_compiles};

verus! {

/// Finds a named patch's game version and patch name in the notice text.
pub const GAME_VERSION_PATTERN: &'static str = "Ver.(?<game_version>\\d{4}.\\d{2}.\\d{2}.\\d{4}.\\d{4})\u{ff08}(?<patch>\\d.\\d+)(\\+\\d.\\d+)?\u{7248}\u{672c}\u{ff09}";

/// The format of the publication time.
pub const DATETIME_FORMAT: &'static str = "%Y/%m/%d %H:%M:%S";

/// China Standard Time, in seconds east of UTC.
pub const UTC_OFFSET_SECS: i32 = 28800;

/// The patterns the notices are read with.
#[derive(Clone, Copy, Debug, PartialEq, Eq)]
pub struct Regexes {
    pub game_version_re: &'static str,
}

/// A pattern that does not compile.
#[derive(Clone, Copy, Debug, PartialEq, Eq, Structural)]
pub struct InvalidRegex;

impl Regexes {
    /// The patterns, once it is known that they compile.
    pub fn compile_all() -> (res: Result<Regexes, InvalidRegex>)
        ensures
            match res {
                Ok(r) => r.game_version_re@ == GAME_VERSION_PATTERN@ && spec_regex_compiles(
                    GAME_VERSION_PATTERN@,
                ),
                Err(_) => !spec_regex_compiles(GAME_VERSION_PATTERN@),
            },
    {
        if !regex_compiles(GAME_VERSION_PATTERN) {
            return Err(InvalidRegex);
        }
        Ok(Regexes { game_version_re: GAME_VERSION_PATTERN })
    }
}

/// The publication time, in China Standard Time.
pub open spec fn spec_local_publish_time(publish_date: Seq<char>) -> Result<DateTimeView, UpdateNoticeParseError> {
    match spec_chrono_parse_datetime(publish_date, DATETIME_FORMAT@) {
        None => Err(UpdateNoticeParseError::InvalidDateTime),
        Some(local) => Ok(local),
    }
}

/// A notice names a patch when the pattern finds its game version and patch name; otherwise
/// it is a hotfix.
pub open spec fn spec_notice_kind(content: Seq<char>, pattern: Seq<char>) -> Result<
    UpdateNoticeTypeView,
    UpdateNoticeParseError,
> {
    if !spec_regex_compiles(pattern) {
        Err(UpdateNoticeParseError::InvalidRegex)
    } else {
        match spec_regex_captures(pattern, content, seq!["patch"@, "game_version"@]) {
            None => Ok(UpdateNoticeTypeView::Hotfix),
            Some(groups) => if groups.len() == 2 && groups[0] is Some && groups[1] is Some {
                match spec_parse_game_version(groups[1]->0) {
                    Ok(g) => Ok(UpdateNoticeTypeView::NamedPatchCn { patch_name: groups[0]->0, game_version: g }),
                    Err(e) => Err(UpdateNoticeParseError::InvalidGameVersion(e)),
                }
            } else {
                Err(UpdateNoticeParseError::MissingCapture)
            },
        }
    }
}

/// Reads a CN update notice from the `PublishDate` and `Content` of the news API's reply.
/// On success the time is the publication time converted from China Standard Time to UTC.
pub fn parse_update_notice(publish_date: &str, content: &str, regexes: &Regexes) -> (res: Result<
    UpdateNoticeInfo,
    UpdateNoticeParseError,
>)
    ensures
        match res {
            Ok(info) => spec_local_publish_time(publish_date@) matches Ok(local) && is_utc_of(
                info.datetime@,
                local,
                UTC_OFFSET_SECS as int,
            ) && spec_notice_kind(content@, regexes.game_version_re@) == Ok::<
                UpdateNoticeTypeView,
                UpdateNoticeParseError,
            >(info.update_notice_type@),
            Err(e) => match spec_local_publish_time(publish_date@) {
                Err(x) => e == x,
                Ok(local) => (e == UpdateNoticeParseError::DateTimeOutOfRange && !utc_in_range(local, UTC_OFFSET_SECS as int))
                    || spec_notice_kind(content@, regexes.game_version_re@) == Err::<
                    UpdateNoticeTypeView,
                    UpdateNoticeParseError,
                >(e),
            },
        },
        spec_local_publish_time(publish_date@) matches Ok(local) && utc_in_range(local, UTC_OFFSET_SECS as int)
            && spec_notice_kind(content@, regexes.game_version_re@) is Ok ==> res is Ok,
{
    let local = match chrono_parse_datetime(publish_date, DATETIME_FORMAT) {
        Some(p) => CalendarDateTime::from_parts(p),
        None => return Err(UpdateNoticeParseError::InvalidDateTime),
    };
    let datetime = to_utc(&local, UTC_OFFSET_SECS)?;
    let names: [&str; 2] = ["patch", "game_version"];
    proof {
        assert(crate::patterns::name_views(names@) =~= seq!["patch"@, "game_version"@]);
    }
    let found = match regex_captures(regexes.game_version_re, content, names.as_slice()) {
        Some(found) => found,
        None => return Err(UpdateNoticeParseError::InvalidRegex),
    };
    let update_notice_type = match found {
        None => UpdateNoticeType::Hotfix,
        Some(groups) => {
            if groups.len() != 2 {
                return Err(UpdateNoticeParseError::MissingCapture);
            }
            let patch_name = match &groups[0] {
                Some(p) => p.clone(),
                None => return Err(UpdateNoticeParseError::MissingCapture),
            };
            let game_version = match &groups[1] {
                Some(g) => match GameVersion::from_str(g.as_str()) {
                    Ok(v) => v,
                    Err(e) => return Err(UpdateNoticeParseError::InvalidGameVersion(e)),
                },
                None => return Err(UpdateNoticeParseError::MissingCapture),
            };
            UpdateNoticeType::NamedPatchCn { patch_name, game_version }
        },
    };
    Ok(UpdateNoticeInfo { datetime, update_notice_type })
}

} // verus!
