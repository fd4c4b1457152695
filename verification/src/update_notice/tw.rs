//! TW update notices: a news page that doubles as the maintenance notice. The release time is
//! the end of the maintenance the notice announces (Taiwan time), and a bold patch name marks
//! a named patch.
use vstd::prelude::*;
use super::{
    UpdateNoticeInfo, UpdateNoticeType, UpdateNoticeTypeView, UpdateNoticeParseError, is_utc_of,
    utc_in_range, to_utc, spec_single_element, spec_single_text_datetime, single_element,
    single_text_datetime,
};
use crate::date::{
    CalendarDateTime, Date, Time, DateTimeView, valid_ymd, spec_chrono_parse_time, chrono_parse_time,
};
use crate::html::{ElementView, spec_select, select_elements};
use crate::patterns::{spec_regex_compiles, spec_regex_captures, regex_captures, regex_compiles};
use crate::text::{spec_parse_u32, parse_u32, opt_view};
use crate::urls::spec_url_parse;

verus! {

/// Finds the maintenance window (`M/D hh:mm ~ hh:mm`) in the notice.
pub const MAINTENANCE_TIME_PATTERN: &'static str = "(?<month>\\d{1,2})/(?<day>\\d{1,2}) (?<start_time>\\d{1,2}:\\d{2}) [~\u{ff5e}] (?<end_time>\\d{1,2}:\\d{2})";

/// Finds the patch name in a bold text.
pub const PATCH_NAME_PATTERN: &'static str = "(?<patch>\\d.\\d+)( )?\u{7248}\u{672c}";

/// The element that holds the publication time.
pub const DATE_SELECTOR: &'static str = ".content > .news_title > .news_info1 > .news_info11-2 > .Date";

/// The notice box that announces the maintenance.
pub const NOTICE_SELECTOR: &'static str = ".content > .article .notice";

/// Bold texts of the article; the last one names the patch.
pub const BOLD_SELECTOR: &'static str = ".content > .article b";

/// The patch note link.
pub const LINK_SELECTOR: &'static str = ".content > .article a";

/// The attribute of a link that holds its target.
pub const HREF: &'static str = "href";

/// The format of the publication time.
pub const DATETIME_FORMAT: &'static str = "%Y-%m-%d %H:%M";

/// The format of the maintenance end time.
pub const TIME_FORMAT: &'static str = "%H:%M";

/// Taiwan time, in seconds east of UTC.
pub const UTC_OFFSET_SECS: i32 = 28800;

/// The patterns the notices are read with.
#[derive(Clone, Copy, Debug, PartialEq, Eq)]
pub struct Regexes {
    pub maintenance_time_re: &'static str,
    pub patch_name_re: &'static str,
}

/// A pattern that does not compile.
#[derive(Clone, Copy, Debug, PartialEq, Eq, Structural)]
pub struct InvalidRegex;

impl Regexes {
    /// The patterns, once it is known that they compile.
    pub fn compile_all() -> (res: Result<Regexes, InvalidRegex>)
        ensures
            match res {
                Ok(r) => r.maintenance_time_re@ == MAINTENANCE_TIME_PATTERN@ && r.patch_name_re@
                    == PATCH_NAME_PATTERN@ && spec_regex_compiles(MAINTENANCE_TIME_PATTERN@)
                    && spec_regex_compiles(PATCH_NAME_PATTERN@),
                Err(_) => !(spec_regex_compiles(MAINTENANCE_TIME_PATTERN@) && spec_regex_compiles(
                    PATCH_NAME_PATTERN@,
                )),
            },
    {
        if !regex_compiles(MAINTENANCE_TIME_PATTERN) {
            return Err(InvalidRegex);
        }
        if !regex_compiles(PATCH_NAME_PATTERN) {
            return Err(InvalidRegex);
        }
        Ok(Regexes { maintenance_time_re: MAINTENANCE_TIME_PATTERN, patch_name_re: PATCH_NAME_PATTERN })
    }
}

/// The publication time: the one text of the one date element.
pub open spec fn spec_publish_time(document: Seq<char>) -> Result<DateTimeView, UpdateNoticeParseError> {
    match spec_single_element(document, DATE_SELECTOR@, HREF@) {
        Err(e) => Err(e),
        Ok(e) => spec_single_text_datetime(e, DATETIME_FORMAT@),
    }
}

/// The first text of the first notice box, if there is one.
pub open spec fn first_notice_text(notices: Seq<ElementView>) -> Option<Seq<char>> {
    if notices.len() > 0 && notices[0].texts.len() > 0 {
        Some(notices[0].texts[0])
    } else {
        None
    }
}

/// The year of a maintenance given as month and day: the publication's year, or the next one
/// when the month is earlier than the publication's.
pub open spec fn maintenance_year(month: int, published: DateTimeView) -> int {
    if month >= published.0.1 {
        published.0.0
    } else {
        published.0.0 + 1
    }
}

/// The local end of the maintenance, from the captured month, day and end time.
pub open spec fn spec_maintenance_end(groups: Seq<Option<Seq<char>>>, published: DateTimeView) -> Result<
    DateTimeView,
    UpdateNoticeParseError,
> {
    if !(groups.len() == 3 && groups[0] is Some && groups[1] is Some) {
        Err(UpdateNoticeParseError::MissingCapture)
    } else {
        match (spec_parse_u32(groups[0]->0), spec_parse_u32(groups[1]->0)) {
            (Some(day), Some(month)) => {
                let year = maintenance_year(month as int, published);
                if !valid_ymd(year, month as int, day as int) {
                    Err(UpdateNoticeParseError::InvalidDate)
                } else if groups[2] is None {
                    Err(UpdateNoticeParseError::MissingCapture)
                } else {
                    match spec_chrono_parse_time(groups[2]->0, TIME_FORMAT@) {
                        None => Err(UpdateNoticeParseError::InvalidTime),
                        Some(t) => Ok(((year, month as int, day as int), t)),
                    }
                }
            },
            _ => Err(UpdateNoticeParseError::InvalidNumber),
        }
    }
}

/// The local release time: the end of the maintenance announced in the notice box.
pub open spec fn spec_local_release_time(document: Seq<char>, pattern: Seq<char>) -> Result<
    DateTimeView,
    UpdateNoticeParseError,
> {
    match spec_publish_time(document) {
        Err(e) => Err(e),
        Ok(published) => match spec_select(document, NOTICE_SELECTOR@, HREF@) {
            None => Err(UpdateNoticeParseError::InvalidSelector),
            Some(notices) => match first_notice_text(notices) {
                None => Err(UpdateNoticeParseError::MissingMaintenanceEndTime),
                Some(text) => if !spec_regex_compiles(pattern) {
                    Err(UpdateNoticeParseError::InvalidRegex)
                } else {
                    match spec_regex_captures(pattern, text, seq!["day"@, "month"@, "end_time"@]) {
                        None => Err(UpdateNoticeParseError::MissingMaintenanceEndTime),
                        Some(groups) => spec_maintenance_end(groups, published),
                    }
                },
            },
        },
    }
}

/// The patch name in the last bold text, if it names one.
pub open spec fn spec_patch_name(document: Seq<char>, pattern: Seq<char>) -> Result<
    Option<Seq<char>>,
    UpdateNoticeParseError,
> {
    match spec_select(document, BOLD_SELECTOR@, HREF@) {
        None => Err(UpdateNoticeParseError::InvalidSelector),
        Some(bolds) => if bolds.len() == 0 || bolds.last().texts.len() == 0 {
            Ok(None)
        } else if !spec_regex_compiles(pattern) {
            Err(UpdateNoticeParseError::InvalidRegex)
        } else {
            match spec_regex_captures(pattern, bolds.last().texts[0], seq!["patch"@]) {
                None => Ok(None),
                Some(groups) => if groups.len() == 1 && groups[0] is Some {
                    Ok(groups[0])
                } else {
                    Err(UpdateNoticeParseError::MissingCapture)
                },
            }
        },
    }
}

/// The patch note link, if the article has one; more than one is an error.
pub open spec fn spec_patch_note_link(document: Seq<char>) -> Result<
    Option<Seq<char>>,
    UpdateNoticeParseError,
> {
    match spec_select(document, LINK_SELECTOR@, HREF@) {
        None => Err(UpdateNoticeParseError::InvalidSelector),
        Some(links) => {
            let url = if links.len() > 0 && links[0].attribute is Some {
                match spec_url_parse(links[0].attribute->0) {
                    None => Err(UpdateNoticeParseError::InvalidUrl),
                    Some(u) => Ok(Some(u)),
                }
            } else {
                Ok(None)
            };
            if url is Ok && links.len() > 1 {
                Err(UpdateNoticeParseError::UnexpectedElement)
            } else {
                url
            }
        },
    }
}

/// A notice whose last bold text names a patch announces that patch (with its patch note
/// link, if any); otherwise it is a hotfix.
pub open spec fn spec_notice_kind(document: Seq<char>, regexes: Regexes) -> Result<
    UpdateNoticeTypeView,
    UpdateNoticeParseError,
> {
    match spec_patch_name(document, regexes.patch_name_re@) {
        Err(e) => Err(e),
        Ok(name) => match spec_patch_note_link(document) {
            Err(e) => Err(e),
            Ok(url) => match name {
                Some(n) => Ok(UpdateNoticeTypeView::NamedPatchTw { patch_note_url: url, patch_name: n }),
                None => Ok(UpdateNoticeTypeView::Hotfix),
            },
        },
    }
}

/// The maintenance end read from the captured day, month and end time falls on that month and
/// day, at that time, within the twelve months that start with the publication's month: in the
/// publication's year when its month is the publication's month or a later one, in the next
/// year when it is an earlier one.
pub proof fn lemma_maintenance_end(groups: Seq<Option<Seq<char>>>, published: DateTimeView)
    requires
        spec_maintenance_end(groups, published) is Ok,
    ensures
        ({
            let end = spec_maintenance_end(groups, published)->Ok_0;
            &&& groups.len() == 3 && groups[0] is Some && groups[1] is Some && groups[2] is Some
            &&& spec_parse_u32(groups[0]->0) matches Some(day) && end.0.2 == day
            &&& spec_parse_u32(groups[1]->0) matches Some(month) && end.0.1 == month
            &&& spec_chrono_parse_time(groups[2]->0, TIME_FORMAT@) == Some(end.1)
            &&& end.0.1 >= published.0.1 ==> end.0.0 == published.0.0
            &&& end.0.1 < published.0.1 ==> end.0.0 == published.0.0 + 1
        }),
{
}

/// A TW notice's release time, when it reads, lies within the twelve months that start with the
/// month the notice was published in.
pub proof fn lemma_release_within_year_of_publication(document: Seq<char>, pattern: Seq<char>)
    requires
        spec_local_release_time(document, pattern) is Ok,
    ensures
        spec_publish_time(document) matches Ok(published) && {
            let end = spec_local_release_time(document, pattern)->Ok_0;
            ||| end.0.0 == published.0.0 && end.0.1 >= published.0.1
            ||| end.0.0 == published.0.0 + 1 && end.0.1 < published.0.1
        },
{
    let published = spec_publish_time(document)->Ok_0;
    let notices = spec_select(document, NOTICE_SELECTOR@, HREF@)->0;
    let text = first_notice_text(notices)->0;
    let groups = spec_regex_captures(pattern, text, seq!["day"@, "month"@, "end_time"@])->0;
    lemma_maintenance_end(groups, published);
}

fn maintenance_end(groups: &Vec<Option<String>>, published: &CalendarDateTime) -> (res: Result<
    CalendarDateTime,
    UpdateNoticeParseError,
>)
    ensures
        match res {
            Ok(dt) => spec_maintenance_end(crate::patterns::group_views(groups@), published@) == Ok::<
                DateTimeView,
                UpdateNoticeParseError,
            >(dt@),
            Err(e) => spec_maintenance_end(crate::patterns::group_views(groups@), published@) == Err::<
                DateTimeView,
                UpdateNoticeParseError,
            >(e),
        },
{
    let ghost gs = crate::patterns::group_views(groups@);
    if groups.len() != 3 {
        return Err(UpdateNoticeParseError::MissingCapture);
    }
    let (day, month) = match (&groups[0], &groups[1]) {
        (Some(d), Some(m)) => (parse_u32(d.as_str()), parse_u32(m.as_str())),
        _ => return Err(UpdateNoticeParseError::MissingCapture),
    };
    let (day, month) = match (day, month) {
        (Some(d), Some(m)) => (d, m),
        _ => return Err(UpdateNoticeParseError::InvalidNumber),
    };
    proof {
        use_type_invariant(&published.date);
    }
    let year = if month >= published.date.month() {
        published.date.year()
    } else {
        published.date.year() + 1
    };
    let date = match Date::from_ymd_opt(year, month, day) {
        Some(d) => d,
        None => return Err(UpdateNoticeParseError::InvalidDate),
    };
    let end_time = match &groups[2] {
        Some(t) => t,
        None => return Err(UpdateNoticeParseError::MissingCapture),
    };
    let time = match chrono_parse_time(end_time.as_str(), TIME_FORMAT) {
        Some(t) => Time::from_valid_parts(t.0, t.1, t.2, t.3),
        None => return Err(UpdateNoticeParseError::InvalidTime),
    };
    Ok(CalendarDateTime::new(date, time))
}

fn local_release_time(document: &str, regexes: &Regexes) -> (res: Result<
    CalendarDateTime,
    UpdateNoticeParseError,
>)
    ensures
        match res {
            Ok(dt) => spec_local_release_time(document@, regexes.maintenance_time_re@) == Ok::<
                DateTimeView,
                UpdateNoticeParseError,
            >(dt@),
            Err(e) => spec_local_release_time(document@, regexes.maintenance_time_re@) == Err::<
                DateTimeView,
                UpdateNoticeParseError,
            >(e),
        },
{
    let date_element = single_element(document, DATE_SELECTOR, HREF)?;
    let published = single_text_datetime(&date_element, DATETIME_FORMAT)?;
    let notices = match select_elements(document, NOTICE_SELECTOR, HREF) {
        Some(n) => n,
        None => return Err(UpdateNoticeParseError::InvalidSelector),
    };
    if notices.len() == 0 || notices[0].texts.len() == 0 {
        return Err(UpdateNoticeParseError::MissingMaintenanceEndTime);
    }
    let names: [&str; 3] = ["day", "month", "end_time"];
    proof {
        assert(crate::patterns::name_views(names@) =~= seq!["day"@, "month"@, "end_time"@]);
    }
    let found = match regex_captures(
        regexes.maintenance_time_re,
        notices[0].texts[0].as_str(),
        names.as_slice(),
    ) {
        Some(found) => found,
        None => return Err(UpdateNoticeParseError::InvalidRegex),
    };
    match found {
        Some(groups) => maintenance_end(&groups, &published),
        None => Err(UpdateNoticeParseError::MissingMaintenanceEndTime),
    }
}

fn patch_name(document: &str, regexes: &Regexes) -> (res: Result<
    Option<String>,
    UpdateNoticeParseError,
>)
    ensures
        match res {
            Ok(n) => spec_patch_name(document@, regexes.patch_name_re@) == Ok::<
                Option<Seq<char>>,
                UpdateNoticeParseError,
            >(opt_view(n)),
            Err(e) => spec_patch_name(document@, regexes.patch_name_re@) == Err::<
                Option<Seq<char>>,
                UpdateNoticeParseError,
            >(e),
        },
{
    let bolds = match select_elements(document, BOLD_SELECTOR, HREF) {
        Some(b) => b,
        None => return Err(UpdateNoticeParseError::InvalidSelector),
    };
    if bolds.len() == 0 || bolds[bolds.len() - 1].texts.len() == 0 {
        return Ok(None);
    }
    let names: [&str; 1] = ["patch"];
    proof {
        assert(crate::patterns::name_views(names@) =~= seq!["patch"@]);
    }
    let last = &bolds[bolds.len() - 1];
    let found = match regex_captures(regexes.patch_name_re, last.texts[0].as_str(), names.as_slice()) {
        Some(found) => found,
        None => return Err(UpdateNoticeParseError::InvalidRegex),
    };
    match found {
        None => Ok(None),
        Some(groups) => {
            if groups.len() != 1 {
                return Err(UpdateNoticeParseError::MissingCapture);
            }
            match &groups[0] {
                Some(p) => Ok(Some(p.clone())),
                None => Err(UpdateNoticeParseError::MissingCapture),
            }
        },
    }
}

fn patch_note_link(document: &str) -> (res: Result<Option<String>, UpdateNoticeParseError>)
    ensures
        match res {
            Ok(u) => spec_patch_note_link(document@) == Ok::<
                Option<Seq<char>>,
                UpdateNoticeParseError,
            >(opt_view(u)),
            Err(e) => spec_patch_note_link(document@) == Err::<
                Option<Seq<char>>,
                UpdateNoticeParseError,
            >(e),
        },
{
    let links = match select_elements(document, LINK_SELECTOR, HREF) {
        Some(l) => l,
        None => return Err(UpdateNoticeParseError::InvalidSelector),
    };
    let url = if links.len() > 0 {
        match &links[0].attribute {
            Some(href) => match crate::urls::url_parse(href.as_str()) {
                Some(u) => Some(u),
                None => return Err(UpdateNoticeParseError::InvalidUrl),
            },
            None => None,
        }
    } else {
        None
    };
    if links.len() > 1 {
        return Err(UpdateNoticeParseError::UnexpectedElement);
    }
    Ok(url)
}

/// Reads a TW update notice page. On success the time is the end of the announced maintenance
/// converted from Taiwan time to UTC.
pub fn parse_update_notice(document: &str, regexes: &Regexes) -> (res: Result<
    UpdateNoticeInfo,
    UpdateNoticeParseError,
>)
    ensures
        match res {
            Ok(info) => spec_local_release_time(document@, regexes.maintenance_time_re@) matches Ok(local)
                && is_utc_of(info.datetime@, local, UTC_OFFSET_SECS as int) && spec_notice_kind(
                document@,
                *regexes,
            ) == Ok::<UpdateNoticeTypeView, UpdateNoticeParseError>(info.update_notice_type@),
            Err(e) => match spec_local_release_time(document@, regexes.maintenance_time_re@) {
                Err(x) => e == x,
                Ok(local) => (e == UpdateNoticeParseError::DateTimeOutOfRange && !utc_in_range(local, UTC_OFFSET_SECS as int))
                    || spec_notice_kind(document@, *regexes) == Err::<
                    UpdateNoticeTypeView,
                    UpdateNoticeParseError,
                >(e),
            },
        },
        spec_local_release_time(document@, regexes.maintenance_time_re@) matches Ok(local)
            && utc_in_range(local, UTC_OFFSET_SECS as int) && spec_notice_kind(document@, *regexes) is Ok ==> res is Ok,
{
    let local = local_release_time(document, regexes)?;
    let datetime = to_utc(&local, UTC_OFFSET_SECS)?;
    let name = patch_name(document, regexes)?;
    let patch_note_url = patch_note_link(document)?;
    let update_notice_type = match name {
        Some(patch_name) => UpdateNoticeType::NamedPatchTw { patch_note_url, patch_name },
        None => UpdateNoticeType::Hotfix,
    };
    Ok(UpdateNoticeInfo { datetime, update_notice_type })
}

} // verus!
