//! KR update notices: a news page, whose time is in Korea Standard Time and whose link, when
//! there is one, leads to the patch notes.
use vstd::prelude::*;
use super::{
    UpdateNoticeInfo, UpdateNoticeType, UpdateNoticeTypeView, UpdateNoticeParseError, is_utc_of,
    utc_in_range, to_utc, spec_single_element, spec_single_text_datetime, single_element,
    single_text_datetime,
};
use crate::date::DateTimeView;
use crate::html::{spec_select, select_elements};
use crate::patterns::{spec_regex_compiles, spec_regex_captures, regex_captures, regex_compiles};
use crate::urls::spec_url_with_path;

verus! {

/// Finds the patch name in the text of the patch note link.
pub const PATCH_NAME_PATTERN: &'static str = "\\[V(?<patch>\\d.\\d+) \u{d328}\u{ce58}\u{b178}\u{d2b8} \u{bc14}\u{b85c}( )?\u{ac00}\u{ae30}\\]";

/// The element that holds the publication time.
pub const DATE_SELECTOR: &'static str = ".ff14_board_view > .board_sub_title > .board_info > .date";

/// The patch note link.
pub const LINK_SELECTOR: &'static str = ".ff14_board_view > .board_view_box a";

/// The attribute of a link that holds its target.
pub const HREF: &'static str = "href";

/// The format of the publication time.
pub const DATETIME_FORMAT: &'static str = "%y-%m-%d %H:%M";

/// The site the patch note links' paths belong to.
pub const SITE_URL: &'static str = "https://www.ff14.co.kr";

/// Korea Standard Time, in seconds east of UTC.
pub const UTC_OFFSET_SECS: i32 = 32400;

/// The patterns the notices are read with.
#[derive(Clone, Copy, Debug, PartialEq, Eq)]
pub struct Regexes {
    pub patch_name_re: &'static str,
}

/// A pattern that does not compile.
#[derive(Clone, Copy, Debug, PartialEq, Eq, Structural)]
pub struct InvalidRegex;

impl Regexes {
    /// The patterns, once it is known that they compile.
    pub fn compile_all() -> (res: Result<Regexes, InvalidRegex>)
        ensures
            match res {
                Ok(r) => r.patch_name_re@ == PATCH_NAME_PATTERN@ && spec_regex_compiles(
                    PATCH_NAME_PATTERN@,
                ),
                Err(_) => !spec_regex_compiles(PATCH_NAME_PATTERN@),
            },
    {
        if !regex_compiles(PATCH_NAME_PATTERN) {
            return Err(InvalidRegex);
        }
        Ok(Regexes { patch_name_re: PATCH_NAME_PATTERN })
    }
}

/// The publication time, in Korea Standard Time: the one text of the one date element.
pub open spec fn spec_local_publish_time(document: Seq<char>) -> Result<DateTimeView, UpdateNoticeParseError> {
    match spec_single_element(document, DATE_SELECTOR@, HREF@) {
        Err(e) => Err(e),
        Ok(e) => spec_single_text_datetime(e, DATETIME_FORMAT@),
    }
}

/// A notice with a patch note link names a patch (the link's path on the site, and the patch
/// name in its text); one without is a hotfix; more than one link is an error.
pub open spec fn spec_notice_kind(document: Seq<char>, pattern: Seq<char>) -> Result<
    UpdateNoticeTypeView,
    UpdateNoticeParseError,
> {
    match spec_select(document, LINK_SELECTOR@, HREF@) {
        None => Err(UpdateNoticeParseError::InvalidSelector),
        Some(links) => if links.len() > 1 {
            Err(UpdateNoticeParseError::UnexpectedElement)
        } else if links.len() == 0 {
            Ok(UpdateNoticeTypeView::Hotfix)
        } else {
            match links[0].attribute {
                None => Err(UpdateNoticeParseError::MissingHref),
                Some(href) => match spec_url_with_path(SITE_URL@, href) {
                    None => Err(UpdateNoticeParseError::InvalidUrl),
                    Some(url) => if !spec_regex_compiles(pattern) {
                        Err(UpdateNoticeParseError::InvalidRegex)
                    } else {
                        match spec_regex_captures(pattern, links[0].inner_html, seq!["patch"@]) {
                            None => Err(UpdateNoticeParseError::MissingPatchName),
                            Some(groups) => if groups.len() == 1 && groups[0] is Some {
                                Ok(UpdateNoticeTypeView::NamedPatchKrTw { patch_note_url: url, patch_name: groups[0]->0 })
                            } else {
                                Err(UpdateNoticeParseError::MissingCapture)
                            },
                        }
                    },
                },
            }
        },
    }
}

/// Reads a KR update notice page. On success the time is the publication time converted from
/// Korea Standard Time to UTC.
pub fn parse_update_notice(document: &str, regexes: &Regexes) -> (res: Result<
    UpdateNoticeInfo,
    UpdateNoticeParseError,
>)
    ensures
        match res {
            Ok(info) => spec_local_publish_time(document@) matches Ok(local) && is_utc_of(
                info.datetime@,
                local,
                UTC_OFFSET_SECS as int,
            ) && spec_notice_kind(document@, regexes.patch_name_re@) == Ok::<
                UpdateNoticeTypeView,
                UpdateNoticeParseError,
            >(info.update_notice_type@),
            Err(e) => match spec_local_publish_time(document@) {
                Err(x) => e == x,
                Ok(local) => (e == UpdateNoticeParseError::DateTimeOutOfRange && !utc_in_range(local, UTC_OFFSET_SECS as int))
                    || spec_notice_kind(document@, regexes.patch_name_re@) == Err::<
                    UpdateNoticeTypeView,
                    UpdateNoticeParseError,
                >(e),
            },
        },
        spec_local_publish_time(document@) matches Ok(local) && utc_in_range(local, UTC_OFFSET_SECS as int)
            && spec_notice_kind(document@, regexes.patch_name_re@) is Ok ==> res is Ok,
{
    let date_element = single_element(document, DATE_SELECTOR, HREF)?;
    let local = single_text_datetime(&date_element, DATETIME_FORMAT)?;
    let datetime = to_utc(&local, UTC_OFFSET_SECS)?;
    let links = match select_elements(document, LINK_SELECTOR, HREF) {
        Some(links) => links,
        None => return Err(UpdateNoticeParseError::InvalidSelector),
    };
    if links.len() > 1 {
        return Err(UpdateNoticeParseError::UnexpectedElement);
    }
    if links.len() == 0 {
        return Ok(UpdateNoticeInfo { datetime, update_notice_type: UpdateNoticeType::Hotfix });
    }
    let link = &links[0];
    let href = match &link.attribute {
        Some(h) => h,
        None => return Err(UpdateNoticeParseError::MissingHref),
    };
    let patch_note_url = match crate::urls::url_with_path(SITE_URL, href.as_str()) {
        Some(u) => u,
        None => return Err(UpdateNoticeParseError::InvalidUrl),
    };
    let names: [&str; 1] = ["patch"];
    proof {
        assert(crate::patterns::name_views(names@) =~= seq!["patch"@]);
    }
    let found = match regex_captures(regexes.patch_name_re, link.inner_html.as_str(), names.as_slice()) {
        Some(found) => found,
        None => return Err(UpdateNoticeParseError::InvalidRegex),
    };
    let groups = match found {
        Some(groups) => groups,
        None => return Err(UpdateNoticeParseError::MissingPatchName),
    };
    if groups.len() != 1 {
        return Err(UpdateNoticeParseError::MissingCapture);
    }
    let patch_name = match &groups[0] {
        Some(p) => p.clone(),
        None => return Err(UpdateNoticeParseError::MissingCapture),
    };
    Ok(UpdateNoticeInfo {
        datetime,
        update_notice_type: UpdateNoticeType::NamedPatchKrTw { patch_note_url, patch_name },
    })
}

} // verus!
