//! Global update notices: a Lodestone news page. The publication time is a Unix timestamp in
//! the page's script; a hotfix says so in the article's first block, and a named patch links to
//! its patch notes through a redirect.
use vstd::prelude::*;
use super::{
    UpdateNoticeInfo, UpdateNoticeType, UpdateNoticeTypeView, UpdateNoticeParseError,
    spec_single_element, single_element,
};
use crate::date::{CalendarDateTime, instant_secs, instant_in_range, unix_epoch_day};
use crate::html::{spec_select, select_elements};
use crate::patterns::{
    spec_regex_compiles, spec_regex_captures, spec_regex_is_match, regex_captures, regex_compiles,
    regex_is_match,
};
use crate::text::{spec_parse_i64, parse_i64};
use crate::urls::spec_url_parse;

verus! {

/// Finds the publication timestamp in the page's script.
pub const TIMESTAMP_PATTERN: &'static str = "dst_strftime\\((?<timestamp>\\d+), '.+?'\\);";

/// Marks a hotfix.
pub const HOTFIX_PATTERN: &'static str = "FINAL FANTASY XIV Hot[fF]ix(es)?";

/// The script that writes the publication time.
pub const TIME_SELECTOR: &'static str = "article > header > time > script";

/// The link in the article's first block.
pub const LINK_SELECTOR: &'static str = "article > div:first-of-type > a";

/// The article's first block.
pub const BODY_SELECTOR: &'static str = "article > div:first-of-type";

/// The attribute of a link that holds its target.
pub const HREF: &'static str = "href";

/// The patterns the notices are read with.
#[derive(Clone, Copy, Debug, PartialEq, Eq)]
pub struct Regexes {
    pub timestamp_re: &'static str,
    pub hotfix_re: &'static str,
}

/// A pattern that does not compile.
#[derive(Clone, Copy, Debug, PartialEq, Eq, Structural)]
pub struct InvalidRegex;

impl Regexes {
    /// The patterns, once it is known that they compile.
    pub fn compile_all() -> (res: Result<Regexes, InvalidRegex>)
        ensures
            match res {
                Ok(r) => r.timestamp_re@ == TIMESTAMP_PATTERN@ && r.hotfix_re@ == HOTFIX_PATTERN@
                    && spec_regex_compiles(TIMESTAMP_PATTERN@) && spec_regex_compiles(
                    HOTFIX_PATTERN@,
                ),
                Err(_) => !(spec_regex_compiles(TIMESTAMP_PATTERN@) && spec_regex_compiles(
                    HOTFIX_PATTERN@,
                )),
            },
    {
        if !regex_compiles(TIMESTAMP_PATTERN) {
            return Err(InvalidRegex);
        }
        if !regex_compiles(HOTFIX_PATTERN) {
            return Err(InvalidRegex);
        }
        Ok(Regexes { timestamp_re: TIMESTAMP_PATTERN, hotfix_re: HOTFIX_PATTERN })
    }
}

/// What a read Global notice needs next: either it is complete, or the patch note link has to
/// be followed to learn where it redirects.
#[derive(Clone, Debug, PartialEq)]
pub enum GlobalNoticeStep {
    Done(UpdateNoticeInfo),
    FollowPatchNoteLink { datetime: CalendarDateTime, link: String },
}

/// The publication timestamp (seconds since the Unix epoch) in the one time script.
pub open spec fn spec_timestamp(document: Seq<char>, pattern: Seq<char>) -> Result<i64, UpdateNoticeParseError> {
    match spec_single_element(document, TIME_SELECTOR@, HREF@) {
        Err(e) => Err(e),
        Ok(script) => if !spec_regex_compiles(pattern) {
            Err(UpdateNoticeParseError::InvalidRegex)
        } else {
            match spec_regex_captures(pattern, script.inner_html, seq!["timestamp"@]) {
                None => Err(UpdateNoticeParseError::MissingTimestamp),
                Some(groups) => if !(groups.len() == 1 && groups[0] is Some) {
                    Err(UpdateNoticeParseError::MissingCapture)
                } else {
                    match spec_parse_i64(groups[0]->0) {
                        None => Err(UpdateNoticeParseError::InvalidNumber),
                        Some(t) => Ok(t),
                    }
                },
            }
        },
    }
}

/// Some text of the block matches the pattern.
pub open spec fn spec_any_text_matches(texts: Seq<Seq<char>>, pattern: Seq<char>) -> Result<
    bool,
    UpdateNoticeParseError,
> {
    if texts.len() == 0 {
        Ok(false)
    } else if !spec_regex_compiles(pattern) {
        Err(UpdateNoticeParseError::InvalidRegex)
    } else {
        Ok(exists|i: int| 0 <= i < texts.len() && spec_regex_is_match(pattern, #[trigger] texts[i]))
    }
}

/// Whether the one first block of the article says it is a hotfix.
pub open spec fn spec_is_hotfix(document: Seq<char>, pattern: Seq<char>) -> Result<bool, UpdateNoticeParseError> {
    match spec_select(document, BODY_SELECTOR@, HREF@) {
        None => Err(UpdateNoticeParseError::InvalidSelector),
        Some(blocks) => if blocks.len() == 0 {
            Err(UpdateNoticeParseError::MissingElement)
        } else {
            match spec_any_text_matches(blocks[0].texts, pattern) {
                Err(e) => Err(e),
                Ok(hotfix) => if blocks.len() > 1 {
                    Err(UpdateNoticeParseError::UnexpectedElement)
                } else {
                    Ok(hotfix)
                },
            }
        },
    }
}

/// The target of the first link in the article's first block, if any.
pub open spec fn spec_link_href(document: Seq<char>) -> Result<Option<Seq<char>>, UpdateNoticeParseError> {
    match spec_select(document, LINK_SELECTOR@, HREF@) {
        None => Err(UpdateNoticeParseError::InvalidSelector),
        Some(links) => if links.len() > 0 {
            Ok(links[0].attribute)
        } else {
            Ok(None)
        },
    }
}

/// What follows the timestamp: a hotfix is complete; otherwise the link (read as a URL) is
/// to be followed; a notice with neither is not recognized.
pub open spec fn spec_next_step(document: Seq<char>, regexes: Regexes) -> Result<
    Option<Seq<char>>,
    UpdateNoticeParseError,
> {
    match spec_link_href(document) {
        Err(e) => Err(e),
        Ok(href) => match spec_is_hotfix(document, regexes.hotfix_re@) {
            Err(e) => Err(e),
            Ok(hotfix) => if hotfix {
                Ok(None)
            } else {
                match href {
                    None => Err(UpdateNoticeParseError::Unrecognized),
                    Some(h) => match spec_url_parse(h) {
                        None => Err(UpdateNoticeParseError::InvalidUrl),
                        Some(u) => Ok(Some(u)),
                    },
                }
            },
        },
    }
}

/// A notice whose article has one first block with a text (the first one or any other) that
/// the hotfix pattern matches is a hotfix: once the link selector reads, what follows the
/// timestamp is complete, with no link to follow. A block none of whose texts matches is no
/// hotfix.
pub proof fn lemma_hotfix_when_a_text_matches(document: Seq<char>, regexes: Regexes)
    requires
        spec_regex_compiles(regexes.hotfix_re@),
        spec_select(document, LINK_SELECTOR@, HREF@) is Some,
        spec_select(document, BODY_SELECTOR@, HREF@) matches Some(blocks) && blocks.len() == 1,
    ensures
        ({
            let texts = spec_select(document, BODY_SELECTOR@, HREF@)->0[0].texts;
            &&& (exists|i: int|
                0 <= i < texts.len() && spec_regex_is_match(regexes.hotfix_re@, #[trigger] texts[i]))
                ==> spec_is_hotfix(document, regexes.hotfix_re@) == Ok::<bool, UpdateNoticeParseError>(true)
                && spec_next_step(document, regexes) == Ok::<
                Option<Seq<char>>,
                UpdateNoticeParseError,
            >(None)
            &&& (forall|i: int|
                0 <= i < texts.len() ==> !spec_regex_is_match(regexes.hotfix_re@, #[trigger] texts[i]))
                ==> spec_is_hotfix(document, regexes.hotfix_re@) == Ok::<bool, UpdateNoticeParseError>(false)
        }),
{
    let texts = spec_select(document, BODY_SELECTOR@, HREF@)->0[0].texts;
    if exists|i: int|
        0 <= i < texts.len() && spec_regex_is_match(regexes.hotfix_re@, #[trigger] texts[i]) {
        let i = choose|i: int|
            0 <= i < texts.len() && spec_regex_is_match(regexes.hotfix_re@, #[trigger] texts[i]);
        assert(texts.len() > 0);
    }
}

fn timestamp(document: &str, regexes: &Regexes) -> (res: Result<i64, UpdateNoticeParseError>)
    ensures
        match res {
            Ok(t) => spec_timestamp(document@, regexes.timestamp_re@) == Ok::<i64, UpdateNoticeParseError>(t),
            Err(e) => spec_timestamp(document@, regexes.timestamp_re@) == Err::<i64, UpdateNoticeParseError>(e),
        },
{
    let script = single_element(document, TIME_SELECTOR, HREF)?;
    let names: [&str; 1] = ["timestamp"];
    proof {
        assert(crate::patterns::name_views(names@) =~= seq!["timestamp"@]);
    }
    let found = match regex_captures(regexes.timestamp_re, script.inner_html.as_str(), names.as_slice()) {
        Some(found) => found,
        None => return Err(UpdateNoticeParseError::InvalidRegex),
    };
    let groups = match found {
        Some(groups) => groups,
        None => return Err(UpdateNoticeParseError::MissingTimestamp),
    };
    if groups.len() != 1 {
        return Err(UpdateNoticeParseError::MissingCapture);
    }
    match &groups[0] {
        Some(text) => match parse_i64(text.as_str()) {
            Some(t) => Ok(t),
            None => Err(UpdateNoticeParseError::InvalidNumber),
        },
        None => Err(UpdateNoticeParseError::MissingCapture),
    }
}

fn any_text_matches(texts: &Vec<String>, pattern: &str) -> (res: Result<bool, UpdateNoticeParseError>)
    ensures
        res == spec_any_text_matches(texts@.map_values(|t: String| t@), pattern@),
{
    let ghost views = texts@.map_values(|t: String| t@);
    let mut i: usize = 0;
    while i < texts.len()
        invariant
            i <= texts@.len(),
            views == texts@.map_values(|t: String| t@),
            i > 0 ==> spec_regex_compiles(pattern@),
            forall|j: int| 0 <= j < i ==> !spec_regex_is_match(pattern@, #[trigger] views[j]),
        decreases texts@.len() - i,
    {
        match regex_is_match(pattern, texts[i].as_str()) {
            None => return Err(UpdateNoticeParseError::InvalidRegex),
            Some(true) => {
                assert(spec_regex_is_match(pattern@, views[i as int]));
                return Ok(true);
            },
            Some(false) => {},
        }
        i = i + 1;
    }
    Ok(false)
}

fn is_hotfix(document: &str, regexes: &Regexes) -> (res: Result<bool, UpdateNoticeParseError>)
    ensures
        res == spec_is_hotfix(document@, regexes.hotfix_re@),
{
    let blocks = match select_elements(document, BODY_SELECTOR, HREF) {
        Some(b) => b,
        None => return Err(UpdateNoticeParseError::InvalidSelector),
    };
    if blocks.len() == 0 {
        return Err(UpdateNoticeParseError::MissingElement);
    }
    let hotfix = any_text_matches(&blocks[0].texts, regexes.hotfix_re)?;
    if blocks.len() > 1 {
        return Err(UpdateNoticeParseError::UnexpectedElement);
    }
    Ok(hotfix)
}

fn link_href(document: &str) -> (res: Result<Option<String>, UpdateNoticeParseError>)
    ensures
        match res {
            Ok(h) => spec_link_href(document@) == Ok::<Option<Seq<char>>, UpdateNoticeParseError>(crate::text::opt_view(h)),
            Err(e) => spec_link_href(document@) == Err::<Option<Seq<char>>, UpdateNoticeParseError>(e),
        },
{
    let links = match select_elements(document, LINK_SELECTOR, HREF) {
        Some(l) => l,
        None => return Err(UpdateNoticeParseError::InvalidSelector),
    };
    if links.len() > 0 {
        match &links[0].attribute {
            Some(h) => Ok(Some(h.clone())),
            None => Ok(None),
        }
    } else {
        Ok(None)
    }
}

/// Reads a Global update notice page. The time is the page's timestamp in UTC. A hotfix is
/// complete; a named patch asks for its patch note link to be followed
/// (`finish_update_notice` takes where it redirects).
pub fn parse_update_notice(document: &str, regexes: &Regexes) -> (res: Result<
    GlobalNoticeStep,
    UpdateNoticeParseError,
>)
    ensures
        match res {
            Ok(step) => spec_timestamp(document@, regexes.timestamp_re@) matches Ok(ts) && match step {
                GlobalNoticeStep::Done(info) => instant_secs(info.datetime@) == unix_epoch_day()
                    * 86400 + ts && info.datetime@.1.3 == 0 && info.update_notice_type@ is Hotfix
                    && spec_next_step(document@, *regexes) == Ok::<Option<Seq<char>>, UpdateNoticeParseError>(None),
                GlobalNoticeStep::FollowPatchNoteLink { datetime, link } => instant_secs(datetime@)
                    == unix_epoch_day() * 86400 + ts && datetime@.1.3 == 0 && spec_next_step(
                    document@,
                    *regexes,
                ) == Ok::<Option<Seq<char>>, UpdateNoticeParseError>(Some(link@)),
            },
            Err(e) => match spec_timestamp(document@, regexes.timestamp_re@) {
                Err(x) => e == x,
                Ok(ts) => (e == UpdateNoticeParseError::DateTimeOutOfRange && !instant_in_range(
                    unix_epoch_day() * 86400 + ts,
                )) || spec_next_step(document@, *regexes) == Err::<
                    Option<Seq<char>>,
                    UpdateNoticeParseError,
                >(e),
            },
        },
        spec_timestamp(document@, regexes.timestamp_re@) matches Ok(ts) && instant_in_range(
            unix_epoch_day() * 86400 + ts,
        ) && spec_next_step(document@, *regexes) is Ok ==> res is Ok,
{
    let ts = timestamp(document, regexes)?;
    let datetime = match CalendarDateTime::from_timestamp_secs(ts) {
        Some(dt) => dt,
        None => return Err(UpdateNoticeParseError::DateTimeOutOfRange),
    };
    let href = link_href(document)?;
    if is_hotfix(document, regexes)? {
        return Ok(GlobalNoticeStep::Done(UpdateNoticeInfo { datetime, update_notice_type: UpdateNoticeType::Hotfix }));
    }
    match href {
        None => Err(UpdateNoticeParseError::Unrecognized),
        Some(h) => match crate::urls::url_parse(h.as_str()) {
            None => Err(UpdateNoticeParseError::InvalidUrl),
            Some(link) => Ok(GlobalNoticeStep::FollowPatchNoteLink { datetime, link }),
        },
    }
}

/// Completes a named patch's notice with where its patch note link redirects (the `Location`
/// of the reply, read as a URL).
pub fn finish_update_notice(datetime: CalendarDateTime, location: Option<&str>) -> (res: Result<
    UpdateNoticeInfo,
    UpdateNoticeParseError,
>)
    ensures
        match location {
            None => res == Err::<UpdateNoticeInfo, UpdateNoticeParseError>(UpdateNoticeParseError::MissingLocation),
            Some(l) => match spec_url_parse(l@) {
                None => res == Err::<UpdateNoticeInfo, UpdateNoticeParseError>(UpdateNoticeParseError::InvalidUrl),
                Some(u) => res matches Ok(info) && info.datetime == datetime && info.update_notice_type@
                    == (UpdateNoticeTypeView::NamedPatchGlobal { patch_note_url: u }),
            },
        },
{
    let location = match location {
        Some(l) => l,
        None => return Err(UpdateNoticeParseError::MissingLocation),
    };
    match crate::urls::url_parse(location) {
        Some(patch_note_url) => Ok(UpdateNoticeInfo {
            datetime,
            update_notice_type: UpdateNoticeType::NamedPatchGlobal { patch_note_url },
        }),
        None => Err(UpdateNoticeParseError::InvalidUrl),
    }
}

} // verus!
