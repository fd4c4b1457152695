//! Update notices: what the regional news pages announce about a release, and how a release
//! record is checked against its notice.
use vstd::prelude::*;
use crate::data_file::DataFile;
use crate::date::{
    CalendarDateTime, DateTimeView, day_number, instant_secs, instant_in_range,
    spec_chrono_parse_datetime, chrono_parse_datetime,
};
use crate::game_version::{GameVersion, GameVersionView, ParseGameVersionError, spec_version_text};
use crate::html::{ElementView, HtmlElement, spec_select, select_elements};
use crate::text::{opt_view, spec_after_last};
use crate::urls::{spec_url_parse, spec_url_fragment, spec_url_with_query};
use crate::version::Version;
use crate::patterns::spec_regex_compiles;

pub mod cn;
pub mod kr;
pub mod tw;
pub mod global;

verus! {

/// What kind of release an update notice announces.
#[derive(Clone, Debug, PartialEq)]
pub enum UpdateNoticeType {
    Hotfix,
    NamedPatchGlobal { patch_note_url: String },
    NamedPatchCn { patch_name: String, game_version: GameVersion },
    NamedPatchKrTw { patch_note_url: String, patch_name: String },
    NamedPatchTw { patch_note_url: Option<String>, patch_name: String },
}

pub enum UpdateNoticeTypeView {
    Hotfix,
    NamedPatchGlobal { patch_note_url: Seq<char> },
    NamedPatchCn { patch_name: Seq<char>, game_version: GameVersionView },
    NamedPatchKrTw { patch_note_url: Seq<char>, patch_name: Seq<char> },
    NamedPatchTw { patch_note_url: Option<Seq<char>>, patch_name: Seq<char> },
}

impl View for UpdateNoticeType {
    type V = UpdateNoticeTypeView;

    open spec fn view(&self) -> UpdateNoticeTypeView {
        match self {
            UpdateNoticeType::Hotfix => UpdateNoticeTypeView::Hotfix,
            UpdateNoticeType::NamedPatchGlobal { patch_note_url } =>
                UpdateNoticeTypeView::NamedPatchGlobal { patch_note_url: patch_note_url@ },
            UpdateNoticeType::NamedPatchCn { patch_name, game_version } =>
                UpdateNoticeTypeView::NamedPatchCn {
                patch_name: patch_name@,
                game_version: game_version@,
            },
            UpdateNoticeType::NamedPatchKrTw { patch_note_url, patch_name } =>
                UpdateNoticeTypeView::NamedPatchKrTw {
                patch_note_url: patch_note_url@,
                patch_name: patch_name@,
            },
            UpdateNoticeType::NamedPatchTw { patch_note_url, patch_name } =>
                UpdateNoticeTypeView::NamedPatchTw {
                patch_note_url: opt_view(*patch_note_url),
                patch_name: patch_name@,
            },
        }
    }
}

/// An update notice: when it was published (UTC) and what it announces.
#[derive(Clone, Debug, PartialEq)]
pub struct UpdateNoticeInfo {
    pub datetime: CalendarDateTime,
    pub update_notice_type: UpdateNoticeType,
}

/// The patch note link a notice carries.
pub open spec fn spec_patch_note_url(t: UpdateNoticeTypeView) -> Option<Seq<char>> {
    match t {
        UpdateNoticeTypeView::NamedPatchGlobal { patch_note_url } => Some(patch_note_url),
        UpdateNoticeTypeView::NamedPatchKrTw { patch_note_url, .. } => Some(patch_note_url),
        UpdateNoticeTypeView::NamedPatchTw { patch_note_url, .. } => patch_note_url,
        _ => None,
    }
}

/// The patch name a notice carries.
pub open spec fn spec_patch_name(t: UpdateNoticeTypeView) -> Option<Seq<char>> {
    match t {
        UpdateNoticeTypeView::NamedPatchCn { patch_name, .. } => Some(patch_name),
        UpdateNoticeTypeView::NamedPatchKrTw { patch_name, .. } => Some(patch_name),
        UpdateNoticeTypeView::NamedPatchTw { patch_name, .. } => Some(patch_name),
        _ => None,
    }
}

/// The game version a notice carries.
pub open spec fn spec_notice_game_version(t: UpdateNoticeTypeView) -> Option<GameVersionView> {
    match t {
        UpdateNoticeTypeView::NamedPatchCn { game_version, .. } => Some(game_version),
        _ => None,
    }
}

pub open spec fn opt_ref_view(o: Option<&String>) -> Option<Seq<char>> {
    match o {
        Some(s) => Some(s@),
        None => None,
    }
}

impl UpdateNoticeType {
    /// The patch note link, for the kinds that carry one.
    pub fn patch_note_url(&self) -> (r: Option<&String>)
        ensures
            opt_ref_view(r) == spec_patch_note_url(self@),
    {
        match self {
            UpdateNoticeType::NamedPatchGlobal { patch_note_url } => Some(patch_note_url),
            UpdateNoticeType::NamedPatchKrTw { patch_note_url, .. } => Some(patch_note_url),
            UpdateNoticeType::NamedPatchTw { patch_note_url, .. } => match patch_note_url {
                Some(u) => Some(u),
                None => None,
            },
            UpdateNoticeType::Hotfix => None,
            UpdateNoticeType::NamedPatchCn { .. } => None,
        }
    }

    /// The patch name, for the kinds that carry one.
    pub fn patch_name(&self) -> (r: Option<&String>)
        ensures
            opt_ref_view(r) == spec_patch_name(self@),
    {
        match self {
            UpdateNoticeType::NamedPatchCn { patch_name, .. } => Some(patch_name),
            UpdateNoticeType::NamedPatchKrTw { patch_name, .. } => Some(patch_name),
            UpdateNoticeType::NamedPatchTw { patch_name, .. } => Some(patch_name),
            UpdateNoticeType::Hotfix => None,
            UpdateNoticeType::NamedPatchGlobal { .. } => None,
        }
    }

    /// The game version, for the kind that carries one (CN's named patches).
    pub fn game_version(&self) -> (r: Option<&GameVersion>)
        ensures
            match r {
                Some(g) => spec_notice_game_version(self@) == Some(g@),
                None => spec_notice_game_version(self@) is None,
            },
    {
        match self {
            UpdateNoticeType::NamedPatchCn { game_version, .. } => Some(game_version),
            _ => None,
        }
    }

    /// Whether the notice announces a hotfix.
    pub fn is_hotfix(&self) -> (r: bool)
        ensures
            r == (self@ is Hotfix),
    {
        match self {
            UpdateNoticeType::Hotfix => true,
            _ => false,
        }
    }
}

/// Where CN's update notices are fetched from.
pub const CN_NEWS_DETAIL_URL: &'static str = "https://cqnews.web.sdo.com/api/news/newsDetail";

/// Why the address of an update notice cannot be made.
#[derive(Clone, Copy, Debug, PartialEq, Eq, Structural)]
pub enum RequestUrlError {
    InvalidUrl,
    MissingFragment,
}

/// The address an update notice is fetched from: CN's notice links name the notice in their
/// fragment (its last `/`-separated piece), and the notice is fetched from the news API with
/// that ID; the other regions fetch the link itself.
pub open spec fn spec_update_notice_request_url(data_file: DataFile, update_notice_url: Seq<char>) -> Result<
    Seq<char>,
    RequestUrlError,
> {
    if data_file == DataFile::Cn {
        match spec_url_parse(CN_NEWS_DETAIL_URL@) {
            None => Err(RequestUrlError::InvalidUrl),
            Some(base) => match spec_url_fragment(update_notice_url) {
                None => Err(RequestUrlError::MissingFragment),
                Some(fragment) => match spec_url_with_query(
                    base,
                    "gameCode=ff&id="@ + spec_after_last(fragment, '/'),
                ) {
                    None => Err(RequestUrlError::InvalidUrl),
                    Some(u) => Ok(u),
                },
            },
        }
    } else {
        Ok(update_notice_url)
    }
}

/// The address the update notice at `update_notice_url` is fetched from.
pub fn update_notice_request_url(data_file: DataFile, update_notice_url: &str) -> (res: Result<
    String,
    RequestUrlError,
>)
    ensures
        match res {
            Ok(u) => spec_update_notice_request_url(data_file, update_notice_url@) == Ok::<
                Seq<char>,
                RequestUrlError,
            >(u@),
            Err(e) => spec_update_notice_request_url(data_file, update_notice_url@) == Err::<
                Seq<char>,
                RequestUrlError,
            >(e),
        },
{
    if data_file == DataFile::Cn {
        let base = match crate::urls::url_parse(CN_NEWS_DETAIL_URL) {
            Some(b) => b,
            None => return Err(RequestUrlError::InvalidUrl),
        };
        let fragment = match crate::urls::url_fragment(update_notice_url) {
            Some(f) => f,
            None => return Err(RequestUrlError::MissingFragment),
        };
        let id = crate::text::after_last(fragment.as_str(), '/');
        let mut query = String::from_str("gameCode=ff&id=");
        query.append(id);
        match crate::urls::url_with_query(base.as_str(), query.as_str()) {
            Some(u) => Ok(u),
            None => Err(RequestUrlError::InvalidUrl),
        }
    } else {
        Ok(String::from_str(update_notice_url))
    }
}

/// Why a release record disagrees with its update notice.
#[derive(Clone, Copy, Debug, PartialEq, Eq, Structural)]
pub enum NoticeCheckError {
    /// A CN or KR `.0` release whose notice came out more than a day after the release date.
    NoticeTooLate,
    /// The release date is not the day of the notice.
    ReleaseDateMismatch,
    /// A hotfix that has a patch note link.
    HotfixWithPatchNotes,
    /// The patch note link differs from the notice's.
    PatchNoteUrlMismatch,
    /// The version name differs from the notice's patch name.
    PatchNameMismatch,
    /// The game version differs from the notice's.
    GameVersionMismatch,
}

/// CN's game version whose notice is dated the day before the release.
pub open spec fn cn_notice_date_exception() -> Seq<char> {
    "2025.10.23.0000.0000"@
}

/// The release date fits the notice: CN and KR combine the notices of `.0` releases with the
/// end of maintenance, which may come up to a day later; one CN notice is dated a day early;
/// otherwise the days are the same.
pub open spec fn release_date_fits(v: Version, info: UpdateNoticeInfo, data_file: DataFile) -> bool {
    let notice_day = info.datetime.date@;
    if (data_file == DataFile::Cn || data_file == DataFile::Kr) && ends_with_dot_zero(v.version_name@) {
        day_number(notice_day) - day_number(v.release_date@) <= 1
    } else if data_file == DataFile::Cn && v.release_date@ != notice_day {
        spec_version_text(v.game_version@) == cn_notice_date_exception()
    } else {
        v.release_date@ == notice_day
    }
}

pub open spec fn ends_with_dot_zero(s: Seq<char>) -> bool {
    s.len() >= 2 && s.subrange(s.len() - 2, s.len() as int) == ".0"@
}

/// What checking a release against its notice gives, the first failing rule deciding.
pub open spec fn spec_check_update_notice(v: Version, info: UpdateNoticeInfo, data_file: DataFile) -> Result<
    (),
    NoticeCheckError,
> {
    let kind = info.update_notice_type@;
    if !release_date_fits(v, info, data_file) {
        if (data_file == DataFile::Cn || data_file == DataFile::Kr) && ends_with_dot_zero(
            v.version_name@,
        ) {
            Err(NoticeCheckError::NoticeTooLate)
        } else {
            Err(NoticeCheckError::ReleaseDateMismatch)
        }
    } else if kind is Hotfix && v.patch_note_url is Some {
        Err(NoticeCheckError::HotfixWithPatchNotes)
    } else if spec_patch_note_url(kind) is Some && opt_view(v.patch_note_url) != spec_patch_note_url(
        kind,
    ) {
        Err(NoticeCheckError::PatchNoteUrlMismatch)
    } else if spec_patch_name(kind) is Some && Some(v.version_name@) != spec_patch_name(kind) {
        Err(NoticeCheckError::PatchNameMismatch)
    } else if spec_notice_game_version(kind) is Some && Some(v.game_version@)
        != spec_notice_game_version(kind) {
        Err(NoticeCheckError::GameVersionMismatch)
    } else {
        Ok(())
    }
}

/// A release without a patch note link, checked against a notice that names one, once its
/// release date fits the notice. Reporting that mismatch shows the release's own link, which
/// such a release lacks, so `check_update_notice` does not take such a pair: callers test for
/// it first (`lacks_patch_notes`).
pub open spec fn spec_lacks_patch_notes(v: Version, info: UpdateNoticeInfo, data_file: DataFile) -> bool {
    &&& release_date_fits(v, info, data_file)
    &&& spec_patch_note_url(info.update_notice_type@) is Some
    &&& v.patch_note_url is None
}

/// Whether the release lacks the patch note link its notice names (`spec_lacks_patch_notes`).
pub fn lacks_patch_notes(version: &Version, info: &UpdateNoticeInfo, data_file: DataFile) -> (res:
    bool)
    ensures
        res == spec_lacks_patch_notes(*version, *info, data_file),
{
    version.patch_note_url.is_none() && info.update_notice_type.patch_note_url().is_some()
        && release_date_check(version, info, data_file).is_ok()
}

/// The release date rule of `check_update_notice` alone.
fn release_date_check(version: &Version, info: &UpdateNoticeInfo, data_file: DataFile) -> (res:
    Result<(), NoticeCheckError>)
    ensures
        res is Ok <==> release_date_fits(*version, *info, data_file),
        res matches Err(e) ==> spec_check_update_notice(*version, *info, data_file) == Err::<
            (),
            NoticeCheckError,
        >(e),
{
    let notice_day = info.datetime.date_naive();
    proof {
        reveal_strlit(".0");
    }
    let dot_zero = crate::text::ends_with(version.version_name.as_str(), ".0");
    assert(dot_zero == ends_with_dot_zero(version.version_name@));
    if (data_file == DataFile::Cn || data_file == DataFile::Kr) && dot_zero {
        if notice_day.days_since(&version.release_date) > 1 {
            return Err(NoticeCheckError::NoticeTooLate);
        }
    } else if data_file == DataFile::Cn && !version.release_date.same_day(&notice_day) {
        let text = version.game_version.to_string();
        if !crate::text::str_eq(text.as_str(), "2025.10.23.0000.0000") {
            return Err(NoticeCheckError::ReleaseDateMismatch);
        }
    } else if !version.release_date.same_day(&notice_day) {
        return Err(NoticeCheckError::ReleaseDateMismatch);
    }
    Ok(())
}

/// The day rule of the notice check. A release passes only when its release date is its
/// notice's UTC day, or it is a CN or KR `.0` release (its name ends in `.0`) whose notice is at
/// most a day later, or it is CN's one game version `2025.10.23.0000.0000`. A CN release that
/// is no `.0` release, whose day differs from its notice's and whose game version is another,
/// fails with `ReleaseDateMismatch`, as does any release of Global or TW, or a KR release that
/// is no `.0` release, whose day differs; a CN or KR `.0` release whose notice is more than a
/// day later fails with `NoticeTooLate`.
pub proof fn lemma_notice_day_rule(v: Version, info: UpdateNoticeInfo, data_file: DataFile)
    ensures
        ({
            let (release, notice) = (v.release_date@, info.datetime.date@);
            let name = v.version_name@;
            let dot_zero = name.len() >= 2 && name.subrange(name.len() - 2, name.len() as int)
                == ".0"@;
            let cn_or_kr = data_file == DataFile::Cn || data_file == DataFile::Kr;
            &&& spec_check_update_notice(v, info, data_file) is Ok ==> {
                ||| release == notice
                ||| cn_or_kr && dot_zero && day_number(notice) - day_number(release) <= 1
                ||| data_file == DataFile::Cn && spec_version_text(v.game_version@)
                    == "2025.10.23.0000.0000"@
            }
            &&& data_file == DataFile::Cn && !dot_zero && release != notice && spec_version_text(
                v.game_version@,
            ) != "2025.10.23.0000.0000"@ ==> spec_check_update_notice(v, info, data_file)
                == Err::<(), NoticeCheckError>(NoticeCheckError::ReleaseDateMismatch)
            &&& !cn_or_kr && release != notice ==> spec_check_update_notice(v, info, data_file)
                == Err::<(), NoticeCheckError>(NoticeCheckError::ReleaseDateMismatch)
            &&& data_file == DataFile::Kr && !dot_zero && release != notice
                ==> spec_check_update_notice(v, info, data_file) == Err::<(), NoticeCheckError>(
                NoticeCheckError::ReleaseDateMismatch,
            )
            &&& cn_or_kr && dot_zero && day_number(notice) - day_number(release) > 1
                ==> spec_check_update_notice(v, info, data_file) == Err::<(), NoticeCheckError>(
                NoticeCheckError::NoticeTooLate,
            )
        }),
{
}

/// Checks a release against its update notice.
pub fn check_update_notice(version: &Version, info: &UpdateNoticeInfo, data_file: DataFile) -> (res:
    Result<(), NoticeCheckError>)
    requires
        !spec_lacks_patch_notes(*version, *info, data_file),
    ensures
        res == spec_check_update_notice(*version, *info, data_file),
{
    release_date_check(version, info, data_file)?;
    let kind = &info.update_notice_type;
    if kind.is_hotfix() && version.patch_note_url.is_some() {
        return Err(NoticeCheckError::HotfixWithPatchNotes);
    }
    if let Some(url) = kind.patch_note_url() {
        let matches = match &version.patch_note_url {
            Some(own) => crate::text::str_eq(own.as_str(), url.as_str()),
            None => false,
        };
        if !matches {
            return Err(NoticeCheckError::PatchNoteUrlMismatch);
        }
    }
    if let Some(name) = kind.patch_name() {
        if !crate::text::str_eq(version.version_name.as_str(), name.as_str()) {
            return Err(NoticeCheckError::PatchNameMismatch);
        }
    }
    if let Some(game_version) = kind.game_version() {
        if !version.game_version.same(game_version) {
            return Err(NoticeCheckError::GameVersionMismatch);
        }
    }
    Ok(())
}

/// A release that disagrees with its update notice, and how.
#[derive(Clone, Copy, Debug, PartialEq, Eq, Structural)]
pub struct NoticeMismatch {
    pub index: usize,
    pub error: NoticeCheckError,
}

/// The notice of the release at `i`, if there is one.
pub open spec fn notice_at(notices: Seq<Option<UpdateNoticeInfo>>, i: int) -> Option<UpdateNoticeInfo> {
    if 0 <= i < notices.len() {
        notices[i]
    } else {
        None
    }
}

/// The release at `i` agrees with its notice, or has none.
pub open spec fn agrees_with_notice(
    versions: Seq<Version>,
    notices: Seq<Option<UpdateNoticeInfo>>,
    i: int,
    data_file: DataFile,
) -> bool {
    match notice_at(notices, i) {
        Some(info) => spec_check_update_notice(versions[i], info, data_file) is Ok,
        None => true,
    }
}

/// The release at `i` does not lack the patch note link its notice names, if it has a notice.
pub open spec fn checkable_at(
    versions: Seq<Version>,
    notices: Seq<Option<UpdateNoticeInfo>>,
    i: int,
    data_file: DataFile,
) -> bool {
    match notice_at(notices, i) {
        Some(info) => !spec_lacks_patch_notes(versions[i], info, data_file),
        None => true,
    }
}

/// The releases are checked in order and the check stops at the first that disagrees; no
/// release the check reaches lacks the patch note link its notice names.
pub open spec fn notices_checkable(
    versions: Seq<Version>,
    notices: Seq<Option<UpdateNoticeInfo>>,
    data_file: DataFile,
) -> bool {
    forall|i: int|
        0 <= i < versions.len() && (forall|k: int|
            0 <= k < i ==> #[trigger] agrees_with_notice(versions, notices, k, data_file))
            ==> #[trigger] checkable_at(versions, notices, i, data_file)
}

/// The release that `check_versions_update_notices` would reach and that lacks the patch note
/// link its notice names; `None` when there is none, which is when the check may be run.
pub fn first_lacking_patch_notes(
    versions: &[Version],
    notices: &[Option<UpdateNoticeInfo>],
    data_file: DataFile,
) -> (res: Option<usize>)
    ensures
        match res {
            Some(i) => {
                &&& i < versions@.len()
                &&& forall|k: int| 0 <= k < i ==> #[trigger] agrees_with_notice(versions@, notices@, k, data_file)
                &&& !checkable_at(versions@, notices@, i as int, data_file)
            },
            None => notices_checkable(versions@, notices@, data_file),
        },
{
    let mut i: usize = 0;
    while i < versions.len()
        invariant
            i <= versions@.len(),
            forall|k: int| 0 <= k < i ==> #[trigger] agrees_with_notice(versions@, notices@, k, data_file),
            forall|k: int| 0 <= k < i ==> #[trigger] checkable_at(versions@, notices@, k, data_file),
        decreases versions@.len() - i,
    {
        if i < notices.len() {
            match &notices[i] {
                Some(info) => {
                    if lacks_patch_notes(&versions[i], info, data_file) {
                        return Some(i);
                    }
                    if check_update_notice(&versions[i], info, data_file).is_err() {
                        assert(!agrees_with_notice(versions@, notices@, i as int, data_file));
                        assert(checkable_at(versions@, notices@, i as int, data_file));
                        assert forall|j: int|
                            0 <= j < versions@.len() && (forall|k: int|
                                0 <= k < j ==> #[trigger] agrees_with_notice(versions@, notices@, k, data_file))
                                implies #[trigger] checkable_at(versions@, notices@, j, data_file) by {
                            if j > i {
                                assert(agrees_with_notice(versions@, notices@, i as int, data_file));
                            }
                        }
                        return None;
                    }
                },
                None => {},
            }
        }
        assert(agrees_with_notice(versions@, notices@, i as int, data_file));
        assert(checkable_at(versions@, notices@, i as int, data_file));
        i = i + 1;
    }
    None
}

/// Checks each release against its update notice (`notices[i]` belongs to `versions[i]`;
/// releases without a notice are skipped); the error names the first release that disagrees.
pub fn check_versions_update_notices(
    versions: &[Version],
    notices: &[Option<UpdateNoticeInfo>],
    data_file: DataFile,
) -> (res: Result<(), NoticeMismatch>)
    requires
        notices_checkable(versions@, notices@, data_file),
    ensures
        res is Ok <==> forall|i: int|
            0 <= i < versions@.len() ==> #[trigger] agrees_with_notice(versions@, notices@, i, data_file),
        res matches Err(m) ==> {
            &&& m.index < versions@.len()
            &&& notice_at(notices@, m.index as int) matches Some(info)
                && spec_check_update_notice(versions@[m.index as int], info, data_file) == Err::<(), NoticeCheckError>(m.error)
            &&& forall|i: int| 0 <= i < m.index ==> #[trigger] agrees_with_notice(versions@, notices@, i, data_file)
        },
{
    let mut i: usize = 0;
    while i < versions.len()
        invariant
            i <= versions@.len(),
            forall|k: int| 0 <= k < i ==> #[trigger] agrees_with_notice(versions@, notices@, k, data_file),
            notices_checkable(versions@, notices@, data_file),
        decreases versions@.len() - i,
    {
        if i < notices.len() {
            match &notices[i] {
                Some(info) => {
                    assert(checkable_at(versions@, notices@, i as int, data_file));
                    if let Err(error) = check_update_notice(&versions[i], info, data_file) {
                        assert(!agrees_with_notice(versions@, notices@, i as int, data_file));
                        return Err(NoticeMismatch { index: i, error });
                    }
                },
                None => {},
            }
        }
        assert(agrees_with_notice(versions@, notices@, i as int, data_file));
        i = i + 1;
    }
    Ok(())
}

/// Why an update notice cannot be read.
#[derive(Clone, Copy, Debug, PartialEq, Eq, Structural)]
pub enum UpdateNoticeParseError {
    InvalidSelector,
    /// A selection that must hold an element is empty.
    MissingElement,
    /// A selection that must hold one element holds more.
    UnexpectedElement,
    /// An element that must hold text holds none.
    MissingText,
    /// An element that must hold one text node holds more.
    UnexpectedText,
    InvalidDateTime,
    /// The publication time, converted to UTC, leaves the supported dates.
    DateTimeOutOfRange,
    InvalidRegex,
    /// A group of a matched pattern holds nothing.
    MissingCapture,
    MissingTimestamp,
    InvalidNumber,
    MissingMaintenanceEndTime,
    InvalidDate,
    InvalidTime,
    MissingHref,
    InvalidUrl,
    MissingPatchName,
    InvalidGameVersion(ParseGameVersionError),
    /// The notice is neither a hotfix nor links to patch notes.
    Unrecognized,
    /// The patch note link does not redirect anywhere.
    MissingLocation,
}

/// The one element a selection must hold.
pub open spec fn spec_single_element(document: Seq<char>, selector: Seq<char>, attribute: Seq<char>) -> Result<
    ElementView,
    UpdateNoticeParseError,
> {
    match spec_select(document, selector, attribute) {
        None => Err(UpdateNoticeParseError::InvalidSelector),
        Some(es) => if es.len() == 0 {
            Err(UpdateNoticeParseError::MissingElement)
        } else if es.len() > 1 {
            Err(UpdateNoticeParseError::UnexpectedElement)
        } else {
            Ok(es[0])
        },
    }
}

pub(crate) fn single_element(document: &str, selector: &str, attribute: &str) -> (res: Result<
    HtmlElement,
    UpdateNoticeParseError,
>)
    ensures
        match res {
            Ok(e) => spec_single_element(document@, selector@, attribute@) == Ok::<
                ElementView,
                UpdateNoticeParseError,
            >(e@),
            Err(x) => spec_single_element(document@, selector@, attribute@) == Err::<
                ElementView,
                UpdateNoticeParseError,
            >(x),
        },
{
    let mut es = match select_elements(document, selector, attribute) {
        Some(es) => es,
        None => return Err(UpdateNoticeParseError::InvalidSelector),
    };
    if es.len() == 0 {
        return Err(UpdateNoticeParseError::MissingElement);
    }
    if es.len() > 1 {
        return Err(UpdateNoticeParseError::UnexpectedElement);
    }
    let e = es.remove(0);
    Ok(e)
}

/// The date and time an element's one text node holds, read with `fmt`.
pub open spec fn spec_single_text_datetime(e: ElementView, fmt: Seq<char>) -> Result<
    DateTimeView,
    UpdateNoticeParseError,
> {
    if e.texts.len() == 0 {
        Err(UpdateNoticeParseError::MissingText)
    } else {
        match spec_chrono_parse_datetime(e.texts[0], fmt) {
            None => Err(UpdateNoticeParseError::InvalidDateTime),
            Some(dt) => if e.texts.len() > 1 {
                Err(UpdateNoticeParseError::UnexpectedText)
            } else {
                Ok(dt)
            },
        }
    }
}

pub(crate) fn single_text_datetime(e: &HtmlElement, fmt: &str) -> (res: Result<
    CalendarDateTime,
    UpdateNoticeParseError,
>)
    ensures
        match res {
            Ok(dt) => spec_single_text_datetime(e@, fmt@) == Ok::<
                DateTimeView,
                UpdateNoticeParseError,
            >(dt@),
            Err(x) => spec_single_text_datetime(e@, fmt@) == Err::<
                DateTimeView,
                UpdateNoticeParseError,
            >(x),
        },
{
    if e.texts.len() == 0 {
        return Err(UpdateNoticeParseError::MissingText);
    }
    let local = match chrono_parse_datetime(e.texts[0].as_str(), fmt) {
        Some(p) => CalendarDateTime::from_parts(p),
        None => return Err(UpdateNoticeParseError::InvalidDateTime),
    };
    if e.texts.len() > 1 {
        return Err(UpdateNoticeParseError::UnexpectedText);
    }
    Ok(local)
}

/// `utc` is the local time `local` in the zone `offset` seconds east of UTC, converted to UTC.
pub open spec fn is_utc_of(utc: DateTimeView, local: DateTimeView, offset: int) -> bool {
    instant_secs(utc) == instant_secs(local) - offset && utc.1.3 == local.1.3
}

/// The local time `local`, in the zone `offset` seconds east of UTC, falls in UTC on a day
/// that a date can be.
pub open spec fn utc_in_range(local: DateTimeView, offset: int) -> bool {
    instant_in_range(instant_secs(local) - offset)
}

pub(crate) fn to_utc(local: &CalendarDateTime, offset_secs: i32) -> (res: Result<
    CalendarDateTime,
    UpdateNoticeParseError,
>)
    requires
        -86_400 < offset_secs < 86_400,
        offset_secs % 60 == 0,
    ensures
        match res {
            Ok(u) => is_utc_of(u@, local@, offset_secs as int),
            Err(e) => e == UpdateNoticeParseError::DateTimeOutOfRange && !utc_in_range(
                local@,
                offset_secs as int,
            ),
        },
{
    proof {
        use_type_invariant(&local.date);
    }
    match local.local_to_utc(offset_secs) {
        Some(u) => Ok(u),
        None => Err(UpdateNoticeParseError::DateTimeOutOfRange),
    }
}

/// The patterns of every region's notices.
#[derive(Clone, Copy, Debug, PartialEq, Eq)]
pub struct UpdateNoticeRegexes {
    pub global: global::Regexes,
    pub cn: cn::Regexes,
    pub kr: kr::Regexes,
    pub tw: tw::Regexes,
}

/// A region's patterns that do not compile.
#[derive(Clone, Copy, Debug, PartialEq, Eq, Structural)]
pub enum RegexesError {
    Global,
    Cn,
    Kr,
    Tw,
}

pub open spec fn global_patterns_compile() -> bool {
    spec_regex_compiles(global::TIMESTAMP_PATTERN@) && spec_regex_compiles(global::HOTFIX_PATTERN@)
}

pub open spec fn cn_patterns_compile() -> bool {
    spec_regex_compiles(cn::GAME_VERSION_PATTERN@)
}

pub open spec fn kr_patterns_compile() -> bool {
    spec_regex_compiles(kr::PATCH_NAME_PATTERN@)
}

pub open spec fn tw_patterns_compile() -> bool {
    spec_regex_compiles(tw::MAINTENANCE_TIME_PATTERN@) && spec_regex_compiles(
        tw::PATCH_NAME_PATTERN@,
    )
}

impl UpdateNoticeRegexes {
    /// Every region's patterns, once it is known that they compile; the error names the first
    /// region (Global, CN, KR, TW) whose patterns do not.
    pub fn compile_all() -> (res: Result<UpdateNoticeRegexes, RegexesError>)
        ensures
            match res {
                Ok(r) => r.global.timestamp_re@ == global::TIMESTAMP_PATTERN@ && r.global.hotfix_re@
                    == global::HOTFIX_PATTERN@ && r.cn.game_version_re@ == cn::GAME_VERSION_PATTERN@
                    && r.kr.patch_name_re@ == kr::PATCH_NAME_PATTERN@ && r.tw.maintenance_time_re@
                    == tw::MAINTENANCE_TIME_PATTERN@ && r.tw.patch_name_re@ == tw::PATCH_NAME_PATTERN@
                    && global_patterns_compile() && cn_patterns_compile() && kr_patterns_compile()
                    && tw_patterns_compile(),
                Err(RegexesError::Global) => !global_patterns_compile(),
                Err(RegexesError::Cn) => global_patterns_compile() && !cn_patterns_compile(),
                Err(RegexesError::Kr) => global_patterns_compile() && cn_patterns_compile()
                    && !kr_patterns_compile(),
                Err(RegexesError::Tw) => global_patterns_compile() && cn_patterns_compile()
                    && kr_patterns_compile() && !tw_patterns_compile(),
            },
    {
        let global = match global::Regexes::compile_all() {
            Ok(r) => r,
            Err(_) => return Err(RegexesError::Global),
        };
        let cn = match cn::Regexes::compile_all() {
            Ok(r) => r,
            Err(_) => return Err(RegexesError::Cn),
        };
        let kr = match kr::Regexes::compile_all() {
            Ok(r) => r,
            Err(_) => return Err(RegexesError::Kr),
        };
        let tw = match tw::Regexes::compile_all() {
            Ok(r) => r,
            Err(_) => return Err(RegexesError::Tw),
        };
        Ok(UpdateNoticeRegexes { global, cn, kr, tw })
    }
}

} // verus!
