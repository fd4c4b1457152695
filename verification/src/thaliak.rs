//! The base game versions that Thaliak (a service that watches the patch servers) has seen,
//! and how the releases of a data file are checked against them.
use vstd::prelude::*;
use crate::data_file::DataFile;
use crate::date::{CalendarDateTime, Date, spec_chrono_parse_rfc3339_utc};
use crate::game_version::{
    GameVersion, GameVersionView, ParseGameVersionError, spec_parse_game_version, version_lt,
};
use crate::version::Version;

verus! {

/// A point in time in UTC, as Thaliak reports it.
#[derive(Clone, Copy, Debug, PartialEq, Eq, Structural)]
pub struct DateTime(pub CalendarDateTime);

impl DateTime {
    /// The UTC day.
    pub fn date_naive(&self) -> (r: Date)
        ensures
            r == self.0.date,
    {
        self.0.date
    }

    /// Reads an RFC 3339 timestamp (read by chrono, converted to UTC).
    pub fn parse_rfc3339(s: &str) -> (r: Option<DateTime>)
        ensures
            match r {
                Some(d) => spec_chrono_parse_rfc3339_utc(s@) == Some(d.0@),
                None => spec_chrono_parse_rfc3339_utc(s@) is None,
            },
    {
        match crate::date::chrono_parse_rfc3339_utc(s) {
            Some(p) => Some(DateTime(CalendarDateTime::from_parts(p))),
            None => None,
        }
    }
}

/// One version entry of the service's reply, as it arrives: either timestamp may be missing.
#[derive(Clone, Debug, PartialEq)]
pub struct RepositoryVersion {
    pub version_string: String,
    pub first_seen: Option<DateTime>,
    pub first_offered: Option<DateTime>,
}

/// A version the service has seen, with when it was first seen and first offered.
#[derive(Clone, Debug, PartialEq)]
pub struct BaseGameRepositoriesResponseVersion {
    pub version_string: String,
    pub first_seen: DateTime,
    pub first_offered: DateTime,
}

/// The service's reply as it arrives: each region's list may be missing.
#[derive(Clone, Debug, PartialEq)]
pub struct ResponseData {
    pub global: Option<Vec<RepositoryVersion>>,
    pub kr: Option<Vec<RepositoryVersion>>,
    pub cn: Option<Vec<RepositoryVersion>>,
}

/// The versions the service has seen, per region it watches.
#[derive(Clone, Debug, PartialEq)]
pub struct BaseGameRepositoriesResponse {
    pub global: Vec<BaseGameRepositoriesResponseVersion>,
    pub cn: Vec<BaseGameRepositoriesResponseVersion>,
    pub kr: Vec<BaseGameRepositoriesResponseVersion>,
}

/// Why a reply of the service cannot be used.
#[derive(Clone, Copy, Debug, PartialEq, Eq, Structural)]
pub enum ThaliakResponseError {
    /// A version entry has neither a first-seen nor a first-offered timestamp.
    MissingTimestamps,
    MissingGlobal,
    MissingCn,
    MissingKr,
}

/// The two timestamps of an entry: where one is missing, the other stands for both.
pub open spec fn filled_timestamps(seen: Option<DateTime>, offered: Option<DateTime>) -> Option<
    (DateTime, DateTime),
> {
    match (seen, offered) {
        (None, None) => None,
        (None, Some(o)) => Some((o, o)),
        (Some(s), None) => Some((s, s)),
        (Some(s), Some(o)) => Some((s, o)),
    }
}

/// `out` is `raw` with each entry's timestamps filled in.
pub open spec fn converted_list(
    raw: Seq<RepositoryVersion>,
    out: Seq<BaseGameRepositoriesResponseVersion>,
) -> bool {
    &&& out.len() == raw.len()
    &&& forall|i: int|
        0 <= i < raw.len() ==> {
            &&& (#[trigger] out[i]).version_string == raw[i].version_string
            &&& filled_timestamps(raw[i].first_seen, raw[i].first_offered) == Some(
                (out[i].first_seen, out[i].first_offered),
            )
        }
}

/// Every entry of the list has at least one timestamp.
pub open spec fn all_have_timestamps(raw: Seq<RepositoryVersion>) -> bool {
    forall|i: int|
        0 <= i < raw.len() ==> (#[trigger] raw[i]).first_seen is Some || raw[i].first_offered is Some
}

impl BaseGameRepositoriesResponseVersion {
    /// Takes an entry of the reply; an entry with one timestamp uses it for both, one with
    /// none is an error.
    pub fn try_from(value: RepositoryVersion) -> (res: Result<
        BaseGameRepositoriesResponseVersion,
        ThaliakResponseError,
    >)
        ensures
            match res {
                Ok(v) => v.version_string == value.version_string && filled_timestamps(
                    value.first_seen,
                    value.first_offered,
                ) == Some((v.first_seen, v.first_offered)),
                Err(e) => e == ThaliakResponseError::MissingTimestamps && filled_timestamps(
                    value.first_seen,
                    value.first_offered,
                ) is None,
            },
    {
        let RepositoryVersion { version_string, first_seen, first_offered } = value;
        let (first_seen, first_offered) = match (first_seen, first_offered) {
            (None, None) => return Err(ThaliakResponseError::MissingTimestamps),
            (None, Some(first_offered)) => (first_offered, first_offered),
            (Some(first_seen), None) => (first_seen, first_seen),
            (Some(first_seen), Some(first_offered)) => (first_seen, first_offered),
        };
        Ok(BaseGameRepositoriesResponseVersion { version_string, first_seen, first_offered })
    }
}

fn copy_entry(r: &RepositoryVersion) -> (c: RepositoryVersion)
    ensures
        c == *r,
{
    RepositoryVersion {
        version_string: r.version_string.clone(),
        first_seen: r.first_seen,
        first_offered: r.first_offered,
    }
}

/// Converts one region's list of entries.
fn repository_versions_into(raw: &Vec<RepositoryVersion>) -> (res: Result<
    Vec<BaseGameRepositoriesResponseVersion>,
    ThaliakResponseError,
>)
    ensures
        match res {
            Ok(out) => all_have_timestamps(raw@) && converted_list(raw@, out@),
            Err(e) => e == ThaliakResponseError::MissingTimestamps && !all_have_timestamps(raw@),
        },
{
    let mut out: Vec<BaseGameRepositoriesResponseVersion> = Vec::new();
    let mut i: usize = 0;
    while i < raw.len()
        invariant
            i <= raw@.len(),
            all_have_timestamps(raw@.subrange(0, i as int)),
            converted_list(raw@.subrange(0, i as int), out@),
        decreases raw@.len() - i,
    {
        let entry = copy_entry(&raw[i]);
        match BaseGameRepositoriesResponseVersion::try_from(entry) {
            Ok(v) => {
                out.push(v);
            },
            Err(e) => {
                assert(!((raw@[i as int]).first_seen is Some || raw@[i as int].first_offered is Some));
                return Err(e);
            },
        }
        assert(raw@.subrange(0, i + 1).drop_last() =~= raw@.subrange(0, i as int));
        i = i + 1;
        assert forall|j: int| 0 <= j < i implies (#[trigger] raw@.subrange(0, i as int)[j]).first_seen is Some
            || raw@.subrange(0, i as int)[j].first_offered is Some by {
            if j < i - 1 {
                assert(raw@.subrange(0, i as int)[j] == raw@.subrange(0, i - 1)[j]);
            }
        }
        assert forall|j: int| 0 <= j < i implies {
            &&& (#[trigger] out@[j]).version_string == raw@.subrange(0, i as int)[j].version_string
            &&& filled_timestamps(raw@.subrange(0, i as int)[j].first_seen, raw@.subrange(0, i as int)[j].first_offered) == Some(
                (out@[j].first_seen, out@[j].first_offered),
            )
        } by {
            if j < i - 1 {
                assert(raw@.subrange(0, i as int)[j] == raw@.subrange(0, i - 1)[j]);
            }
        }
    }
    assert(raw@.subrange(0, raw@.len() as int) =~= raw@);
    Ok(out)
}

/// The reply's lists, converted.
pub open spec fn response_of(value: ResponseData, res: BaseGameRepositoriesResponse) -> bool {
    &&& value.global matches Some(g) && converted_list(g@, res.global@)
    &&& value.cn matches Some(c) && converted_list(c@, res.cn@)
    &&& value.kr matches Some(k) && converted_list(k@, res.kr@)
}

/// The list is present and all its entries have a timestamp.
pub open spec fn list_usable(list: Option<Vec<RepositoryVersion>>) -> bool {
    list matches Some(l) && all_have_timestamps(l@)
}

/// The list is present and an entry of it has no timestamp.
pub open spec fn list_has_gap(list: Option<Vec<RepositoryVersion>>) -> bool {
    list matches Some(l) && !all_have_timestamps(l@)
}

impl BaseGameRepositoriesResponse {
    /// Takes the reply: the global, then the CN, then the KR list must be present, and every
    /// entry must have a timestamp; the error names the first thing missing in that order.
    pub fn try_from(value: ResponseData) -> (res: Result<
        BaseGameRepositoriesResponse,
        ThaliakResponseError,
    >)
        ensures
            match res {
                Ok(r) => response_of(value, r),
                Err(ThaliakResponseError::MissingGlobal) => value.global is None,
                Err(ThaliakResponseError::MissingCn) => list_usable(value.global) && value.cn is None,
                Err(ThaliakResponseError::MissingKr) => list_usable(value.global) && list_usable(
                    value.cn,
                ) && value.kr is None,
                Err(ThaliakResponseError::MissingTimestamps) => {
                    ||| list_has_gap(value.global)
                    ||| list_usable(value.global) && list_has_gap(value.cn)
                    ||| list_usable(value.global) && list_usable(value.cn) && list_has_gap(
                        value.kr,
                    )
                },
            },
    {
        let global = match &value.global {
            Some(g) => repository_versions_into(g)?,
            None => return Err(ThaliakResponseError::MissingGlobal),
        };
        let cn = match &value.cn {
            Some(c) => repository_versions_into(c)?,
            None => return Err(ThaliakResponseError::MissingCn),
        };
        let kr = match &value.kr {
            Some(k) => repository_versions_into(k)?,
            None => return Err(ThaliakResponseError::MissingKr),
        };
        Ok(BaseGameRepositoriesResponse { global, cn, kr })
    }

    /// The versions seen for a region; the service does not watch TW.
    pub fn versions_for(&self, data_file: DataFile) -> (res: Option<
        &Vec<BaseGameRepositoriesResponseVersion>,
    >)
        ensures
            res == (match data_file {
                DataFile::Global => Some(&self.global),
                DataFile::Cn => Some(&self.cn),
                DataFile::Kr => Some(&self.kr),
                DataFile::Tw => None,
            }),
    {
        match data_file {
            DataFile::Global => Some(&self.global),
            DataFile::Cn => Some(&self.cn),
            DataFile::Kr => Some(&self.kr),
            DataFile::Tw => None,
        }
    }
}

/// Global's game version that the service saw on its release day but was offered a day late.
pub open spec fn late_offer_exception() -> Seq<char> {
    "2025.06.10.0000.0000"@
}

/// A rule of `check_versions_thaliak` that a data file breaks.
#[derive(Clone, Copy, Debug, PartialEq, Eq, Structural)]
pub enum ThaliakCheckError {
    /// The service saw entry `entry` on the release day of release `version`, but offered it
    /// on another day, and it is not the known exception.
    OfferedOnOtherDay { version: usize, entry: usize },
    /// The service saw a greater game version (entry `entry`) on the release day of release
    /// `version`.
    GreaterVersionSeen { version: usize, entry: usize },
    /// The service did not see the game version of release `version` on its release day.
    NotSeen { version: usize },
}

/// The service first saw the entry on the release day.
pub open spec fn seen_on_release_day(v: Version, t: BaseGameRepositoriesResponseVersion) -> bool {
    t.first_seen.0.date@ == v.release_date@
}

/// The entry was offered on the day it was seen, or it is the known exception of Global.
pub open spec fn offered_when_seen(t: BaseGameRepositoriesResponseVersion, data_file: DataFile) -> bool {
    t.first_seen.0.date@ == t.first_offered.0.date@ || (data_file == DataFile::Global
        && t.version_string@ == late_offer_exception())
}

/// The entry's version text is no game version (such as a HIST patch), or it is the
/// release's game version or an earlier one.
pub open spec fn not_greater(v: Version, t: BaseGameRepositoriesResponseVersion) -> bool {
    match spec_parse_game_version(t.version_string@) {
        Ok(g) => g == v.game_version@ || version_lt(g, v.game_version@),
        Err(_) => true,
    }
}

/// An entry keeps the rules for a release.
pub open spec fn entry_ok(v: Version, t: BaseGameRepositoriesResponseVersion, data_file: DataFile) -> bool {
    seen_on_release_day(v, t) ==> offered_when_seen(t, data_file) && not_greater(v, t)
}

/// The entry shows the release's game version on its release day.
pub open spec fn entry_confirms(v: Version, t: BaseGameRepositoriesResponseVersion) -> bool {
    seen_on_release_day(v, t) && spec_parse_game_version(t.version_string@) == Ok::<_, crate::game_version::ParseGameVersionError>(v.game_version@)
}

/// A release keeps the rules against all entries, and one entry confirms it.
pub open spec fn release_confirmed(
    v: Version,
    ts: Seq<BaseGameRepositoriesResponseVersion>,
    data_file: DataFile,
) -> bool {
    &&& forall|j: int| 0 <= j < ts.len() ==> entry_ok(v, #[trigger] ts[j], data_file)
    &&& exists|j: int| 0 <= j < ts.len() && entry_confirms(v, #[trigger] ts[j])
}

/// Checks each release against the versions the service saw on its release day: each of them
/// is offered that day (but for one known exception of Global), none is a greater game version,
/// and one of them is the release's game version. Without entries (TW) nothing is checked.
/// The error names the first release that fails, and within it the first failing entry.
pub fn check_versions_thaliak(
    versions: &[Version],
    thaliak_versions: Option<&[BaseGameRepositoriesResponseVersion]>,
    data_file: DataFile,
) -> (res: Result<(), ThaliakCheckError>)
    ensures
        thaliak_versions is None ==> res is Ok,
        thaliak_versions matches Some(ts) ==> {
            &&& res is Ok <==> forall|i: int|
                0 <= i < versions@.len() ==> release_confirmed(
                    #[trigger] versions@[i],
                    ts@,
                    data_file,
                )
            &&& res matches Err(ThaliakCheckError::OfferedOnOtherDay { version, entry }) ==> {
                &&& version < versions@.len() && entry < ts@.len()
                &&& forall|i: int| 0 <= i < version ==> release_confirmed(#[trigger] versions@[i], ts@, data_file)
                &&& forall|j: int| 0 <= j < entry ==> entry_ok(versions@[version as int], #[trigger] ts@[j], data_file)
                &&& seen_on_release_day(versions@[version as int], ts@[entry as int])
                &&& !offered_when_seen(ts@[entry as int], data_file)
            }
            &&& res matches Err(ThaliakCheckError::GreaterVersionSeen { version, entry }) ==> {
                &&& version < versions@.len() && entry < ts@.len()
                &&& forall|i: int| 0 <= i < version ==> release_confirmed(#[trigger] versions@[i], ts@, data_file)
                &&& forall|j: int| 0 <= j < entry ==> entry_ok(versions@[version as int], #[trigger] ts@[j], data_file)
                &&& seen_on_release_day(versions@[version as int], ts@[entry as int])
                &&& offered_when_seen(ts@[entry as int], data_file)
                &&& !not_greater(versions@[version as int], ts@[entry as int])
            }
            &&& res matches Err(ThaliakCheckError::NotSeen { version }) ==> {
                &&& version < versions@.len()
                &&& forall|i: int| 0 <= i < version ==> release_confirmed(#[trigger] versions@[i], ts@, data_file)
                &&& forall|j: int| 0 <= j < ts@.len() ==> entry_ok(versions@[version as int], #[trigger] ts@[j], data_file)
                &&& !exists|j: int| 0 <= j < ts@.len() && entry_confirms(versions@[version as int], #[trigger] ts@[j])
            }
        },
{
    let ts = match thaliak_versions {
        Some(ts) => ts,
        None => return Ok(()),
    };
    let n = versions.len();
    let m = ts.len();
    let mut i: usize = 0;
    while i < n
        invariant
            thaliak_versions == Some(ts),
            n == versions@.len(),
            m == ts@.len(),
            i <= n,
            forall|k: int| 0 <= k < i ==> release_confirmed(#[trigger] versions@[k], ts@, data_file),
        decreases n - i,
    {
        let version = &versions[i];
        let mut seen = false;
        let mut j: usize = 0;
        while j < m
            invariant
                thaliak_versions == Some(ts),
                n == versions@.len(),
                m == ts@.len(),
                i < n,
                forall|k: int| 0 <= k < i ==> release_confirmed(#[trigger] versions@[k], ts@, data_file),
                j <= m,
                version == &versions@[i as int],
                forall|k: int| 0 <= k < j ==> entry_ok(*version, #[trigger] ts@[k], data_file),
                seen <==> exists|k: int| 0 <= k < j && entry_confirms(*version, #[trigger] ts@[k]),
            decreases m - j,
        {
            let t = &ts[j];
            if t.first_seen.0.date.same_day(&version.release_date) {
                if !t.first_seen.0.date.same_day(&t.first_offered.0.date) {
                    let exception = data_file == DataFile::Global && crate::text::str_eq(
                        t.version_string.as_str(),
                        "2025.06.10.0000.0000",
                    );
                    if !exception {
                        return Err(ThaliakCheckError::OfferedOnOtherDay { version: i, entry: j });
                    }
                }
                match GameVersion::from_str(t.version_string.as_str()) {
                    Ok(g) => {
                        if g.same(&version.game_version) {
                            seen = true;
                        } else if !g.lt(&version.game_version) {
                            return Err(ThaliakCheckError::GreaterVersionSeen { version: i, entry: j });
                        }
                    },
                    Err(_) => {},
                }
            }
            assert(entry_ok(*version, ts@[j as int], data_file));
            j = j + 1;
        }
        if !seen {
            return Err(ThaliakCheckError::NotSeen { version: i });
        }
        i = i + 1;
    }
    Ok(())
}

/// A release passes against the versions the service saw only if none of the versions it first
/// saw on the release day is greater than the release's own game version (by date, then part,
/// then revision), and only if one of them is that game version.
pub proof fn lemma_release_confirmed_means(
    v: Version,
    ts: Seq<BaseGameRepositoriesResponseVersion>,
    data_file: DataFile,
)
    ensures
        release_confirmed(v, ts, data_file) ==> forall|j: int, g: GameVersionView|
            0 <= j < ts.len() && ts[j].first_seen.0.date@ == v.release_date@
                && #[trigger] spec_parse_game_version(ts[j].version_string@) == Ok::<
                GameVersionView,
                ParseGameVersionError,
            >(g) ==> !#[trigger] version_lt(v.game_version@, g),
        release_confirmed(v, ts, data_file) ==> exists|j: int|
            0 <= j < ts.len() && ts[j].first_seen.0.date@ == v.release_date@
                && #[trigger] spec_parse_game_version(ts[j].version_string@) == Ok::<
                GameVersionView,
                ParseGameVersionError,
            >(v.game_version@),
{
    if release_confirmed(v, ts, data_file) {
        assert forall|j: int, g: GameVersionView|
            0 <= j < ts.len() && ts[j].first_seen.0.date@ == v.release_date@
                && #[trigger] spec_parse_game_version(ts[j].version_string@) == Ok::<
                GameVersionView,
                ParseGameVersionError,
            >(g) implies !#[trigger] version_lt(v.game_version@, g) by {
            assert(entry_ok(v, ts[j], data_file));
        }
        let j = choose|j: int| 0 <= j < ts.len() && entry_confirms(v, #[trigger] ts[j]);
        assert(spec_parse_game_version(ts[j].version_string@) == Ok::<
            GameVersionView,
            ParseGameVersionError,
        >(v.game_version@));
    }
}

} // verus!
