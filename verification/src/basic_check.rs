//! The consistency rules every data file keeps on its own.
use vstd::prelude::*;
use crate::date::{date_le, date_lt};
use crate::version::Version;

verus! {

/// A rule of `check_versions_basic` that a data file breaks.
#[derive(Clone, Copy, Debug, PartialEq, Eq, Structural)]
pub enum BasicCheckError {
    /// The file holds no releases.
    NoVersions,
    /// The release at `index` was released before the date in its game version.
    GameVersionAfterRelease { index: usize },
    /// The game version dates of the releases at `index` and `index + 1` do not increase.
    DatesNotIncreasing { index: usize },
}

/// A release comes out on or after the day its game version was built.
pub open spec fn released_after_build(v: Version) -> bool {
    date_le(v.game_version.date@, v.release_date@)
}

/// The release at `i + 1` has a later game version date than the one at `i`.
pub open spec fn builds_increase(vs: Seq<Version>, i: int) -> bool {
    date_lt(vs[i].game_version.date@, vs[i + 1].game_version.date@)
}

pub open spec fn all_released_after_build(vs: Seq<Version>) -> bool {
    forall|i: int| 0 <= i < vs.len() ==> released_after_build(#[trigger] vs[i])
}

pub open spec fn all_builds_increase(vs: Seq<Version>) -> bool {
    forall|i: int| 0 <= i < vs.len() - 1 ==> #[trigger] builds_increase(vs, i)
}

/// Checks that the releases are not empty, that none was released before its game version's
/// date, and that the game version dates strictly increase; the error names the first rule
/// broken and the first place it is broken.
pub fn check_versions_basic(versions: &[Version]) -> (res: Result<(), BasicCheckError>)
    ensures
        res is Ok <==> (versions@.len() > 0 && all_released_after_build(versions@)
            && all_builds_increase(versions@)),
        (res == Err::<(), BasicCheckError>(BasicCheckError::NoVersions)) <==> versions@.len()
            == 0,
        res matches Err(BasicCheckError::GameVersionAfterRelease { index }) ==> index
            < versions@.len() && !released_after_build(versions@[index as int]) && forall|j: int|
            0 <= j < index ==> released_after_build(#[trigger] versions@[j]),
        res matches Err(BasicCheckError::DatesNotIncreasing { index }) ==> index + 1
            < versions@.len() && all_released_after_build(versions@) && !builds_increase(
            versions@,
            index as int,
        ) && forall|j: int| 0 <= j < index ==> #[trigger] builds_increase(versions@, j),
{
    let n = versions.len();
    if n == 0 {
        return Err(BasicCheckError::NoVersions);
    }
    let mut i: usize = 0;
    while i < n
        invariant
            n == versions@.len(),
            i <= n,
            forall|j: int| 0 <= j < i ==> released_after_build(#[trigger] versions@[j]),
        decreases n - i,
    {
        let version = &versions[i];
        if !version.game_version.date.le(&version.release_date) {
            return Err(BasicCheckError::GameVersionAfterRelease { index: i });
        }
        i = i + 1;
    }
    let mut i: usize = 0;
    while i + 1 < n
        invariant
            n == versions@.len(),
            n > 0,
            i + 1 <= n,
            all_released_after_build(versions@),
            forall|j: int| 0 <= j < i ==> #[trigger] builds_increase(versions@, j),
        decreases n - i,
    {
        if !versions[i].game_version.date.lt(&versions[i + 1].game_version.date) {
            assert(!builds_increase(versions@, i as int));
            return Err(BasicCheckError::DatesNotIncreasing { index: i });
        }
        i = i + 1;
    }
    Ok(())
}

/// Each release's build date is later than the one before it exactly when the build dates
/// increase strictly over the whole file: every release, the last one included, has a later
/// build date than every release before it.
pub proof fn lemma_builds_strictly_increase(vs: Seq<Version>)
    ensures
        all_builds_increase(vs) <==> forall|i: int, j: int|
            0 <= i < j < vs.len() ==> #[trigger] date_lt(
                vs[i].game_version.date@,
                vs[j].game_version.date@,
            ),
{
    if all_builds_increase(vs) {
        assert forall|i: int, j: int| 0 <= i < j < vs.len() implies #[trigger] date_lt(
            vs[i].game_version.date@,
            vs[j].game_version.date@,
        ) by {
            lemma_builds_chain(vs, i, j);
        }
    }
    if forall|i: int, j: int|
        0 <= i < j < vs.len() ==> #[trigger] date_lt(
            vs[i].game_version.date@,
            vs[j].game_version.date@,
        ) {
        assert forall|i: int| 0 <= i < vs.len() - 1 implies #[trigger] builds_increase(vs, i) by {
            assert(date_lt(vs[i].game_version.date@, vs[i + 1].game_version.date@));
        }
    }
}

proof fn lemma_builds_chain(vs: Seq<Version>, i: int, j: int)
    requires
        all_builds_increase(vs),
        0 <= i < j < vs.len(),
    ensures
        date_lt(vs[i].game_version.date@, vs[j].game_version.date@),
    decreases j - i,
{
    assert(builds_increase(vs, j - 1));
    if i < j - 1 {
        lemma_builds_chain(vs, i, j - 1);
    }
}

/// A file passes the release rule exactly when no release came out before the day its game
/// version was built.
pub proof fn lemma_released_after_build(vs: Seq<Version>)
    ensures
        all_released_after_build(vs) <==> forall|i: int|
            0 <= i < vs.len() ==> !#[trigger] date_lt(vs[i].release_date@, vs[i].game_version.date@),
{
    if all_released_after_build(vs) {
        assert forall|i: int| 0 <= i < vs.len() implies !#[trigger] date_lt(
            vs[i].release_date@,
            vs[i].game_version.date@,
        ) by {
            assert(released_after_build(vs[i]));
        }
    }
    if forall|i: int|
        0 <= i < vs.len() ==> !#[trigger] date_lt(vs[i].release_date@, vs[i].game_version.date@) {
        assert forall|i: int| 0 <= i < vs.len() implies released_after_build(#[trigger] vs[i]) by {
            assert(!date_lt(vs[i].release_date@, vs[i].game_version.date@));
        }
    }
}

} // verus!
