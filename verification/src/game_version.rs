//! Game versions: the `YYYY.MM.DD.PPPP.RRRR` names the game clients carry.
use vstd::prelude::*;
use crate::date::{
    Date, DateView, date_lt, valid_ymd, year_text, ymd_text, ymd_text_value, ymd_format, spec_chrono_parse_date, chrono_parse_date,
    chrono_format_date,
};
use crate::text::{
    text_lt, lemma_text_lt_concat, lemma_digits_text_order, zero_padded, spec_parse_u32, spec_rsplit_once, rsplit_once, parse_u32, format_zero_padded4,
};

verus! {

/// The format of the date part of a game version.
pub const VERSION_DATE_FORMAT: &'static str = "%Y.%m.%d";

/// A game version: the build date, then a part and a revision number.
#[derive(Clone, Copy, Debug, PartialEq, Eq, PartialOrd, Structural)]
pub struct GameVersion {
    pub date: Date,
    pub part: u32,
    pub revision: u32,
}

/// (date, part, revision)
pub type GameVersionView = (DateView, int, int);

impl View for GameVersion {
    type V = GameVersionView;

    open spec fn view(&self) -> GameVersionView {
        (self.date@, self.part as int, self.revision as int)
    }
}

/// Why a text is not a game version.
#[non_exhaustive]
#[derive(Clone, Copy, Debug, PartialEq, Eq, Structural)]
pub enum ParseGameVersionError {
    MissingParts,
    PartParsing,
}

/// A game version as text: the date as `%Y.%m.%d`, then part and revision as four digits or
/// more, all joined by dots.
pub open spec fn spec_version_text(v: GameVersionView) -> Seq<char> {
    ymd_text(v.0, '.') + seq!['.'] + zero_padded(v.1 as nat, 4) + seq!['.'] + zero_padded(
        v.2 as nat,
        4,
    )
}

/// How a text is read as a game version: split at the last two dots; the text before them is
/// the date (read by chrono with `%Y.%m.%d`), the two after are `u32` numbers.
pub open spec fn spec_parse_game_version(s: Seq<char>) -> Result<
    GameVersionView,
    ParseGameVersionError,
> {
    match spec_rsplit_once(s, '.') {
        None => Err(ParseGameVersionError::MissingParts),
        Some((rest, revision)) => match spec_rsplit_once(rest, '.') {
            None => Err(ParseGameVersionError::MissingParts),
            Some((date, part)) => {
                let d = spec_chrono_parse_date(date, VERSION_DATE_FORMAT@);
                let p = spec_parse_u32(part);
                let r = spec_parse_u32(revision);
                if d is Some && p is Some && r is Some {
                    Ok((d->0, p->0 as int, r->0 as int))
                } else {
                    Err(ParseGameVersionError::PartParsing)
                }
            },
        },
    }
}

/// What reading a game version gives when its date text has the plain shape
/// `year.MM.DD` (`ymd_text_value`): the version if the day exists and both numbers parse,
/// `PartParsing` otherwise; `None` when the text has not that shape.
pub open spec fn plain_parse_game_version(s: Seq<char>) -> Option<
    Result<GameVersionView, ParseGameVersionError>,
> {
    match spec_rsplit_once(s, '.') {
        None => None,
        Some((rest, revision)) => match spec_rsplit_once(rest, '.') {
            None => None,
            Some((date, part)) => match ymd_text_value(date, '.') {
                None => None,
                Some(d) => {
                    let p = spec_parse_u32(part);
                    let r = spec_parse_u32(revision);
                    if valid_ymd(d.0, d.1, d.2) && p is Some && r is Some {
                        Some(Ok((d, p->0 as int, r->0 as int)))
                    } else {
                        Some(Err(ParseGameVersionError::PartParsing))
                    }
                },
            },
        },
    }
}

/// The order of game versions: by date, then part, then revision.
pub open spec fn version_lt(a: GameVersionView, b: GameVersionView) -> bool {
    date_lt(a.0, b.0) || (a.0 == b.0 && (a.1 < b.1 || (a.1 == b.1 && a.2 < b.2)))
}

impl ParseGameVersionError {
    /// The message that describes the error.
    pub fn to_string(&self) -> (res: String)
        ensures
            res@ == (match self {
                ParseGameVersionError::MissingParts =>
                    "Failed to parse game version, some parts are missing from the name"@,
                ParseGameVersionError::PartParsing =>
                    "Failed to parse game version, some parts could not be parsed"@,
            }),
    {
        match self {
            ParseGameVersionError::MissingParts => String::from_str(
                "Failed to parse game version, some parts are missing from the name",
            ),
            ParseGameVersionError::PartParsing => String::from_str(
                "Failed to parse game version, some parts could not be parsed",
            ),
        }
    }
}

pub proof fn lemma_version_date_format()
    ensures
        VERSION_DATE_FORMAT@ == ymd_format('.'),
{
    reveal_strlit("%Y.%m.%d");
    assert(VERSION_DATE_FORMAT@ =~= ymd_format('.'));
}

impl GameVersion {
    /// The game version as text (`2026.01.30.0000.0000`).
    pub fn to_string(&self) -> (res: String)
        ensures
            res@ == spec_version_text(self@),
    {
        proof {
            lemma_version_date_format();
            reveal_strlit(".");
        }
        let mut s = chrono_format_date(&self.date, VERSION_DATE_FORMAT);
        let part = format_zero_padded4(self.part);
        let revision = format_zero_padded4(self.revision);
        s.append(".");
        s.append(part.as_str());
        s.append(".");
        s.append(revision.as_str());
        assert(s@ =~= spec_version_text(self@));
        s
    }

    /// Reads a game version from text. Every game version's own text reads back as that game
    /// version, and a text whose date part has the plain shape `year.MM.DD` but names a day
    /// that does not exist fails with `PartParsing`.
    pub fn from_str(s: &str) -> (res: Result<GameVersion, ParseGameVersionError>)
        ensures
            match res {
                Ok(v) => spec_parse_game_version(s@) == Ok::<
                    GameVersionView,
                    ParseGameVersionError,
                >(v@),
                Err(e) => spec_parse_game_version(s@) == Err::<GameVersionView, _>(e),
            },
            forall|v: GameVersion|
                v.date.wf() && s@ == #[trigger] spec_version_text(v@) ==> res == Ok::<
                    GameVersion,
                    ParseGameVersionError,
                >(v),
            plain_parse_game_version(s@) matches Some(r) ==> match res {
                Ok(v) => r == Ok::<GameVersionView, ParseGameVersionError>(v@),
                Err(e) => r == Err::<GameVersionView, ParseGameVersionError>(e),
            },
    {
        let ghost text = s@;
        let (rest, revision_str) = match rsplit_once(s, '.') {
            Some(pair) => pair,
            None => {
                proof {
                    Self::lemma_text_splits_at_dots(text);
                }
                return Err(ParseGameVersionError::MissingParts);
            },
        };
        let (date_str, part_str) = match rsplit_once(rest, '.') {
            Some(pair) => pair,
            None => {
                proof {
                    Self::lemma_text_splits_at_dots(text);
                }
                return Err(ParseGameVersionError::MissingParts);
            },
        };
        let date = chrono_parse_date(date_str, VERSION_DATE_FORMAT);
        let part = parse_u32(part_str);
        let revision = parse_u32(revision_str);
        proof {
            lemma_version_date_format();
            Self::lemma_text_splits_at_dots(text);
            assert forall|v: GameVersion|
                v.date.wf() && text == #[trigger] spec_version_text(v@) implies {
                &&& date matches Some(t) && (t.0 as int, t.1 as int, t.2 as int) == v.date@
                &&& part == Some(v.part)
                &&& revision == Some(v.revision)
            } by {
                crate::date::lemma_ymd_text_value(v.date@, '.');
                crate::text::lemma_parse_u32_zero_padded(v.part, 4);
                crate::text::lemma_parse_u32_zero_padded(v.revision, 4);
            }
        }
        match (date, part, revision) {
            (Some((y, m, d)), Some(part), Some(revision)) => {
                let v = GameVersion { date: Date::from_valid_ymd(y, m, d), part, revision };
                proof {
                    assert forall|w: GameVersion|
                        w.date.wf() && text == #[trigger] spec_version_text(w@) implies v == w by {
                        Date::lemma_view_injective(v.date, w.date);
                    }
                }
                Ok(v)
            },
            _ => Err(ParseGameVersionError::PartParsing),
        }
    }

    /// A game version's text splits at its last two dots into the date text and the two
    /// numbers.
    proof fn lemma_text_splits_at_dots(text: Seq<char>)
        ensures
            forall|v: GameVersion|
                text == #[trigger] spec_version_text(v@) ==> {
                    let rest = ymd_text(v.date@, '.') + seq!['.'] + zero_padded(v.part as nat, 4);
                    &&& spec_rsplit_once(text, '.') == Some(
                        (rest, zero_padded(v.revision as nat, 4)),
                    )
                    &&& spec_rsplit_once(rest, '.') == Some(
                        (ymd_text(v.date@, '.'), zero_padded(v.part as nat, 4)),
                    )
                },
    {
        assert forall|v: GameVersion| text == #[trigger] spec_version_text(v@) implies {
            let rest = ymd_text(v.date@, '.') + seq!['.'] + zero_padded(v.part as nat, 4);
            &&& spec_rsplit_once(text, '.') == Some((rest, zero_padded(v.revision as nat, 4)))
            &&& spec_rsplit_once(rest, '.') == Some(
                (ymd_text(v.date@, '.'), zero_padded(v.part as nat, 4)),
            )
        } by {
            let d = ymd_text(v.date@, '.');
            let p = zero_padded(v.part as nat, 4);
            let r = zero_padded(v.revision as nat, 4);
            let rest = d + seq!['.'] + p;
            crate::text::lemma_zero_padded(v.part as nat, 4);
            crate::text::lemma_zero_padded(v.revision as nat, 4);
            crate::text::lemma_digits_free_of(p, '.');
            crate::text::lemma_digits_free_of(r, '.');
            crate::text::lemma_last_index_append(rest, '.', r);
            crate::text::lemma_last_index_append(d, '.', p);
            assert(text =~= rest + seq!['.'] + r);
            assert((rest + seq!['.'] + r).subrange(0, rest.len() as int) =~= rest);
            assert((rest + seq!['.'] + r).subrange(rest.len() + 1int, text.len() as int) =~= r);
            assert((d + seq!['.'] + p).subrange(0, d.len() as int) =~= d);
            assert((d + seq!['.'] + p).subrange(d.len() + 1int, rest.len() as int) =~= p);
        }
    }

    /// Whether `self` is an earlier version than `other`.
    pub fn lt(&self, other: &GameVersion) -> (r: bool)
        ensures
            r == version_lt(self@, other@),
    {
        self.date.lt(&other.date) || (self.date.same_day(&other.date) && (self.part < other.part
            || (self.part == other.part && self.revision < other.revision)))
    }

    /// Whether two game versions are the same.
    pub fn same(&self, other: &GameVersion) -> (r: bool)
        ensures
            r == (*self == *other),
            r == (self@ == other@),
    {
        proof {
            Date::lemma_view_injective(self.date, other.date);
        }
        self.date.same_day(&other.date) && self.part == other.part && self.revision
            == other.revision
    }
}

impl core::str::FromStr for GameVersion {
    type Err = ParseGameVersionError;

    fn from_str(s: &str) -> (res: Result<GameVersion, ParseGameVersionError>)
        ensures
            match res {
                Ok(v) => spec_parse_game_version(s@) == Ok::<
                    GameVersionView,
                    ParseGameVersionError,
                >(v@),
                Err(e) => spec_parse_game_version(s@) == Err::<GameVersionView, _>(e),
            },
            forall|v: GameVersion|
                v.date.wf() && s@ == #[trigger] spec_version_text(v@) ==> res == Ok::<
                    GameVersion,
                    ParseGameVersionError,
                >(v),
            plain_parse_game_version(s@) matches Some(r) ==> match res {
                Ok(v) => r == Ok::<GameVersionView, ParseGameVersionError>(v@),
                Err(e) => r == Err::<GameVersionView, ParseGameVersionError>(e),
            },
    {
        GameVersion::from_str(s)
    }
}

/// Game versions are ordered strictly and totally: of two versions exactly one comes first,
/// unless they are the same, and the order is transitive.
pub proof fn lemma_version_order(a: GameVersion, b: GameVersion, c: GameVersion)
    ensures
        !version_lt(a@, a@),
        a != b ==> (version_lt(a@, b@) != version_lt(b@, a@)),
        a == b ==> !version_lt(a@, b@),
        version_lt(a@, b@) && version_lt(b@, c@) ==> version_lt(a@, c@),
{
    Date::lemma_view_injective(a.date, b.date);
}

/// Joining a part, a dot and a field keeps the order of the parts first, then of the fields,
/// when the parts and the fields have one length each.
proof fn lemma_dotted_order(pa: Seq<char>, pb: Seq<char>, fa: Seq<char>, fb: Seq<char>)
    requires
        pa.len() == pb.len(),
    ensures
        text_lt(pa + seq!['.'] + fa, pb + seq!['.'] + fb) == (text_lt(pa, pb) || (pa == pb
            && text_lt(fa, fb))),
        (pa + seq!['.'] + fa == pb + seq!['.'] + fb) == (pa == pb && fa == fb),
{
    lemma_text_lt_concat(pa + seq!['.'], fa, pb + seq!['.'], fb);
    lemma_text_lt_concat(pa, seq!['.'], pb, seq!['.']);
    assert(!text_lt(seq!['.'], seq!['.'])) by {
        assert(seq!['.'].drop_first() =~= Seq::<char>::empty());
        assert(!text_lt(Seq::<char>::empty(), Seq::<char>::empty()));
    }
}

/// A zero-padded field of a number that fits the width is ordered as text as the numbers
/// are, and is the same text exactly for the same number.
proof fn lemma_field_order(x: nat, y: nat, width: nat)
    requires
        width == 2 && x < 100 && y < 100 || width == 4 && x < 10000 && y < 10000,
    ensures
        zero_padded(x, width).len() == width,
        zero_padded(y, width).len() == width,
        text_lt(zero_padded(x, width), zero_padded(y, width)) == (x < y),
        (zero_padded(x, width) == zero_padded(y, width)) == (x == y),
{
    crate::text::lemma_zero_padded(x, width);
    crate::text::lemma_zero_padded(y, width);
    lemma_digits_text_order(zero_padded(x, width), zero_padded(y, width));
}

/// For game versions whose years have four digits and whose parts and revisions are at most
/// 9999, the order of the versions is the order of their texts (as `str` compares them), and
/// two such versions are the same exactly when their texts are.
pub proof fn lemma_version_order_matches_text(a: GameVersion, b: GameVersion)
    requires
        a.date.wf(),
        b.date.wf(),
        0 <= a.date@.0 <= 9999,
        0 <= b.date@.0 <= 9999,
        a.part <= 9999,
        a.revision <= 9999,
        b.part <= 9999,
        b.revision <= 9999,
    ensures
        version_lt(a@, b@) == text_lt(spec_version_text(a@), spec_version_text(b@)),
        (a == b) == (spec_version_text(a@) == spec_version_text(b@)),
{
    let (da, db) = (a.date@, b.date@);
    lemma_field_order(da.0 as nat, db.0 as nat, 4);
    lemma_field_order(da.1 as nat, db.1 as nat, 2);
    lemma_field_order(da.2 as nat, db.2 as nat, 2);
    lemma_field_order(a.part as nat, b.part as nat, 4);
    lemma_field_order(a.revision as nat, b.revision as nat, 4);
    let (ya, yb) = (year_text(da.0), year_text(db.0));
    let (ma, mb) = (zero_padded(da.1 as nat, 2), zero_padded(db.1 as nat, 2));
    let (ea, eb) = (zero_padded(da.2 as nat, 2), zero_padded(db.2 as nat, 2));
    let (pa, pb) = (zero_padded(a.part as nat, 4), zero_padded(b.part as nat, 4));
    let (ra, rb) = (zero_padded(a.revision as nat, 4), zero_padded(b.revision as nat, 4));
    assert(ya == zero_padded(da.0 as nat, 4));
    assert(yb == zero_padded(db.0 as nat, 4));
    let (s2a, s2b) = (ya + seq!['.'] + ma, yb + seq!['.'] + mb);
    let (s3a, s3b) = (s2a + seq!['.'] + ea, s2b + seq!['.'] + eb);
    let (s4a, s4b) = (s3a + seq!['.'] + pa, s3b + seq!['.'] + pb);
    lemma_dotted_order(ya, yb, ma, mb);
    lemma_dotted_order(s2a, s2b, ea, eb);
    lemma_dotted_order(s3a, s3b, pa, pb);
    lemma_dotted_order(s4a, s4b, ra, rb);
    assert(s3a == ymd_text(da, '.'));
    assert(s3b == ymd_text(db, '.'));
    assert(spec_version_text(a@) == s4a + seq!['.'] + ra);
    assert(spec_version_text(b@) == s4b + seq!['.'] + rb);
    Date::lemma_view_injective(a.date, b.date);
}

} // verus!
