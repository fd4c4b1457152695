//! The text form of release dates in the data files (`2026-02-05`).
use vstd::prelude::*;
use crate::date::{Date, valid_ymd, ymd_text, ymd_text_value, ymd_format, spec_chrono_parse_date, chrono_parse_date, chrono_format_date};

verus! {

/// The format of release dates.
pub const RELEASE_DATE_FORMAT: &'static str = "%Y-%m-%d";

/// A text that is not a release date.
#[derive(Clone, Copy, Debug, PartialEq, Eq, Structural)]
pub struct InvalidReleaseDate;

pub proof fn lemma_release_date_format()
    ensures
        RELEASE_DATE_FORMAT@ == ymd_format('-'),
{
    reveal_strlit("%Y-%m-%d");
    assert(RELEASE_DATE_FORMAT@ =~= ymd_format('-'));
}

/// Writes a release date as `%Y-%m-%d`.
pub fn serialize(date: &Date) -> (res: String)
    ensures
        res@ == ymd_text(date@, '-'),
{
    proof {
        lemma_release_date_format();
    }
    chrono_format_date(date, RELEASE_DATE_FORMAT)
}

/// Reads a release date written as `%Y-%m-%d` (read by chrono). Every date's own text reads
/// back as that date, and a text of the plain shape `year-MM-DD` naming a day that does not
/// exist is an error.
pub fn deserialize(s: &str) -> (res: Result<Date, InvalidReleaseDate>)
    ensures
        match res {
            Ok(d) => spec_chrono_parse_date(s@, RELEASE_DATE_FORMAT@) == Some(d@),
            Err(_) => spec_chrono_parse_date(s@, RELEASE_DATE_FORMAT@) is None,
        },
        forall|d: Date| d.wf() && s@ == #[trigger] ymd_text(d@, '-') ==> res == Ok::<
            Date,
            InvalidReleaseDate,
        >(d),
        ymd_text_value(s@, '-') matches Some(v) ==> if valid_ymd(v.0, v.1, v.2) {
            res matches Ok(d) && d@ == v
        } else {
            res is Err
        },
{
    proof {
        lemma_release_date_format();
    }
    match chrono_parse_date(s, RELEASE_DATE_FORMAT) {
        Some((y, m, d)) => {
            let date = Date::from_valid_ymd(y, m, d);
            proof {
                assert forall|e: Date| e.wf() && s@ == #[trigger] ymd_text(e@, '-') implies date
                    == e by {
                    crate::date::lemma_ymd_text_value(e@, '-');
                    Date::lemma_view_injective(date, e);
                }
            }
            Ok(date)
        },
        None => {
            proof {
                assert forall|e: Date| e.wf() && s@ == #[trigger] ymd_text(e@, '-') implies false by {
                    crate::date::lemma_ymd_text_value(e@, '-');
                }
            }
            Err(InvalidReleaseDate)
        },
    }
}

} // verus!
