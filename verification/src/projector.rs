//! The result projector: turns one raw joined catalog row into a
//! display-ready search result record.

use vstd::prelude::*;
use vstd::string::*;

use crate::support::Color;
use crate::support::DecodeError;
use crate::support::SupportType;
use crate::support::decoded_film_type;
use crate::support::decoded_support_type;
use crate::support::letter_for_support_type;
use crate::support::support_color;
use crate::support::support_letter;
use crate::text::signed_decimal_seq;
use crate::text::signed_decimal_string;

verus! {

/// One raw row of the search query, as plain nullable column values.
pub struct RawSearchRow {
    /// The series name of the film record, when the row has one.
    pub serie_name: Option<String>,
    /// The name of the film or episode record, when the row has one.
    pub name: Option<String>,
    /// The tape title; never null in the store.
    pub title: String,
    /// The raw film-kind column.
    pub film_type: Option<i32>,
    /// The raw support-kind column.
    pub support_code: i64,
    /// The season number, when present and numeric.
    pub season: Option<i32>,
    /// The episode number, when present and numeric.
    pub episode_number: Option<i32>,
    /// The free-text origin of the tape.
    pub origin: Option<String>,
    /// Whether the item is on loan.
    pub on_loan: Option<bool>,
    /// The opaque support identifier.
    pub support_key: Option<i32>,
    /// The opaque film identifier.
    pub film_key: Option<i32>,
}

/// One search result, ready for display.
#[derive(Debug, PartialEq, Eq)]
pub struct SearchResultRecord {
    /// The derived human-readable name.
    pub display_name: String,
    /// The decoded support kind.
    pub support_kind: SupportType,
    /// The derived display color.
    pub support_color: Color,
    /// The fixed one-character label of the support kind.
    pub support_label: String,
    /// The opaque film identifier, used only to re-fetch detail.
    pub film_key: i32,
    /// The opaque support identifier, used only to re-fetch detail.
    pub support_key: i32,
}

/// Whether a row names an episodic television record: it is not a
/// standalone file and its film-kind column decodes to television.
pub open spec fn is_television_row(row: RawSearchRow) -> bool {
    &&& decoded_support_type(row.support_code) != Some(SupportType::ComputerFile)
    &&& match row.film_type {
        Some(code) => decoded_film_type(code) is Some,
        None => false,
    }
}

/// The base display name of a television row: series and episode joined
/// when both are present, else whichever is present, else empty.
pub open spec fn tv_base_name(row: RawSearchRow) -> Seq<char> {
    match (row.serie_name, row.name) {
        (Some(serie), Some(name)) => serie@ + " -- "@ + name@,
        (Some(serie), None) => serie@,
        (None, Some(name)) => name@,
        (None, None) => Seq::empty(),
    }
}

/// The display name of a row:
/// standalone files show the tape title verbatim; television rows show the
/// base name, with the season-and-episode suffix when both numbers are
/// present; other rows show the film name when there is one, else the tape
/// title.
pub open spec fn display_name_spec(row: RawSearchRow) -> Seq<char> {
    if decoded_support_type(row.support_code) == Some(SupportType::ComputerFile) {
        row.title@
    } else if is_television_row(row) {
        match (row.season, row.episode_number) {
            (Some(season), Some(episode)) => tv_base_name(row) + " ("@ + signed_decimal_seq(
                season * 100 + episode,
            ) + ")"@,
            _ => tv_base_name(row),
        }
    } else {
        match row.name {
            Some(name) => name@,
            None => row.title@,
        }
    }
}

/// The origin text of a row, with a null column read as the empty text.
pub open spec fn origin_view(row: RawSearchRow) -> Seq<char> {
    match row.origin {
        Some(origin) => origin@,
        None => Seq::empty(),
    }
}

/// The on-loan flag of a row, with a null column read as false.
pub open spec fn on_loan_view(row: RawSearchRow) -> bool {
    match row.on_loan {
        Some(flag) => flag,
        None => false,
    }
}

/// A null identifier column reads as zero.
pub open spec fn key_view(key: Option<i32>) -> i32 {
    match key {
        Some(k) => k,
        None => 0,
    }
}

/// What the projector promises of one projected record.
pub open spec fn projected(row: RawSearchRow, rec: SearchResultRecord) -> bool {
    &&& decoded_support_type(row.support_code) == Some(rec.support_kind)
    &&& rec.display_name@ == display_name_spec(row)
    &&& rec.support_color == support_color(rec.support_kind, origin_view(row), on_loan_view(row))
    &&& rec.support_label@ == support_letter(rec.support_kind)
    &&& rec.film_key == key_view(row.film_key)
    &&& rec.support_key == key_view(row.support_key)
}

fn build_display_name(row: &RawSearchRow, kind: SupportType) -> (s: String)
    requires
        decoded_support_type(row.support_code) == Some(kind),
    ensures
        s@ == display_name_spec(*row),
{
    if kind == SupportType::ComputerFile {
        return row.title.clone();
    }
    let is_tv = match row.film_type {
        Some(code) => code == 1,
        None => false,
    };
    if is_tv {
        let base: String = match (&row.serie_name, &row.name) {
            (Some(serie), Some(name)) => {
                let mut b = serie.clone();
                b.append(" -- ");
                b.append(name.as_str());
                proof {
                    assert(b@ =~= tv_base_name(*row));
                }
                b
            },
            (Some(serie), None) => serie.clone(),
            (None, Some(name)) => name.clone(),
            (None, None) => String::new(),
        };
        match (row.season, row.episode_number) {
            (Some(season), Some(episode)) => {
                let code: i64 = (season as i64) * 100 + (episode as i64);
                let digits = signed_decimal_string(code);
                let mut b = base;
                b.append(" (");
                b.append(digits.as_str());
                b.append(")");
                proof {
                    assert(b@ =~= display_name_spec(*row));
                }
                b
            },
            _ => base,
        }
    } else {
        match &row.name {
            Some(name) => name.clone(),
            None => row.title.clone(),
        }
    }
}

/// Projects one raw query row into a display record.  Fails exactly when
/// the support-kind column holds an unrecognized value.
pub fn project_row(row: &RawSearchRow) -> (r: Result<SearchResultRecord, DecodeError>)
    ensures
        match r {
            Ok(rec) => projected(*row, rec),
            Err(e) => {
                &&& decoded_support_type(row.support_code) is None
                &&& e == DecodeError::UnknownSupportCode(row.support_code)
            },
        },
{
    let kind = match SupportType::from_code(row.support_code) {
        Ok(kind) => kind,
        Err(e) => {
            return Err(e);
        },
    };
    let display_name = build_display_name(row, kind);
    let origin: String = match &row.origin {
        Some(origin) => origin.clone(),
        None => String::new(),
    };
    let on_loan = match row.on_loan {
        Some(flag) => flag,
        None => false,
    };
    let color = crate::support::color_for_support(kind, origin, on_loan);
    let label = String::from_str(letter_for_support_type(kind));
    let film_key = match row.film_key {
        Some(k) => k,
        None => 0,
    };
    let support_key = match row.support_key {
        Some(k) => k,
        None => 0,
    };
    Ok(
        SearchResultRecord {
            display_name,
            support_kind: kind,
            support_color: color,
            support_label: label,
            film_key,
            support_key,
        },
    )
}

/// The search text wrapped in wildcards, as the store's substring
/// predicate wants it.
pub fn search_pattern(text: &str) -> (p: String)
    ensures
        p@ == seq!['%'] + text@ + seq!['%'],
{
    proof {
        reveal_strlit("%");
        assert("%"@ =~= seq!['%']);
    }
    let mut p = String::from_str("%");
    p.append(text);
    p.append("%");
    proof {
        assert(p@ =~= seq!['%'] + text@ + seq!['%']);
    }
    p
}

/// A standalone file shows the tape title verbatim, whatever the series
/// and episode fields hold.
pub proof fn lemma_file_support_shows_title(row: RawSearchRow)
    requires
        decoded_support_type(row.support_code) == Some(SupportType::ComputerFile),
    ensures
        display_name_spec(row) == row.title@,
{
}

/// A television row with both season and episode number carries the
/// numeric suffix `season * 100 + episode`, rendered as a plain integer.
pub proof fn lemma_television_suffix(row: RawSearchRow, season: i32, episode: i32)
    requires
        is_television_row(row),
        row.season == Some(season),
        row.episode_number == Some(episode),
    ensures
        display_name_spec(row) == tv_base_name(row) + " ("@ + signed_decimal_seq(
            season * 100 + episode,
        ) + ")"@,
{
}

/// A television row missing either the season or the episode number shows
/// the base name with no suffix.
pub proof fn lemma_television_no_suffix(row: RawSearchRow)
    requires
        is_television_row(row),
        row.season is None || row.episode_number is None,
    ensures
        display_name_spec(row) == tv_base_name(row),
{
}

} // verus!
