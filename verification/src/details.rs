//! The detail record shown when a result is selected, assembled from the
//! support row and, conditionally, the film data fetched afterwards.

use vstd::prelude::*;

use crate::support::DecodeError;
use crate::support::SupportType;
use crate::support::decoded_support_type;

verus! {

/// One raw row of the support query, as plain nullable column values.
pub struct RawSupportRow {
    /// The raw support-kind column.
    pub support_code: i64,
    /// Shelf number, when stored.
    pub shelf: Option<i32>,
    /// Row number, when stored.
    pub row: Option<i32>,
    /// Position number, when stored.
    pub position: Option<i32>,
    /// The location text; never null in the store.
    pub location: String,
    /// The file path of a standalone file support.
    pub path: Option<String>,
}

/// The full record shown when an item is selected.
pub struct DetailRecord {
    /// Whether the support is a standalone computer file; shelf, row and
    /// position are meaningless then.
    pub is_file_support: bool,
    /// Shelf number, when stored.
    pub shelf: Option<i32>,
    /// Row number, when stored.
    pub row: Option<i32>,
    /// Position number, when stored.
    pub position: Option<i32>,
    /// The location text.
    pub location: String,
    /// The file path; empty when none is stored.
    pub path: String,
    /// The associated film record, zero for none.
    pub film_key: i32,
    /// The film's duration in minutes, zero when unknown.
    pub duration: i32,
    /// The film's release year, zero when unknown.
    pub release_year: i32,
    /// The credited actors, in store order.
    pub actor_names: Vec<String>,
    /// The remote URL of the film's image; empty for none, filled in after
    /// the asynchronous manifest lookup.
    pub image_url: String,
}

/// What a fresh detail record promises of the support row it came from.
pub open spec fn detail_of_support_row(row: RawSupportRow, rec: DetailRecord) -> bool {
    &&& (match decoded_support_type(row.support_code) {
        Some(kind) => rec.is_file_support == (kind == SupportType::ComputerFile),
        None => false,
    })
    &&& rec.shelf == row.shelf
    &&& rec.row == row.row
    &&& rec.position == row.position
    &&& rec.location@ == row.location@
    &&& rec.path@ == (match row.path {
        Some(p) => p@,
        None => Seq::<char>::empty(),
    })
    &&& rec.film_key == 0
    &&& rec.duration == 0
    &&& rec.release_year == 0
    &&& rec.actor_names@.len() == 0
    &&& rec.image_url@.len() == 0
}

/// Starts a detail record from one support row.  Fails exactly when the
/// support-kind column holds an unrecognized value.  The flag says whether
/// the film, actor and image queries are wanted: only for a support that is
/// not a standalone file and has an associated film record.
pub fn detail_from_support_row(row: RawSupportRow, film_key: i32) -> (r: Result<
    (DetailRecord, bool),
    DecodeError,
>)
    ensures
        match r {
            Ok(pair) => {
                &&& detail_of_support_row(row, pair.0)
                &&& pair.1 == (!pair.0.is_file_support && film_key != 0)
            },
            Err(e) => {
                &&& decoded_support_type(row.support_code) is None
                &&& e == DecodeError::UnknownSupportCode(row.support_code)
            },
        },
{
    let kind = match SupportType::from_code(row.support_code) {
        Ok(kind) => kind,
        Err(e) => {
            return Err(e);
        },
    };
    let is_file = kind == SupportType::ComputerFile;
    let rec = DetailRecord {
        is_file_support: is_file,
        shelf: row.shelf,
        row: row.row,
        position: row.position,
        location: row.location,
        path: match row.path {
            Some(p) => p,
            None => String::new(),
        },
        film_key: 0,
        duration: 0,
        release_year: 0,
        actor_names: Vec::new(),
        image_url: String::new(),
    };
    let wants_film_data = !is_file && film_key != 0;
    Ok((rec, wants_film_data))
}

impl DetailRecord {
    /// Fills in the film fields from the film row; a missing year or
    /// duration reads as zero.
    pub fn apply_film_details(
        &mut self,
        film_key: i32,
        release_year: Option<i32>,
        duration: Option<i32>,
    )
        ensures
            final(self).film_key == film_key,
            final(self).release_year == (match release_year {
                Some(y) => y,
                None => 0,
            }),
            final(self).duration == (match duration {
                Some(d) => d,
                None => 0,
            }),
            final(self).is_file_support == old(self).is_file_support,
            final(self).shelf == old(self).shelf,
            final(self).row == old(self).row,
            final(self).position == old(self).position,
            final(self).location == old(self).location,
            final(self).path == old(self).path,
            final(self).actor_names == old(self).actor_names,
            final(self).image_url == old(self).image_url,
    {
        self.film_key = film_key;
        self.release_year = match release_year {
            Some(y) => y,
            None => 0,
        };
        self.duration = match duration {
            Some(d) => d,
            None => 0,
        };
    }
}

} // verus!
