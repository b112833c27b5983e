//! The parametrized query texts run against the read-only catalog store.
//! The store executes them; the library only fixes their text, so that the
//! rows they produce line up with the projector's inputs.

use vstd::prelude::*;

verus! {

/// The search query: one row per matching tape/film combination, matched
/// case-insensitively as a substring across tape title, series name, film
/// name, director, producer, composer and the actor credits, ordered by
/// series name then film name so that series episodes stay grouped.  All
/// seven parameters take the same wildcard-wrapped pattern.
pub fn search_query() -> (q: &'static str)
    ensures
        q@
            == "SELECT Film.SERIE_NAME, Film.NAME, Film.TYPE, Tape.type, Film.SEASON, Film.EPISODE_NR, Tape.ORIGIN, Tape.ON_LOAN, Tape.code_tape, Film.code, Tape.TITLE FROM Tape LEFT JOIN (TapeFilm JOIN Film ON TapeFilm.code_film=Film.code) TapeFilm ON TapeFilm.code_tape=Tape.code_tape WHERE ( Tape.TITLE LIKE ?1 OR Film.SERIE_NAME LIKE ?2 OR Film.NAME LIKE ?3 OR Film.DIRECTOR LIKE ?4 OR Film.PRODUCER LIKE ?5 OR Film.COMPOSER LIKE ?6 OR Film.CODE IN (select CODE_FILM from Actor where ACTOR LIKE ?7) ) ORDER BY Film.SERIE_NAME, Film.NAME"@,
{
    "SELECT Film.SERIE_NAME, Film.NAME, Film.TYPE, Tape.type, Film.SEASON, Film.EPISODE_NR, Tape.ORIGIN, Tape.ON_LOAN, Tape.code_tape, Film.code, Tape.TITLE FROM Tape LEFT JOIN (TapeFilm JOIN Film ON TapeFilm.code_film=Film.code) TapeFilm ON TapeFilm.code_tape=Tape.code_tape WHERE ( Tape.TITLE LIKE ?1 OR Film.SERIE_NAME LIKE ?2 OR Film.NAME LIKE ?3 OR Film.DIRECTOR LIKE ?4 OR Film.PRODUCER LIKE ?5 OR Film.COMPOSER LIKE ?6 OR Film.CODE IN (select CODE_FILM from Actor where ACTOR LIKE ?7) ) ORDER BY Film.SERIE_NAME, Film.NAME"
}

/// The support row of one selected item.
pub fn support_query() -> (q: &'static str)
    ensures
        q@ == "SELECT type, shelf, row, position, location, path FROM Tape WHERE Tape.code_tape=?1"@,
{
    "SELECT type, shelf, row, position, location, path FROM Tape WHERE Tape.code_tape=?1"
}

/// The film row of one selected item.
pub fn film_query() -> (q: &'static str)
    ensures
        q@ == "SELECT year, duration FROM Film WHERE Film.code=?1"@,
{
    "SELECT year, duration FROM Film WHERE Film.code=?1"
}

/// The credited actors of one film, in store order.
pub fn actor_query() -> (q: &'static str)
    ensures
        q@ == "SELECT ACTOR FROM Actor WHERE code_film=?1"@,
{
    "SELECT ACTOR FROM Actor WHERE code_film=?1"
}

/// The stored image path of one film.
pub fn image_query() -> (q: &'static str)
    ensures
        q@ == "SELECT N_IMAGE FROM Image WHERE code_film=?1"@,
{
    "SELECT N_IMAGE FROM Image WHERE code_film=?1"
}

} // verus!
