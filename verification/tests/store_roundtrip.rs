//! End-to-end checks against a real SQLite store: the library's query
//! texts run on an in-memory catalog, and the raw rows flow through the
//! projector and the detail builder.

use rusqlite::Connection;

use videofinder::details::RawSupportRow;
use videofinder::details::detail_from_support_row;
use videofinder::images::image_url;
use videofinder::manifest::parse_file_list;
use videofinder::projector::RawSearchRow;
use videofinder::projector::SearchResultRecord;
use videofinder::projector::project_row;
use videofinder::projector::search_pattern;
use videofinder::queries::actor_query;
use videofinder::queries::film_query;
use videofinder::queries::image_query;
use videofinder::queries::search_query;
use videofinder::queries::support_query;
use videofinder::support::Color;
use videofinder::support::SupportType;

fn catalog() -> Connection {
    let conn = Connection::open_in_memory().unwrap();
    conn.execute_batch(
        "CREATE TABLE Tape (code_tape INTEGER, TITLE TEXT, type INTEGER, ORIGIN TEXT, \
         ON_LOAN INTEGER, shelf INTEGER, row INTEGER, position INTEGER, location TEXT, path TEXT); \
         CREATE TABLE Film (code INTEGER, SERIE_NAME TEXT, NAME TEXT, TYPE INTEGER, \
         SEASON INTEGER, EPISODE_NR INTEGER, DIRECTOR TEXT, PRODUCER TEXT, COMPOSER TEXT, \
         year INTEGER, duration INTEGER); \
         CREATE TABLE TapeFilm (code_tape INTEGER, code_film INTEGER); \
         CREATE TABLE Actor (ACTOR TEXT, CODE_FILM INTEGER); \
         CREATE TABLE Image (N_IMAGE TEXT, code_film INTEGER);",
    )
    .unwrap();
    conn
}

fn run_search(conn: &Connection, text: &str) -> Vec<SearchResultRecord> {
    let pattern = search_pattern(text);
    let mut stmt = conn.prepare(search_query()).unwrap();
    let rows = stmt
        .query_map([pattern.as_str(); 7], |row| {
            Ok(RawSearchRow {
                serie_name: row.get::<_, Option<String>>(0)?,
                name: row.get::<_, Option<String>>(1)?,
                film_type: row.get::<_, Option<i32>>(2)?,
                support_code: row.get::<_, i64>(3)?,
                season: row.get::<_, Option<i32>>(4).unwrap_or(None),
                episode_number: row.get::<_, Option<i32>>(5).unwrap_or(None),
                origin: row.get::<_, Option<String>>(6).unwrap_or(None),
                on_loan: row.get::<_, Option<bool>>(7).unwrap_or(None),
                support_key: row.get::<_, Option<i32>>(8).unwrap_or(None),
                film_key: row.get::<_, Option<i32>>(9).unwrap_or(None),
                title: row.get::<_, String>(10)?,
            })
        })
        .unwrap();
    rows.map(|raw| project_row(&raw.unwrap()).unwrap()).collect()
}

#[test]
fn dragon_search_yields_the_projected_television_row() {
    let conn = catalog();
    conn.execute(
        "INSERT INTO Tape VALUES (1, 'dragon tape', 1, 'Enregistré', 0, 3, 2, 1, 'salon', NULL)",
        (),
    )
    .unwrap();
    conn.execute(
        "INSERT INTO Film VALUES (2, 'Dragon Tales', 'Pilot', 1, 1, 3, '', '', '', 1999, 25)",
        (),
    )
    .unwrap();
    conn.execute("INSERT INTO TapeFilm VALUES (1, 2)", ()).unwrap();

    let results = run_search(&conn, "dragon");
    assert_eq!(results.len(), 1);
    let rec = &results[0];
    assert_eq!(rec.display_name, "Dragon Tales -- Pilot (103)");
    assert_eq!(rec.support_label, "C");
    assert_eq!(rec.support_kind, SupportType::Tape);
    assert_eq!(
        rec.support_color,
        Color { alpha: 0xFF, red: 0x1A, green: 0xE0, blue: 0xFF }
    );
    assert_eq!(rec.film_key, 2);
    assert_eq!(rec.support_key, 1);

    assert_eq!(run_search(&conn, "nothing like this").len(), 0);
}

#[test]
fn detail_flow_composes_the_record_and_its_image_url() {
    let conn = catalog();
    conn.execute(
        "INSERT INTO Tape VALUES (1, 'dragon tape', 1, 'Enregistré', 0, 3, 2, 1, 'salon', NULL)",
        (),
    )
    .unwrap();
    conn.execute(
        "INSERT INTO Film VALUES (2, 'Dragon Tales', 'Pilot', 1, 1, 3, '', '', '', 1999, 25)",
        (),
    )
    .unwrap();
    conn.execute("INSERT INTO Actor VALUES ('Anna Artist', 2)", ()).unwrap();
    conn.execute("INSERT INTO Actor VALUES ('Bob Builder', 2)", ()).unwrap();
    conn.execute(
        "INSERT INTO Image VALUES ('/home/sabine/Films/Dragon Tales/poster.png', 2)",
        (),
    )
    .unwrap();

    let film_key = 2;
    let mut stmt = conn.prepare(support_query()).unwrap();
    let raw = stmt
        .query_row([1], |row| {
            Ok(RawSupportRow {
                support_code: row.get::<_, i64>(0)?,
                shelf: row.get::<_, Option<i32>>(1)?,
                row: row.get::<_, Option<i32>>(2)?,
                position: row.get::<_, Option<i32>>(3)?,
                location: row.get::<_, String>(4)?,
                path: row.get::<_, Option<String>>(5).unwrap_or(None),
            })
        })
        .unwrap();
    let (mut rec, wants_film_data) = detail_from_support_row(raw, film_key).unwrap();
    assert!(wants_film_data);

    let mut stmt = conn.prepare(film_query()).unwrap();
    let (year, duration) = stmt
        .query_row([film_key], |row| {
            Ok((row.get::<_, Option<i32>>(0).unwrap_or(None), row.get::<_, Option<i32>>(1).unwrap_or(None)))
        })
        .unwrap();
    rec.apply_film_details(film_key, year, duration);

    let mut stmt = conn.prepare(actor_query()).unwrap();
    let actors = stmt
        .query_map([film_key], |row| row.get::<_, String>(0))
        .unwrap()
        .collect::<Result<Vec<String>, _>>()
        .unwrap();
    rec.actor_names = actors;

    let mut stmt = conn.prepare(image_query()).unwrap();
    let image_path = stmt.query_row([film_key], |row| row.get::<_, String>(0)).unwrap();

    let manifest = parse_file_list("/home/sabine/Films/Dragon Tales/cover1.jpg\n");
    rec.image_url = image_url(Some(image_path), &manifest);

    assert!(!rec.is_file_support);
    assert_eq!(rec.shelf, Some(3));
    assert_eq!(rec.row, Some(2));
    assert_eq!(rec.position, Some(1));
    assert_eq!(rec.location, "salon");
    assert_eq!(rec.path, "");
    assert_eq!(rec.film_key, 2);
    assert_eq!(rec.release_year, 1999);
    assert_eq!(rec.duration, 25);
    assert_eq!(rec.actor_names, vec!["Anna Artist".to_string(), "Bob Builder".to_string()]);
    assert_eq!(
        rec.image_url,
        "http://www.davidfaure.fr/kvideomanager/Films/Dragon Tales/cover1.jpg"
    );
}
