use videofinder::projector::RawSearchRow;
use videofinder::projector::project_row;
use videofinder::projector::search_pattern;
use videofinder::support::Color;
use videofinder::support::DecodeError;
use videofinder::support::SupportType;
use videofinder::text::decimal_string;
use videofinder::text::signed_decimal_string;

fn row(
    serie_name: Option<&str>,
    name: Option<&str>,
    title: &str,
    film_type: Option<i32>,
    support_code: i64,
    season: Option<i32>,
    episode_number: Option<i32>,
) -> RawSearchRow {
    RawSearchRow {
        serie_name: serie_name.map(|s| s.to_string()),
        name: name.map(|s| s.to_string()),
        title: title.to_string(),
        film_type,
        support_code,
        season,
        episode_number,
        origin: Some("acheté".to_string()),
        on_loan: Some(false),
        support_key: Some(11),
        film_key: Some(22),
    }
}

#[test]
fn dragon_tales_row_projects_fully() {
    let mut r = row(
        Some("Dragon Tales"),
        Some("Pilot"),
        "dragon tape",
        Some(1),
        1,
        Some(1),
        Some(3),
    );
    r.origin = Some("Enregistré".to_string());
    let rec = project_row(&r).unwrap();
    assert_eq!(rec.display_name, "Dragon Tales -- Pilot (103)");
    assert_eq!(rec.support_label, "C");
    assert_eq!(rec.support_kind, SupportType::Tape);
    // the "taped" variant of the tape color, off loan
    assert_eq!(
        rec.support_color,
        Color { alpha: 0xFF, red: 0x1A, green: 0xE0, blue: 0xFF }
    );
    assert_eq!(rec.film_key, 22);
    assert_eq!(rec.support_key, 11);
}

#[test]
fn file_support_shows_title_verbatim() {
    let r = row(
        Some("Some Series"),
        Some("Some Episode"),
        "my-film.mkv",
        Some(1),
        4,
        Some(2),
        Some(5),
    );
    let rec = project_row(&r).unwrap();
    assert_eq!(rec.display_name, "my-film.mkv");
    assert_eq!(rec.support_label, "O");
    assert_eq!(rec.support_kind, SupportType::ComputerFile);
}

#[test]
fn television_suffix_is_season_times_hundred_plus_episode() {
    let r = row(Some("S"), Some("E"), "t", Some(1), 1, Some(2), Some(5));
    let rec = project_row(&r).unwrap();
    assert_eq!(rec.display_name, "S -- E (205)");
}

#[test]
fn television_missing_season_gives_no_suffix() {
    let r = row(Some("S"), Some("E"), "t", Some(1), 1, None, Some(5));
    let rec = project_row(&r).unwrap();
    assert_eq!(rec.display_name, "S -- E");
}

#[test]
fn television_missing_episode_gives_no_suffix() {
    let r = row(Some("S"), Some("E"), "t", Some(1), 1, Some(2), None);
    let rec = project_row(&r).unwrap();
    assert_eq!(rec.display_name, "S -- E");
}

#[test]
fn television_with_only_series_shows_series() {
    let r = row(Some("S"), None, "t", Some(1), 1, Some(2), Some(5));
    let rec = project_row(&r).unwrap();
    assert_eq!(rec.display_name, "S (205)");
}

#[test]
fn television_with_only_episode_shows_episode() {
    let r = row(None, Some("E"), "t", Some(1), 1, None, None);
    let rec = project_row(&r).unwrap();
    assert_eq!(rec.display_name, "E");
}

#[test]
fn television_with_neither_name_is_empty() {
    let r = row(None, None, "t", Some(1), 1, None, None);
    let rec = project_row(&r).unwrap();
    assert_eq!(rec.display_name, "");
}

#[test]
fn plain_film_shows_film_name() {
    let r = row(None, Some("The Film"), "tape title", None, 2, None, None);
    let rec = project_row(&r).unwrap();
    assert_eq!(rec.display_name, "The Film");
    assert_eq!(rec.support_label, "D");
}

#[test]
fn tape_without_film_shows_title() {
    let r = row(None, None, "bare tape", None, 1, None, None);
    let rec = project_row(&r).unwrap();
    assert_eq!(rec.display_name, "bare tape");
}

#[test]
fn unknown_support_code_is_rejected() {
    let r = row(None, None, "t", None, 3, None, None);
    assert_eq!(project_row(&r), Err(DecodeError::UnknownSupportCode(3)));
    let r = row(None, None, "t", None, 0, None, None);
    assert_eq!(project_row(&r), Err(DecodeError::UnknownSupportCode(0)));
    let r = row(None, None, "t", None, -1, None, None);
    assert_eq!(project_row(&r), Err(DecodeError::UnknownSupportCode(-1)));
}

#[test]
fn null_columns_take_defaults() {
    let mut r = row(None, None, "t", None, 1, None, None);
    r.origin = None;
    r.on_loan = None;
    r.support_key = None;
    r.film_key = None;
    let rec = project_row(&r).unwrap();
    // empty origin is not "taped": the bought-tape color, off loan
    assert_eq!(
        rec.support_color,
        Color { alpha: 0xFF, red: 0xFF, green: 0x1D, blue: 0xFF }
    );
    assert_eq!(rec.film_key, 0);
    assert_eq!(rec.support_key, 0);
}

#[test]
fn negative_episode_code_renders_with_sign() {
    let r = row(Some("S"), Some("E"), "t", Some(1), 1, Some(-1), Some(5));
    let rec = project_row(&r).unwrap();
    assert_eq!(rec.display_name, "S -- E (-95)");
}

#[test]
fn search_pattern_wraps_in_wildcards() {
    assert_eq!(search_pattern("dragon"), "%dragon%");
    assert_eq!(search_pattern(""), "%%");
}

#[test]
fn decimal_rendering_is_exact() {
    assert_eq!(decimal_string(0), "0");
    assert_eq!(decimal_string(205), "205");
    assert_eq!(decimal_string(18446744073709551615), "18446744073709551615");
    assert_eq!(signed_decimal_string(-95), "-95");
    assert_eq!(signed_decimal_string(0), "0");
    assert_eq!(signed_decimal_string(i64::MIN), "-9223372036854775808");
}
