use videofinder::support::Color;
use videofinder::support::DecodeError;
use videofinder::support::FilmType;
use videofinder::support::SupportType;
use videofinder::support::color_for_support;
use videofinder::support::letter_for_support_type;

#[test]
fn labels_are_fixed_per_kind() {
    assert_eq!(letter_for_support_type(SupportType::Tape), "C");
    assert_eq!(letter_for_support_type(SupportType::Dvd), "D");
    assert_eq!(letter_for_support_type(SupportType::Bluray), "B");
    assert_eq!(letter_for_support_type(SupportType::ComputerFile), "O");
}

#[test]
fn support_codes_decode() {
    assert_eq!(SupportType::from_code(1), Ok(SupportType::Tape));
    assert_eq!(SupportType::from_code(2), Ok(SupportType::Dvd));
    assert_eq!(SupportType::from_code(4), Ok(SupportType::ComputerFile));
    assert_eq!(SupportType::from_code(8), Ok(SupportType::Bluray));
    assert_eq!(
        SupportType::from_code(15),
        Err(DecodeError::UnknownSupportCode(15))
    );
}

#[test]
fn film_type_codes_decode() {
    assert_eq!(FilmType::from_code(1), Some(FilmType::Television));
    assert_eq!(FilmType::from_code(0), None);
    assert_eq!(FilmType::from_code(2), None);
}

#[test]
fn base_colors_per_kind() {
    let taped = color_for_support(SupportType::Tape, "Taped".to_string(), false);
    assert_eq!(taped, Color { alpha: 0xFF, red: 0x1A, green: 0xE0, blue: 0xFF });
    let recorded = color_for_support(SupportType::Tape, "Enregistré".to_string(), false);
    assert_eq!(recorded, taped);
    let bought = color_for_support(SupportType::Tape, "acheté".to_string(), false);
    assert_eq!(bought, Color { alpha: 0xFF, red: 0xFF, green: 0x1D, blue: 0xFF });
    let empty_origin = color_for_support(SupportType::Tape, String::new(), false);
    assert_eq!(empty_origin, bought);
    let dvd = color_for_support(SupportType::Dvd, String::new(), false);
    assert_eq!(dvd, Color { alpha: 0xFF, red: 0x6D, green: 0xFF, blue: 0x6B });
    let bluray = color_for_support(SupportType::Bluray, String::new(), false);
    assert_eq!(bluray, Color { alpha: 0xFF, red: 0x00, green: 0x00, blue: 0x84 });
    let file = color_for_support(SupportType::ComputerFile, String::new(), false);
    assert_eq!(file, Color { alpha: 0xFF, red: 0xFF, green: 0xDC, blue: 0xA8 });
}

#[test]
fn on_loan_brightens_each_channel_by_half() {
    let loaned = color_for_support(SupportType::Bluray, String::new(), true);
    assert_eq!(loaned, Color { alpha: 0xFF, red: 0x00, green: 0x00, blue: 0xC6 });
    let loaned_tape = color_for_support(SupportType::Tape, "Enregistré".to_string(), true);
    // 0x1A scales to 0x27; the saturated channels cap at 0xFF
    assert_eq!(loaned_tape, Color { alpha: 0xFF, red: 0x27, green: 0xFF, blue: 0xFF });
}

#[test]
fn on_loan_never_darkens_any_channel() {
    let kinds = [
        SupportType::Tape,
        SupportType::Dvd,
        SupportType::Bluray,
        SupportType::ComputerFile,
    ];
    let origins = ["Enregistré", "Taped", "acheté", ""];
    for kind in kinds {
        for origin in origins {
            let plain = color_for_support(kind, origin.to_string(), false);
            let loaned = color_for_support(kind, origin.to_string(), true);
            assert_eq!(loaned.alpha, plain.alpha);
            assert!(loaned.red >= plain.red);
            assert!(loaned.green >= plain.green);
            assert!(loaned.blue >= plain.blue);
            let plain_sum = plain.red as u32 + plain.green as u32 + plain.blue as u32;
            let loaned_sum = loaned.red as u32 + loaned.green as u32 + loaned.blue as u32;
            assert!(loaned_sum > plain_sum);
        }
    }
}
