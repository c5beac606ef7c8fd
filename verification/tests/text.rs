use fit_studio::format::{decimal_places, filter_number_chars, trim_decimals};
use fit_studio::feature::{feature_from_draw, random_attempt, FeatureRng};
use fit_studio::limits::get_tolerance_nm;
use fit_studio::settings::Settings;
use fit_studio::theme::FitZoneColors;
use fit_studio::thermal::default_true;
use fit_studio::tolerance::Iso;
use fit_studio::utils::{longest_fitting_prefix, prefix_with_ellipsis, truncate_string};

#[test]
fn short_strings_are_kept() {
    assert_eq!(truncate_string("Hub", 10), "Hub");
    assert_eq!(truncate_string("0123456789", 10), "0123456789");
    assert_eq!(truncate_string("", 0), "");
}

#[test]
fn long_strings_are_cut_with_an_ellipsis() {
    assert_eq!(truncate_string("Phosphor bronze", 10), "Phosphor …");
    assert_eq!(truncate_string("abc", 1), "…");
    assert_eq!(truncate_string("abc", 0), "");
    // the cut falls after the two bytes of 'é'
    assert_eq!(truncate_string("héllo", 4), "hé…");
}

#[test]
fn colours_follow_the_theme() {
    assert_eq!(FitZoneColors::from_dark_mode(true).clearance, [40, 120, 255, 120]);
    assert_eq!(FitZoneColors::from_dark_mode(false).interference, [220, 20, 20, 120]);
    assert_eq!(FitZoneColors::light().clearance, [0, 80, 220, 120]);
    assert_eq!(FitZoneColors::dark().interference, [255, 40, 40, 120]);
}

#[test]
fn default_settings() {
    assert!(!Settings::default().trailing_zeros);
    assert!(default_true());
}

#[test]
fn coarse_table_tolerances() {
    // H7 at 10 mm: 0 / +15 µm
    assert_eq!(get_tolerance_nm(10, "H", "7"), Some((15_000, 0)));
    // h6 at 10 mm
    assert_eq!(get_tolerance_nm(10, "h", "6"), Some((0, -9_000)));
    // JS7 at 10 mm: ±7.5 µm
    assert_eq!(get_tolerance_nm(10, "JS", "7"), Some((7_500, -7_500)));
    // f7 at 10 mm: es = -13 µm
    assert_eq!(get_tolerance_nm(10, "f", "7"), Some((-13_000, -28_000)));
    // F7 at 10 mm: EI = +13 µm
    assert_eq!(get_tolerance_nm(10, "F", "7"), Some((28_000, 13_000)));
    // deviations past js are not in this table
    assert_eq!(get_tolerance_nm(10, "k", "6"), None);
    assert_eq!(get_tolerance_nm(10, "H", "20"), None);
    assert_eq!(get_tolerance_nm(4_000, "H", "7"), None);
}

#[test]
fn random_features_are_valid_when_asked() {
    let mut rng = FeatureRng::new(rand::thread_rng());
    let mut found = 0;
    for _ in 0..200 {
        if let Some((size, iso, tol)) = random_attempt(&mut rng, true, true) {
            assert!((0..3_150).contains(&size));
            assert!(iso.deviation.chars().next().unwrap().is_ascii_uppercase());
            assert_eq!(Iso::new(&iso.deviation, &iso.grade).convert_nm(size), Some(tol));
            found += 1;
        }
    }
    assert!(found > 0);
    for _ in 0..50 {
        let attempt = random_attempt(&mut rng, false, false);
        let (_, iso, tol) = attempt.expect("an attempt that need not be valid always returns");
        assert!(!iso.deviation.chars().next().unwrap().is_ascii_uppercase());
        if iso.convert_nm(0).is_none() && tol.upper == 0 {
            assert_eq!(tol.lower, 0);
        }
    }
}

#[test]
fn trailing_zeros_are_trimmed_to_one_decimal() {
    assert_eq!(trim_decimals("1.2500"), "1.25");
    assert_eq!(trim_decimals("3.000"), "3.0");
    assert_eq!(trim_decimals("100.10"), "100.1");
    assert_eq!(trim_decimals("0.0"), "0.0");
    assert_eq!(trim_decimals("-2.50"), "-2.5");
    assert_eq!(trim_decimals("10"), "10.0");
    assert_eq!(trim_decimals("3"), "3.0");
    assert_eq!(trim_decimals(&trim_decimals("3")), "3.0");
    assert_eq!(trim_decimals(&trim_decimals("7.000")), "7.0");
}

#[test]
fn decimal_places_ignore_trailing_zeros() {
    assert_eq!(decimal_places("0.0250"), 3);
    assert_eq!(decimal_places("12"), 0);
    assert_eq!(decimal_places("1.0"), 0);
    assert_eq!(decimal_places("3.14159"), 5);
}

#[test]
fn number_characters_are_kept() {
    assert_eq!(filter_number_chars("-12.3 ºC", true), "-12.3");
    assert_eq!(filter_number_chars("-12.3 ºC", false), "12.3");
    assert_eq!(filter_number_chars("1.5x", false), "1.5");
    assert_eq!(filter_number_chars("abc", true), "");
}

#[test]
fn search_finds_longest_fitting_prefix() {
    let widths = [3usize, 5, 9, 14, 20, 27];
    let fits = |len: usize| widths[len - 1] <= 14;
    assert_eq!(longest_fitting_prefix(widths.len(), &fits), 4);
    let none_fit = |_len: usize| false;
    assert_eq!(longest_fitting_prefix(6, &none_fit), 0);
    let all_fit = |_len: usize| true;
    assert_eq!(longest_fitting_prefix(6, &all_fit), 6);
    assert_eq!(longest_fitting_prefix(0, &all_fit), 0);
}

#[test]
fn prefix_gains_ellipsis() {
    assert_eq!(prefix_with_ellipsis("Phosphor", 4), "Phos…");
    assert_eq!(prefix_with_ellipsis("Phosphor", 0), "…");
    assert_eq!(prefix_with_ellipsis("Ωmega", 2), "Ωm…");
}

#[test]
fn draws_give_their_feature() {
    let (size, iso, tol) = feature_from_draw(true, true, 10, 8, 10).unwrap();
    assert_eq!(size, 10);
    assert_eq!((iso.deviation.as_str(), iso.grade.as_str()), ("H", "7"));
    assert_eq!((tol.upper, tol.lower), (15_000, 0));
    let (_, iso, tol) = feature_from_draw(false, true, 52, 7, 9).unwrap();
    assert_eq!((iso.deviation.as_str(), iso.grade.as_str()), ("g", "6"));
    assert_eq!((tol.upper, tol.lower), (-10_000, -29_000));
    // A does not exist up to 1 mm
    assert!(feature_from_draw(true, true, 1, 8, 0).is_none());
    let (_, iso, tol) = feature_from_draw(true, false, 1, 8, 0).unwrap();
    assert_eq!(iso.deviation, "A");
    assert_eq!((tol.upper, tol.lower), (0, 0));
}
