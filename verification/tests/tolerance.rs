use fit_studio::lookup::DELTA;
use fit_studio::limits::get_tolerance_nm;
use fit_studio::tolerance::{GradesDeviations, Iso, ToleranceNm};

fn nm(mm: f64) -> i32 {
    (mm * 1_000_000.0).round() as i32
}

fn limits(upper: f64, lower: f64) -> ToleranceNm {
    ToleranceNm { upper: nm(upper), lower: nm(lower) }
}

#[test]
fn test_grade_tolerance() {
    let test_vec = vec![
        (Iso::new("H", "7").convert_nm(10.0f64.ceil() as i32), Some(limits(0.015, 0.000))),
        (Iso::new("js", "4").convert_nm(5.4f64.ceil() as i32), Some(limits(0.002, -0.002))),
        (Iso::new("H", "7").convert_nm(52.8f64.ceil() as i32), Some(limits(0.030, 0.000))),
        (Iso::new("g", "6").convert_nm(52.8f64.ceil() as i32), Some(limits(-0.010, -0.029))),
    ];

    for test in test_vec.iter() {
        if let (Some(iso), Some(bilateral)) = test {
            assert_eq!(iso.upper, bilateral.upper);
            assert_eq!(iso.lower, bilateral.lower);
        }
    }
}

#[test]
fn test_delta_fn() {
    assert_eq!(Iso::delta(165, 7), 100 * DELTA[8][3]);
    assert_eq!(Iso::delta(19, 5), 100 * DELTA[4][1]);
    assert_eq!(Iso::delta(333, 8), 100 * DELTA[11][4]);
    assert_eq!(Iso::delta(38, 5), 100 * DELTA[5][1]);
}

#[test]
fn delta_is_zero_outside_its_range() {
    assert_eq!(Iso::delta(501, 7), 0);
    assert_eq!(Iso::delta(100, 3), 0);
    assert_eq!(Iso::delta(100, 10), 0);
    // IT5 at 120..180 mm: 6 µm
    assert_eq!(Iso::delta(165, 7), 6_000);
}

#[test]
fn basic_hole_and_shaft() {
    assert_eq!(Iso::new("H", "7").convert_nm(10), Some(ToleranceNm { upper: 15_000, lower: 0 }));
    assert_eq!(Iso::new("h", "6").convert_nm(10), Some(ToleranceNm { upper: 0, lower: -9_000 }));
    assert_eq!(Iso::new("H", "12").convert_nm(5), Some(ToleranceNm { upper: 120_000, lower: 0 }));
    assert_eq!(Iso::new("h", "12").convert_nm(15), Some(ToleranceNm { upper: 0, lower: -180_000 }));
}

#[test]
fn hole_mirrors_shaft_for_a_to_h() {
    for dev in ["a", "b", "c", "d", "e", "f", "g", "h", "js"] {
        let shaft = Iso::new(dev, "8").convert_nm(40);
        let hole = Iso::new(&dev.to_uppercase(), "8").convert_nm(40);
        let mirrored = shaft.map(|t| ToleranceNm { upper: -t.lower, lower: -t.upper });
        assert_eq!(hole, mirrored, "deviation {dev}");
    }
}

#[test]
fn fits_from_the_k_to_zc_table() {
    // k6 at 10 mm: ei = +1 µm, IT6 = 9 µm
    assert_eq!(Iso::new("k", "6").convert_nm(10), Some(ToleranceNm { upper: 10_000, lower: 1_000 }));
    // p6 at 25 mm: ei = +22 µm, IT6 = 13 µm
    assert_eq!(Iso::new("p", "6").convert_nm(25), Some(ToleranceNm { upper: 35_000, lower: 22_000 }));
    // N9 at 20 mm: ES = -15 µm (no delta above IT8), IT9 = 52 µm
    assert_eq!(Iso::new("N", "9").convert_nm(20), Some(ToleranceNm { upper: -15_000, lower: -67_000 }));
    // J7 at 20 mm: ES = +12 µm, IT7 = 21 µm
    assert_eq!(Iso::new("J", "7").convert_nm(20), Some(ToleranceNm { upper: 12_000, lower: -9_000 }));
    // j6 at 20 mm: ei = -4 µm, IT6 = 13 µm
    assert_eq!(Iso::new("j", "6").convert_nm(20), Some(ToleranceNm { upper: 9_000, lower: -4_000 }));
}

#[test]
fn zones_that_do_not_exist() {
    // unknown grade or deviation
    assert_eq!(Iso::new("H", "19").convert_nm(10), None);
    assert_eq!(Iso::new("q", "7").convert_nm(10), None);
    // beyond the largest nominal size
    assert_eq!(Iso::new("H", "7").convert_nm(3_151), None);
    // IT01 is not defined above 500 mm
    assert_eq!(Iso::new("H", "01").convert_nm(600), None);
    // A and B do not exist up to 1 mm
    assert_eq!(Iso::new("A", "9").convert_nm(1), None);
    assert_eq!(Iso::new("b", "9").convert_nm(1), None);
    // cd is not tabled above 50 mm
    assert_eq!(Iso::new("cd", "9").convert_nm(60), None);
    // K above IT8 for sizes above 3 mm
    assert_eq!(Iso::new("K", "9").convert_nm(10), None);
    // shaft zc is not offered
    assert_eq!(Iso::new("zc", "9").convert_nm(10), None);
}

#[test]
fn deviation_is_read_in_either_case() {
    assert_eq!(Iso::new("Js", "7").convert_nm(10), Iso::new("JS", "7").convert_nm(10));
    assert_eq!(Iso::new("jS", "7").convert_nm(10), Iso::new("js", "7").convert_nm(10));
}

#[test]
fn dropdowns_hold_every_grade_and_deviation() {
    let d = GradesDeviations::default();
    assert_eq!(d.it_numbers.len(), 20);
    assert_eq!(d.it_numbers[0], "01");
    assert_eq!(d.it_numbers[19], "18");
    assert_eq!(d.hole_letters.len(), 28);
    assert_eq!(d.shaft_letters.len(), 28);
    assert_eq!(d.hole_letters[3], "CD");
    assert_eq!(d.shaft_letters[11], "js");
    for (hole, shaft) in d.hole_letters.iter().zip(d.shaft_letters.iter()) {
        assert_eq!(hole, &shaft.to_uppercase());
    }
}

#[test]
fn every_zone_is_as_wide_as_its_grade() {
    let d = GradesDeviations::default();
    for size in [1, 3, 10, 50, 250, 400, 800] {
        for grade in &d.it_numbers {
            let width = Iso::new("h", grade).convert_nm(size).map(|t| -t.lower);
            for dev in d.hole_letters.iter().chain(d.shaft_letters.iter()) {
                if let Some(t) = Iso::new(dev, grade).convert_nm(size) {
                    assert!(t.upper > t.lower);
                    assert_eq!(Some(t.upper - t.lower), width);
                }
            }
        }
    }
}

#[test]
fn coarse_lookup_agrees_on_basic_and_symmetric_zones() {
    for (dev, grade, size) in [("H", "7", 10), ("h", "6", 52), ("JS", "5", 120), ("js", "9", 3150), ("H", "11", 1)] {
        let fine = Iso::new(dev, grade).convert_nm(size).map(|t| (t.upper, t.lower));
        assert_eq!(get_tolerance_nm(size, dev, grade), fine);
        assert!(fine.is_some());
    }
}

#[test]
fn coarse_shaft_zone_mirrors_hole_zone() {
    for (hole, shaft, grade, size) in [("H", "h", "7", 10), ("G", "g", "6", 52), ("JS", "js", "8", 120), ("CD", "cd", "9", 5)] {
        let (u, l) = get_tolerance_nm(size, hole, grade).unwrap();
        assert_eq!(get_tolerance_nm(size, shaft, grade), Some((-l, -u)));
    }
    assert_eq!(get_tolerance_nm(10, "H", "7"), Some((15_000, 0)));
    assert_eq!(get_tolerance_nm(10, "h", "7"), Some((0, -15_000)));
}

#[test]
fn coarser_grades_give_wider_coarse_zones() {
    let width = |size: i32, grade: &str| {
        let (u, l) = get_tolerance_nm(size, "H", grade).unwrap();
        u - l
    };
    let grades = ["01", "0", "1", "2", "3", "4", "5", "6", "7", "8", "9", "10", "11", "12", "13", "14", "15", "16", "17", "18"];
    for size in [1, 10, 52, 500, 700, 3150] {
        for pair in grades.windows(2) {
            assert!(width(size, pair[0]) <= width(size, pair[1]));
        }
    }
    // the table's IT12 entry for sizes above 500 up to 630 mm is wider than IT13
    assert!(width(600, "12") > width(600, "13"));
}

#[test]
fn coarser_grades_at_600_mm_outside_the_it12_exception() {
    let width = |grade: &str| {
        let (u, l) = get_tolerance_nm(600, "H", grade).unwrap();
        u - l
    };
    let grades = ["01", "0", "1", "2", "3", "4", "5", "6", "7", "8", "9", "10", "11", "12", "13", "14", "15", "16", "17", "18"];
    for (p1, g1) in grades.iter().enumerate() {
        for (p2, g2) in grades.iter().enumerate().skip(p1) {
            if p1 == 13 && (14..=17).contains(&p2) {
                assert!(width(g1) > width(g2));
            } else {
                assert!(width(g1) <= width(g2));
            }
        }
    }
}
