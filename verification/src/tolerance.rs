//! ISO 286 limits: from a fundamental deviation, a tolerance grade and a
//! nominal size to the limits of the tolerance zone, in nanometres.

use vstd::prelude::*;
use vstd::string::*;
use crate::labels::{
    deviation_label, deviation_labels, deviation_position, find_deviation, find_grade, grade_label,
    grade_labels, grade_position, hole_label, hole_labels, is_ascii_upper, lemma_position_bounds,
};
use crate::lookup::{
    a_g_entry, a_g_row, a_g_table, delta_entry, delta_row, delta_table, first_row_at_least,
    it_entry, it_row, it_table, k_zc_entry, k_zc_row, k_zc_table, lemma_delta_rows, lemma_first_row,
    lemma_j_deviations_within_tolerance, lemma_standard_tolerances_positive, lower_j_entry,
    lower_j_row, lower_j_table, upper_j_entry, upper_j_row, upper_j_table,
};

verus! {

/// The limits of a tolerance zone in nanometres, relative to the nominal
/// size.
#[derive(Clone, Copy, Debug, PartialEq, Eq, Structural)]
pub struct ToleranceNm {
    pub upper: i32,
    pub lower: i32,
}

impl View for ToleranceNm {
    type V = (int, int);

    open spec fn view(&self) -> (int, int) {
        (self.upper as int, self.lower as int)
    }
}

/// The limits `(upper, lower)` that an optional zone holds.
pub open spec fn limits_of(r: Option<ToleranceNm>) -> Option<(int, int)> {
    match r {
        Some(t) => Some(t@),
        None => None,
    }
}

/// A lookup value in micrometres, in nanometres; -1 marks a missing value.
pub open spec fn spec_rtv(d: int) -> Option<int> {
    if d != -1 {
        Some(d * 1000)
    } else {
        None
    }
}

/// The correction Δ in nanometres for a nominal size (whole millimetres)
/// and a grade column (1 for IT01, ..., 20 for IT18): for sizes up to
/// 500 mm and grade columns 4 to 9 it is table column `grade - 4` times
/// 100, and 0 otherwise. So IT3 to IT7 read their Δ, IT2 (column 4) reads
/// the table's size bound, and IT8 gets no correction.
pub open spec fn spec_delta(size: int, grade: int) -> int {
    if size > 500 || grade < 4 || grade > 9 {
        0
    } else {
        match first_row_at_least(delta_table(), size) {
            Some(row) => 100 * delta_table()[row][grade - 4],
            None => 0,
        }
    }
}

/// The limits `(upper, lower)` of a hole with deviation column `d`
/// (1 for A, ..., 28 for ZC), grade column `g` and tolerance `tol`.
pub open spec fn hole_limits(size: int, tol: int, d: int, g: int) -> Option<(int, int)> {
    if 0 <= d < 11 {
        match first_row_at_least(a_g_table(), size) {
            None => None,
            Some(row) => match spec_rtv(a_g_table()[row][d]) {
                None => None,
                Some(dev) => if (d == 1 || d == 2) && size == 1 {
                    None
                } else {
                    Some((dev + tol, dev))
                },
            },
        }
    } else if d == 11 {
        Some((tol, 0))
    } else if d == 12 {
        Some((tol / 2, -(tol / 2)))
    } else if d == 13 && 8 <= g < 11 {
        match first_row_at_least(upper_j_table(), size) {
            None => None,
            Some(row) => match spec_rtv(upper_j_table()[row][g - 7]) {
                None => None,
                Some(dev) => Some((dev, dev - tol)),
            },
        }
    } else if 14 <= d <= 16 || (17 <= d < 30 && g > 9) {
        match first_row_at_least(k_zc_table(), size) {
            None => None,
            Some(row) => match spec_rtv(k_zc_table()[row][d - 13]) {
                None => None,
                Some(v) => {
                    let base = -v + spec_delta(size, g);
                    let dev = if d == 15 && g == 8 && 250 < size <= 315 {
                        base + 2_000
                    } else {
                        base
                    };
                    if d == 14 && g > 10 && size > 3 {
                        None
                    } else if d == 16 && g > 10 && (size > 500 || size <= 1) {
                        None
                    } else {
                        Some((dev, dev - tol))
                    }
                },
            },
        }
    } else {
        None
    }
}

/// The limits `(upper, lower)` of a shaft with deviation column `d`
/// (1 for a, ..., 28 for zc), grade column `g` and tolerance `tol`.
pub open spec fn shaft_limits(size: int, tol: int, d: int, g: int) -> Option<(int, int)> {
    if 0 <= d < 11 {
        match first_row_at_least(a_g_table(), size) {
            None => None,
            Some(row) => match spec_rtv(a_g_table()[row][d]) {
                None => None,
                Some(v) => if -v == -1 || ((d == 1 || d == 2) && size == 1) {
                    None
                } else {
                    Some((-v, -v - tol))
                },
            },
        }
    } else if d == 11 {
        Some((0, -tol))
    } else if d == 12 {
        Some((tol / 2, -(tol / 2)))
    } else if d == 13 && 6 < g < 11 {
        match first_row_at_least(lower_j_table(), size) {
            None => None,
            Some(row) => {
                let col = if g < 8 { 1 } else { g - 7 };
                match spec_rtv(lower_j_table()[row][col]) {
                    None => None,
                    Some(v) => Some((-v + tol, -v)),
                }
            },
        }
    } else if d == 14 {
        match first_row_at_least(k_zc_table(), size) {
            None => None,
            Some(row) => if 5 < g < 10 {
                match spec_rtv(k_zc_table()[row][1]) {
                    None => None,
                    Some(dev) => Some((dev + tol, dev)),
                }
            } else {
                Some((tol, 0))
            },
        }
    } else if 15 <= d < 28 {
        match first_row_at_least(k_zc_table(), size) {
            None => None,
            Some(row) => match spec_rtv(k_zc_table()[row][d - 13]) {
                None => None,
                Some(dev) => Some((dev + tol, dev)),
            },
        }
    } else {
        None
    }
}

/// The tolerance of grade `g` (its number) at a nominal size, in nanometres,
/// or -100 where the grade is not defined for that size.
pub open spec fn spec_tolerance(g: Seq<char>, size: int) -> Option<int> {
    match grade_position(g) {
        None => None,
        Some(gp) => match first_row_at_least(it_table(), size) {
            None => None,
            Some(row) => Some(it_table()[row][gp + 1] * 100),
        },
    }
}

/// What converting deviation `dev` and grade `grade` at a nominal size of
/// `size` whole millimetres gives: the limits `(upper, lower)` in
/// nanometres, or nothing where the ISO system holds no such zone.
/// A deviation whose first letter is a capital names a hole.
pub open spec fn spec_convert(dev: Seq<char>, grade: Seq<char>, size: int) -> Option<(int, int)> {
    match grade_position(grade) {
        None => None,
        Some(gp) => match deviation_position(dev) {
            None => None,
            Some(dp) => match first_row_at_least(it_table(), size) {
                None => None,
                Some(row) => {
                    let tol = it_table()[row][gp + 1] * 100;
                    if tol == -100 {
                        None
                    } else if is_ascii_upper(dev[0]) {
                        hole_limits(size, tol, dp + 1, gp + 1)
                    } else {
                        shaft_limits(size, tol, dp + 1, gp + 1)
                    }
                },
            },
        },
    }
}

/// A fundamental deviation and a tolerance grade, such as `H` and `7`.
#[derive(Clone, Debug)]
pub struct Iso {
    pub deviation: String,
    pub grade: String,
}

impl Iso {
    pub fn new(d: &str, g: &str) -> (r: Self)
        ensures
            r.deviation@ == d@,
            r.grade@ == g@,
    {
        Self { deviation: d.to_owned(), grade: g.to_owned() }
    }

    /// The limits of this zone at a nominal size of `int_size` whole
    /// millimetres (the size rounded up), in nanometres.
    pub fn convert_nm(&self, int_size: i32) -> (r: Option<ToleranceNm>)
        requires
            self.deviation@.len() > 0,
        ensures
            limits_of(r) == spec_convert(self.deviation@, self.grade@, int_size as int),
    {
        let first = self.deviation.as_str().get_char(0);
        let hole = 'A' <= first && first <= 'Z';

        let idx_grade = match find_grade(self.grade.as_str()) {
            Some(i) => i + 1,
            None => return None,
        };
        let idx_dev = match find_deviation(self.deviation.as_str()) {
            Some(i) => i + 1,
            None => return None,
        };
        let idx_tol = match it_row(int_size) {
            Some(i) => i,
            None => return None,
        };

        let tolerance = it_entry(idx_tol, idx_grade) * 100;
        if tolerance == -100 {
            return None;
        }

        if hole {
            Self::lookup_hole(int_size, tolerance, idx_dev, idx_grade)
        } else {
            Self::lookup_shaft(int_size, tolerance, idx_dev, idx_grade)
        }
    }

    fn lookup_hole(size: i32, tol: i32, idx_dev: usize, idx_grade: usize) -> (r: Option<ToleranceNm>)
        requires
            0 <= tol <= 33_000_000,
            1 <= idx_dev <= 28,
            1 <= idx_grade <= 20,
        ensures
            limits_of(r) == hole_limits(size as int, tol as int, idx_dev as int, idx_grade as int),
    {
        if idx_dev < 11 {
            // A to G
            let idx_size = match a_g_row(size) {
                Some(i) => i,
                None => return None,
            };
            let v = a_g_entry(idx_size, idx_dev);
            if v == -1 {
                return None;
            }
            let dev = v * 1000;
            if (idx_dev == 1 || idx_dev == 2) && size == 1 {
                // A and B do not exist for sizes up to 1 mm
                None
            } else {
                Some(ToleranceNm { upper: dev + tol, lower: dev })
            }
        } else if idx_dev == 11 {
            // H
            Some(ToleranceNm { upper: tol, lower: 0 })
        } else if idx_dev == 12 {
            // JS
            Some(ToleranceNm { upper: tol / 2, lower: -(tol / 2) })
        } else if idx_dev == 13 && 8 <= idx_grade && idx_grade < 11 {
            // J
            let idx_size = match upper_j_row(size) {
                Some(i) => i,
                None => return None,
            };
            let v = upper_j_entry(idx_size, idx_grade - 7);
            if v == -1 {
                return None;
            }
            let dev = v * 1000;
            Some(ToleranceNm { upper: dev, lower: dev - tol })
        } else if (14 <= idx_dev && idx_dev <= 16) || (17 <= idx_dev && idx_grade > 9) {
            // K, M, N, and P to ZC above IT7
            let idx_size = match k_zc_row(size) {
                Some(i) => i,
                None => return None,
            };
            let v = k_zc_entry(idx_size, idx_dev - 13);
            if v == -1 {
                return None;
            }
            let mut dev = -(v * 1000) + Self::delta(size, idx_grade);
            if idx_dev == 15 && idx_grade == 8 && size > 250 && size <= 315 {
                dev += 2_000; // M6 special case
            }
            if idx_dev == 14 && idx_grade > 10 && size > 3 {
                None
            } else if idx_dev == 16 && idx_grade > 10 && (size > 500 || size <= 1) {
                None
            } else {
                Some(ToleranceNm { upper: dev, lower: dev - tol })
            }
        } else {
            None
        }
    }

    fn lookup_shaft(size: i32, tol: i32, idx_dev: usize, idx_grade: usize) -> (r: Option<ToleranceNm>)
        requires
            0 <= tol <= 33_000_000,
            1 <= idx_dev <= 28,
            1 <= idx_grade <= 20,
        ensures
            limits_of(r) == shaft_limits(size as int, tol as int, idx_dev as int, idx_grade as int),
    {
        if idx_dev < 11 {
            // a to g
            let idx_size = match a_g_row(size) {
                Some(i) => i,
                None => return None,
            };
            let v = a_g_entry(idx_size, idx_dev);
            if v == -1 {
                return None;
            }
            let dev = -(v * 1000);
            if dev == -1 || ((idx_dev == 1 || idx_dev == 2) && size == 1) {
                // a and b do not exist for sizes up to 1 mm
                None
            } else {
                Some(ToleranceNm { upper: dev, lower: dev - tol })
            }
        } else if idx_dev == 11 {
            // h
            Some(ToleranceNm { upper: 0, lower: -tol })
        } else if idx_dev == 12 {
            // js
            Some(ToleranceNm { upper: tol / 2, lower: -(tol / 2) })
        } else if idx_dev == 13 && idx_grade > 6 && idx_grade < 11 {
            // j
            let idx_size = match lower_j_row(size) {
                Some(i) => i,
                None => return None,
            };
            let col = if idx_grade < 8 { 1 } else { idx_grade - 7 };
            let v = lower_j_entry(idx_size, col);
            if v == -1 {
                return None;
            }
            let dev = -(v * 1000);
            Some(ToleranceNm { upper: dev + tol, lower: dev })
        } else if idx_dev == 14 {
            // k
            let idx_size = match k_zc_row(size) {
                Some(i) => i,
                None => return None,
            };
            let dev = if idx_grade > 5 && idx_grade < 10 {
                let v = k_zc_entry(idx_size, 1);
                if v == -1 {
                    return None;
                }
                v * 1000
            } else {
                0
            };
            Some(ToleranceNm { upper: dev + tol, lower: dev })
        } else if 15 <= idx_dev && idx_dev < 28 {
            // m to zb
            let idx_size = match k_zc_row(size) {
                Some(i) => i,
                None => return None,
            };
            let v = k_zc_entry(idx_size, idx_dev - 13);
            if v == -1 {
                return None;
            }
            let dev = v * 1000;
            Some(ToleranceNm { upper: dev + tol, lower: dev })
        } else {
            None
        }
    }

    /// The correction Δ in nanometres for a nominal size (whole millimetres)
    /// and a grade column (1 for IT01, ..., 20 for IT18), as `spec_delta`
    /// says: IT2 reads the table's size bound and IT8 gets no correction.
    pub fn delta(size: i32, grade: usize) -> (r: i32)
        ensures
            r == spec_delta(size as int, grade as int),
            0 <= r <= 50_000,
    {
        if size > 500 || grade < 4 || grade > 9 {
            0
        } else {
            proof {
                lemma_first_row(delta_table(), size as int, 0);
            }
            let idx = match delta_row(size) {
                Some(i) => i,
                None => return 0,
            };
            100 * delta_entry(idx, grade - 4)
        }
    }
}

/// A zone mirrored about the nominal size: `(upper, lower)` becomes
/// `(-lower, -upper)`.
pub open spec fn mirrored(z: Option<(int, int)>) -> Option<(int, int)> {
    match z {
        Some((u, l)) => Some((-l, -u)),
        None => None,
    }
}

/// The grade and deviation positions that a successful conversion rests on.
proof fn lemma_convert_positions(dev: Seq<char>, grade: Seq<char>, size: int)
    ensures
        spec_convert(dev, grade, size) is Some ==> {
            &&& grade_position(grade) matches Some(gp) && 0 <= gp < 20
            &&& deviation_position(dev) matches Some(dp) && 0 <= dp < 28
            &&& first_row_at_least(it_table(), size) matches Some(row) && 0 <= row < it_table().len()
        },
{
    lemma_position_bounds(grade_labels(), grade, false, 0);
    lemma_position_bounds(deviation_labels(), dev, true, 0);
    lemma_first_row(it_table(), size, 0);
}

/// The width of every zone that the conversion gives is the standard
/// tolerance of its grade at that size, and it is positive.
pub proof fn lemma_zone_width(dev: Seq<char>, grade: Seq<char>, size: int)
    ensures
        spec_convert(dev, grade, size) matches Some((u, l)) ==> spec_tolerance(grade, size) == Some(u - l)
            && u - l > 0,
{
    lemma_convert_positions(dev, grade, size);
    lemma_standard_tolerances_positive();
    if let Some((u, l)) = spec_convert(dev, grade, size) {
        let gp = grade_position(grade)->0;
        let dp = deviation_position(dev)->0;
        let row = first_row_at_least(it_table(), size)->0;
        let v = it_table()[row][gp + 1];
        let tol = v * 100;
        assert(tol > 0);
        assert((tol / 2) * 2 == tol);
        if is_ascii_upper(dev[0]) {
            assert(hole_limits(size, tol, dp + 1, gp + 1) == Some((u, l)));
        } else {
            assert(shaft_limits(size, tol, dp + 1, gp + 1) == Some((u, l)));
        }
        assert(u - l == tol);
    }
}

/// Basic holes H start at the nominal size and basic shafts h end at it;
/// JS and js zones lie symmetrically about it.
pub proof fn lemma_basic_and_symmetric_zones(dev: Seq<char>, grade: Seq<char>, size: int)
    ensures
        deviation_position(dev) == Some(10int) ==> (spec_convert(dev, grade, size) matches Some((u, l))
            ==> if is_ascii_upper(dev[0]) { l == 0 } else { u == 0 }),
        deviation_position(dev) == Some(11int) ==> (spec_convert(dev, grade, size) matches Some((u, l))
            ==> u == -l),
{
}

/// For the deviations A to H and JS, the hole zone is the shaft zone of the
/// same letter, grade and size mirrored about the nominal size.
pub proof fn lemma_hole_mirrors_shaft(hole_dev: Seq<char>, shaft_dev: Seq<char>, grade: Seq<char>, size: int)
    requires
        deviation_position(hole_dev) == deviation_position(shaft_dev),
        deviation_position(hole_dev) matches Some(p) && p <= 11,
        is_ascii_upper(hole_dev[0]),
        !is_ascii_upper(shaft_dev[0]),
    ensures
        spec_convert(hole_dev, grade, size) == mirrored(spec_convert(shaft_dev, grade, size)),
{
}

/// For the grades IT3 to IT7 (grade columns 5 to 9) and nominal sizes up to
/// 500 mm, the correction Δ is 100 times the entry of the Δ table in the
/// size's row and the grade's column, and it is positive above 3 mm.
pub proof fn lemma_delta_from_table(size: int, g: int)
    requires
        size <= 500,
        5 <= g <= 9,
    ensures
        spec_delta(size, g) == 100 * delta_table()[first_row_at_least(delta_table(), size)->0][g - 4],
        size > 3 ==> spec_delta(size, g) > 0,
{
    lemma_delta_rows(size);
}

/// The holes K, M and N of grades IT3 to IT7 at nominal sizes up to 500 mm
/// carry the correction Δ: their upper limit is minus the tabled deviation
/// of k, m or n (in micrometres) plus Δ of the size and grade, with 2 µm
/// more for M6 above 250 up to 315 mm. So above 3 mm such a hole zone is
/// not the shaft zone mirrored.
pub proof fn lemma_kmn_holes_carry_delta(dev: Seq<char>, grade: Seq<char>, size: int)
    requires
        deviation_position(dev) matches Some(p) && 13 <= p <= 15,
        is_ascii_upper(dev[0]),
        grade_position(grade) matches Some(gp) && 4 <= gp <= 8,
        size <= 500,
    ensures
        spec_convert(dev, grade, size) matches Some((u, l)) ==> {
            let p = deviation_position(dev)->0;
            let gp = grade_position(grade)->0;
            let k = k_zc_table()[first_row_at_least(k_zc_table(), size)->0][p - 12];
            let d = delta_table()[first_row_at_least(delta_table(), size)->0][gp - 3];
            let special = if p == 14 && gp == 7 && 250 < size <= 315 { 2000int } else { 0int };
            &&& u == -1000 * k + 100 * d + special
            &&& size > 3 ==> d > 0
        },
{
    lemma_delta_from_table(size, grade_position(grade)->0 + 1);
}

/// Every shaft j zone that exists straddles the nominal size: its lower
/// limit is below it and its upper limit above it. Its lower limit is minus
/// the tabled j deviation: j5 and j6 read the first data column, j7 the
/// second and j8 the third.
pub proof fn lemma_j_shafts_straddle(dev: Seq<char>, grade: Seq<char>, size: int)
    requires
        deviation_position(dev) == Some(12int),
        !is_ascii_upper(dev[0]),
    ensures
        spec_convert(dev, grade, size) matches Some((u, l)) ==> {
            let gp = grade_position(grade)->0;
            let row = lower_j_table()[first_row_at_least(lower_j_table(), size)->0];
            &&& l < 0 < u
            &&& (gp == 6 || gp == 7) ==> l == -1000 * row[1]
            &&& gp == 8 ==> l == -1000 * row[2]
            &&& gp == 9 ==> l == -1000 * row[3]
            &&& 6 <= gp <= 9
        },
{
    lemma_convert_positions(dev, grade, size);
    if spec_convert(dev, grade, size) is Some {
        let gp = grade_position(grade)->0;
        lemma_j_deviations_within_tolerance(size, gp + 1);
    }
}

/// The texts offered for choosing a tolerance grade, a hole deviation and a
/// shaft deviation.
pub struct GradesDeviations {
    pub it_numbers: Vec<String>,
    pub hole_letters: Vec<String>,
    pub shaft_letters: Vec<String>,
}

/// The texts that a list of strings holds.
pub open spec fn texts(v: Seq<String>) -> Seq<Seq<char>> {
    v.map_values(|s: String| s@)
}

impl GradesDeviations {
    pub fn default() -> (r: Self)
        ensures
            texts(r.it_numbers@) == grade_labels(),
            texts(r.hole_letters@) == hole_labels(),
            texts(r.shaft_letters@) == deviation_labels(),
    {
        let mut it_numbers: Vec<String> = Vec::new();
        let mut i: usize = 0;
        while i < 20
            invariant
                i <= 20,
                texts(it_numbers@) == grade_labels().take(i as int),
            decreases 20 - i,
        {
            it_numbers.push(grade_label(i).to_owned());
            assert(grade_labels().take(i + 1) == grade_labels().take(i as int).push(grade_labels()[i as int]));
            i += 1;
        }
        let mut hole_letters: Vec<String> = Vec::new();
        let mut shaft_letters: Vec<String> = Vec::new();
        let mut j: usize = 0;
        while j < 28
            invariant
                j <= 28,
                texts(hole_letters@) == hole_labels().take(j as int),
                texts(shaft_letters@) == deviation_labels().take(j as int),
            decreases 28 - j,
        {
            hole_letters.push(hole_label(j).to_owned());
            shaft_letters.push(deviation_label(j).to_owned());
            assert(hole_labels().take(j + 1) == hole_labels().take(j as int).push(hole_labels()[j as int]));
            assert(deviation_labels().take(j + 1) == deviation_labels().take(j as int).push(deviation_labels()[j as int]));
            j += 1;
        }
        assert(grade_labels().take(20) == grade_labels());
        assert(hole_labels().take(28) == hole_labels());
        assert(deviation_labels().take(28) == deviation_labels());
        Self { it_numbers, hole_letters, shaft_letters }
    }
}

} // verus!
