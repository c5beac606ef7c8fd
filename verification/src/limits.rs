//! Tolerance limits of the deviations a to h and js, from the coarse table
//! of fundamental deviations.

use vstd::prelude::*;
use vstd::string::*;
use crate::labels::{
    deviation_labels, deviation_position, find_deviation, find_grade, grade_labels, grade_position,
    is_ascii_upper, lemma_position_bounds,
};
use crate::lookup::{
    a_js_entry, a_js_row, a_js_table, first_row_at_least, it_entry, it_row, it_table, lemma_first_row,
    lemma_it_and_a_js_rows, lemma_it_row_grows,
};
use crate::tolerance::{mirrored, spec_convert};

verus! {

/// The limits `(upper, lower)` in nanometres for a nominal size of `size`
/// whole millimetres: H holds the size as its lower limit, JS and js lie
/// symmetrically about it, and the deviations a to g come from the coarse
/// table (whose -1 entries are read as -1 µm). A deviation whose first
/// letter is a capital names a hole, whose zone is the shaft's mirrored.
pub open spec fn spec_get_tolerance(size: int, dev: Seq<char>, grade: Seq<char>) -> Option<(int, int)> {
    match grade_position(grade) {
        None => None,
        Some(gp) => match deviation_position(dev) {
            None => None,
            Some(dp) => match first_row_at_least(it_table(), size) {
                None => None,
                Some(trow) => match first_row_at_least(a_js_table(), size) {
                    None => None,
                    Some(drow) => {
                        let tol = it_table()[trow][gp + 1] * 100;
                        let deviation = if dp == 10 {
                            Some(0)
                        } else if dp == 11 {
                            Some(-(tol / 2))
                        } else if dp + 1 < 11 {
                            Some(a_js_table()[drow][dp + 1] * 1000)
                        } else {
                            None
                        };
                        match deviation {
                            None => None,
                            Some(d) => if is_ascii_upper(dev[0]) {
                                Some((d + tol, d))
                            } else {
                                Some((-d, -d - tol))
                            },
                        }
                    },
                },
            },
        },
    }
}

/// The limits `(upper, lower)` in nanometres of a deviation and a grade at a
/// nominal size of `size_rounded` whole millimetres (the size rounded up).
pub fn get_tolerance_nm(size_rounded: i32, deviation_str: &str, grade_str: &str) -> (r: Option<(i32, i32)>)
    ensures
        match r {
            Some((u, l)) => spec_get_tolerance(size_rounded as int, deviation_str@, grade_str@) == Some(
                (u as int, l as int),
            ),
            None => spec_get_tolerance(size_rounded as int, deviation_str@, grade_str@) is None,
        },
{
    let grade_id = match find_grade(grade_str) {
        Some(i) => i + 1,
        None => return None,
    };
    let dp = match find_deviation(deviation_str) {
        Some(i) => i,
        None => return None,
    };
    let deviation_id = dp + 1;
    let tolerance_row = match it_row(size_rounded) {
        Some(i) => i,
        None => return None,
    };
    let deviation_row = match a_js_row(size_rounded) {
        Some(i) => i,
        None => return None,
    };

    let tolerance = it_entry(tolerance_row, grade_id) * 100;
    let deviation = if dp == 10 {
        0
    } else if dp == 11 {
        -(tolerance / 2)
    } else if deviation_id < 11 {
        a_js_entry(deviation_row, deviation_id) * 1000
    } else {
        return None;
    };

    proof {
        lemma_position_bounds(deviation_labels(), deviation_str@, true, 0);
        assert(deviation_labels()[dp as int].len() > 0);
    }
    let first = deviation_str.get_char(0);
    if 'A' <= first && first <= 'Z' {
        Some((deviation + tolerance, deviation))
    } else {
        Some((-deviation, -deviation - tolerance))
    }
}

/// The coarse lookup and the ISO conversion give the same zone for the
/// basic deviations H and h and the symmetric deviations JS and js,
/// wherever the conversion has a zone.
pub proof fn lemma_coarse_lookup_agrees_on_basic_zones(dev: Seq<char>, grade: Seq<char>, size: int)
    requires
        deviation_position(dev) == Some(10int) || deviation_position(dev) == Some(11int),
    ensures
        spec_convert(dev, grade, size) is Some ==> spec_get_tolerance(size, dev, grade) == spec_convert(
            dev,
            grade,
            size,
        ),
{
    lemma_it_and_a_js_rows(size);
    if let Some(trow) = first_row_at_least(it_table(), size) {
        if let Some(gp) = grade_position(grade) {
            let tol = it_table()[trow][gp + 1] * 100;
            assert((tol / 2) * 2 == tol);
        }
    }
}

/// The coarse lookup's shaft zone is its hole zone of the same letter,
/// grade and size mirrored about the nominal size: H gives (IT, 0) and h
/// gives (0, -IT).
pub proof fn lemma_coarse_shaft_mirrors_hole(hole_dev: Seq<char>, shaft_dev: Seq<char>, grade: Seq<char>, size: int)
    requires
        deviation_position(hole_dev) == deviation_position(shaft_dev),
        is_ascii_upper(hole_dev[0]),
        !is_ascii_upper(shaft_dev[0]),
    ensures
        spec_get_tolerance(size, shaft_dev, grade) == mirrored(spec_get_tolerance(size, hole_dev, grade)),
{
}

/// In the coarse lookup, a coarser grade never gives a narrower zone: where
/// the finer grade has a zone, the coarser one has one too, at least as
/// wide. The one exception is IT12 against IT13 to IT16 for nominal sizes
/// above 500 up to 630 mm, where the table's IT12 entry reads 70000.
pub proof fn lemma_coarser_grade_no_narrower(dev: Seq<char>, g1: Seq<char>, g2: Seq<char>, size: int)
    requires
        grade_position(g1) matches Some(p1) && grade_position(g2) matches Some(p2) && p1 <= p2 && !(
        500 < size <= 630 && p1 == 13 && 14 <= p2 <= 17),
    ensures
        spec_get_tolerance(size, dev, g1) matches Some((u1, l1)) ==> (spec_get_tolerance(
            size,
            dev,
            g2,
        ) matches Some((u2, l2)) && u1 - l1 <= u2 - l2),
{
    lemma_position_bounds(grade_labels(), g1, false, 0);
    lemma_position_bounds(grade_labels(), g2, false, 0);
    if spec_get_tolerance(size, dev, g1) is Some {
        let p1 = grade_position(g1)->0;
        let p2 = grade_position(g2)->0;
        lemma_it_row_grows(size, p1 + 1, p2 + 1);
        let row = first_row_at_least(it_table(), size)->0;
        let t1 = it_table()[row][p1 + 1] * 100;
        let t2 = it_table()[row][p2 + 1] * 100;
        assert((t1 / 2) * 2 == t1);
        assert((t2 / 2) * 2 == t2);
    }
}

/// For the deviations a to g (and A to G), the coarse lookup reads the
/// fundamental deviation from the row of the deviation table that holds the
/// size: a shaft's upper limit is minus that value in micrometres, and a
/// hole's lower limit is that value.
pub proof fn lemma_coarse_deviation_from_its_row(dev: Seq<char>, grade: Seq<char>, size: int)
    requires
        deviation_position(dev) matches Some(p) && p < 10,
    ensures
        spec_get_tolerance(size, dev, grade) matches Some((u, l)) ==> {
            let v = 1000 * a_js_table()[first_row_at_least(a_js_table(), size)->0][deviation_position(dev)->0 + 1];
            if is_ascii_upper(dev[0]) {
                l == v
            } else {
                u == -v
            }
        },
{
}

} // verus!
