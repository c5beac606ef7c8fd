//! The ISO 286 tables of the limits and fits system, and their lookups.
//!
//! Each table is an exec constant together with its mathematical model (a
//! `Seq` of rows). The accessors read the constant and are proved to return
//! the model's entry, so every contract can speak of the model. The models
//! are closed, to keep their size out of proofs that do not read them; a
//! proof that needs the entries calls the table's `_values` lemma.

use vstd::prelude::*;

verus! {

/// The first row, at index `i` or later, whose size bound (column 0) is at
/// least `size`.
pub open spec fn first_row_from(t: Seq<Seq<int>>, size: int, i: int) -> Option<int>
    decreases t.len() - i,
{
    if 0 <= i < t.len() {
        if t[i][0] >= size {
            Some(i)
        } else {
            first_row_from(t, size, i + 1)
        }
    } else {
        None
    }
}

/// The first row of `t` whose size bound is at least `size`: the size range
/// that holds a nominal size of `size` millimetres.
pub open spec fn first_row_at_least(t: Seq<Seq<int>>, size: int) -> Option<int> {
    first_row_from(t, size, 0)
}

/// What a first-row search returns: a row whose bound covers `size`, with
/// every earlier bound below `size`; or no row, when every bound is below.
pub proof fn lemma_first_row(t: Seq<Seq<int>>, size: int, i: int)
    requires
        0 <= i <= t.len(),
    ensures
        first_row_from(t, size, i) matches Some(r) ==> i <= r < t.len() && t[r][0] >= size
            && forall|j: int| i <= j < r ==> t[j][0] < size,
        first_row_from(t, size, i) is None ==> forall|j: int| i <= j < t.len() ==> t[j][0] < size,
    decreases t.len() - i,
{
    if i < t.len() {
        lemma_first_row(t, size, i + 1);
    }
}

/// Standard tolerance grades IT01 to IT18 (ISO 286-1).
/// Column 0 is the upper bound of the nominal size range in millimetres;
/// columns 1 to 20 hold IT01, IT0, IT1, ..., IT18 in tenths of a micrometre
/// (-1 where the grade is not defined).
pub const STANDARD_TOLERANCE_GRADES: [[i32; 21]; 21] = [
    [3, 3, 5, 8, 12, 20, 30, 40, 60, 100, 140, 250, 400, 600, 1000, 1400, 2500, 4000, 6000, 10000, 14000],
    [6, 4, 6, 10, 15, 25, 40, 50, 80, 120, 180, 300, 480, 750, 1200, 1800, 3000, 4800, 7500, 12000, 18000],
    [10, 4, 6, 10, 15, 25, 40, 60, 90, 150, 220, 360, 580, 900, 1500, 2200, 3600, 5800, 9000, 15000, 22000],
    [18, 5, 8, 12, 20, 30, 50, 80, 110, 180, 270, 430, 700, 1100, 1800, 2700, 4300, 7000, 11000, 18000, 27000],
    [30, 6, 10, 15, 25, 40, 60, 90, 130, 210, 330, 520, 840, 1300, 2100, 3300, 5200, 8400, 13000, 21000, 33000],
    [50, 6, 10, 15, 25, 40, 70, 110, 160, 250, 390, 620, 1000, 1600, 2500, 3900, 6200, 10000, 16000, 25000, 39000],
    [80, 8, 12, 20, 30, 50, 80, 130, 190, 300, 460, 740, 1200, 1900, 3000, 4600, 7400, 12000, 19000, 30000, 46000],
    [120, 10, 15, 25, 40, 60, 100, 150, 220, 350, 540, 870, 1400, 2200, 3500, 5400, 8700, 14000, 22000, 35000, 54000],
    [180, 12, 20, 35, 50, 80, 120, 180, 250, 400, 630, 1000, 1600, 2500, 4000, 6300, 10000, 16000, 25000, 40000, 63000],
    [250, 20, 30, 45, 70, 100, 140, 200, 290, 460, 720, 1150, 1850, 2900, 4600, 7200, 11500, 18500, 29000, 46000, 72000],
    [315, 25, 40, 60, 80, 120, 160, 230, 320, 520, 810, 1300, 2100, 3200, 5200, 8100, 13000, 21000, 32000, 52000, 81000],
    [400, 30, 50, 70, 90, 130, 180, 250, 360, 570, 890, 1400, 2300, 3600, 5700, 8900, 14000, 23000, 36000, 57000, 89000],
    [500, 40, 60, 80, 100, 150, 200, 270, 400, 630, 970, 1550, 2500, 4000, 6300, 9700, 15500, 25000, 40000, 63000, 97000],
    [630, -1, -1, 90, 110, 160, 220, 320, 440, 700, 1100, 1750, 2800, 4400, 70000, 11000, 17500, 28000, 44000, 70000, 110000],
    [800, -1, -1, 100, 130, 180, 250, 360, 500, 800, 1250, 2000, 3200, 5000, 8000, 12500, 20000, 32000, 50000, 80000, 125000],
    [1000, -1, -1, 110, 150, 210, 280, 400, 560, 900, 1400, 2300, 3600, 5600, 9000, 14000, 23000, 36000, 56000, 90000, 140000],
    [1250, -1, -1, 130, 180, 240, 330, 470, 660, 1050, 1650, 2600, 4200, 6600, 10500, 16500, 26000, 42000, 66000, 105000, 165000],
    [1600, -1, -1, 150, 210, 290, 390, 550, 780, 1250, 1950, 3100, 5000, 7800, 12500, 19500, 31000, 50000, 78000, 125000, 195000],
    [2000, -1, -1, 180, 250, 350, 460, 650, 920, 1500, 2300, 3700, 6000, 9200, 15000, 23000, 37000, 60000, 92000, 150000, 230000],
    [2500, -1, -1, 220, 300, 410, 550, 780, 1100, 1750, 2800, 4400, 7000, 11000, 17500, 28000, 44000, 70000, 110000, 175000, 280000],
    [3150, -1, -1, 260, 360, 500, 680, 960, 1350, 2100, 3300, 5400, 8600, 13500, 21000, 33000, 54000, 86000, 135000, 210000, 330000],
];

/// The model of [`STANDARD_TOLERANCE_GRADES`].
pub closed spec fn it_table() -> Seq<Seq<int>> {
    seq![
        seq![3, 3, 5, 8, 12, 20, 30, 40, 60, 100, 140, 250, 400, 600, 1000, 1400, 2500, 4000, 6000, 10000, 14000],
        seq![6, 4, 6, 10, 15, 25, 40, 50, 80, 120, 180, 300, 480, 750, 1200, 1800, 3000, 4800, 7500, 12000, 18000],
        seq![10, 4, 6, 10, 15, 25, 40, 60, 90, 150, 220, 360, 580, 900, 1500, 2200, 3600, 5800, 9000, 15000, 22000],
        seq![18, 5, 8, 12, 20, 30, 50, 80, 110, 180, 270, 430, 700, 1100, 1800, 2700, 4300, 7000, 11000, 18000, 27000],
        seq![30, 6, 10, 15, 25, 40, 60, 90, 130, 210, 330, 520, 840, 1300, 2100, 3300, 5200, 8400, 13000, 21000, 33000],
        seq![50, 6, 10, 15, 25, 40, 70, 110, 160, 250, 390, 620, 1000, 1600, 2500, 3900, 6200, 10000, 16000, 25000, 39000],
        seq![80, 8, 12, 20, 30, 50, 80, 130, 190, 300, 460, 740, 1200, 1900, 3000, 4600, 7400, 12000, 19000, 30000, 46000],
        seq![120, 10, 15, 25, 40, 60, 100, 150, 220, 350, 540, 870, 1400, 2200, 3500, 5400, 8700, 14000, 22000, 35000, 54000],
        seq![180, 12, 20, 35, 50, 80, 120, 180, 250, 400, 630, 1000, 1600, 2500, 4000, 6300, 10000, 16000, 25000, 40000, 63000],
        seq![250, 20, 30, 45, 70, 100, 140, 200, 290, 460, 720, 1150, 1850, 2900, 4600, 7200, 11500, 18500, 29000, 46000, 72000],
        seq![315, 25, 40, 60, 80, 120, 160, 230, 320, 520, 810, 1300, 2100, 3200, 5200, 8100, 13000, 21000, 32000, 52000, 81000],
        seq![400, 30, 50, 70, 90, 130, 180, 250, 360, 570, 890, 1400, 2300, 3600, 5700, 8900, 14000, 23000, 36000, 57000, 89000],
        seq![500, 40, 60, 80, 100, 150, 200, 270, 400, 630, 970, 1550, 2500, 4000, 6300, 9700, 15500, 25000, 40000, 63000, 97000],
        seq![630, -1, -1, 90, 110, 160, 220, 320, 440, 700, 1100, 1750, 2800, 4400, 70000, 11000, 17500, 28000, 44000, 70000, 110000],
        seq![800, -1, -1, 100, 130, 180, 250, 360, 500, 800, 1250, 2000, 3200, 5000, 8000, 12500, 20000, 32000, 50000, 80000, 125000],
        seq![1000, -1, -1, 110, 150, 210, 280, 400, 560, 900, 1400, 2300, 3600, 5600, 9000, 14000, 23000, 36000, 56000, 90000, 140000],
        seq![1250, -1, -1, 130, 180, 240, 330, 470, 660, 1050, 1650, 2600, 4200, 6600, 10500, 16500, 26000, 42000, 66000, 105000, 165000],
        seq![1600, -1, -1, 150, 210, 290, 390, 550, 780, 1250, 1950, 3100, 5000, 7800, 12500, 19500, 31000, 50000, 78000, 125000, 195000],
        seq![2000, -1, -1, 180, 250, 350, 460, 650, 920, 1500, 2300, 3700, 6000, 9200, 15000, 23000, 37000, 60000, 92000, 150000, 230000],
        seq![2500, -1, -1, 220, 300, 410, 550, 780, 1100, 1750, 2800, 4400, 7000, 11000, 17500, 28000, 44000, 70000, 110000, 175000, 280000],
        seq![3150, -1, -1, 260, 360, 500, 680, 960, 1350, 2100, 3300, 5400, 8600, 13500, 21000, 33000, 54000, 86000, 135000, 210000, 330000],
    ]
}

/// Reads one entry of [`STANDARD_TOLERANCE_GRADES`].
pub fn it_entry(row: usize, col: usize) -> (v: i32)
    requires
        row < 21,
        col < 21,
    ensures
        v == it_table()[row as int][col as int],
        -1 <= v <= 330000,
{
    STANDARD_TOLERANCE_GRADES[row][col]
}

/// The size range of [`STANDARD_TOLERANCE_GRADES`] that holds a nominal size of `size`
/// millimetres.
pub fn it_row(size: i32) -> (r: Option<usize>)
    ensures
        match r {
            Some(i) => i < 21 && first_row_at_least(it_table(), size as int) == Some(i as int),
            None => first_row_at_least(it_table(), size as int) is None,
        },
        size <= 3150 ==> r is Some,
{
    proof {
        lemma_first_row(it_table(), size as int, 0);
    }
    let mut i: usize = 0;
    while i < 21
        invariant
            i <= 21,
            it_table().len() == 21,
            first_row_at_least(it_table(), size as int) == first_row_from(it_table(), size as int, i as int),
        decreases 21 - i,
    {
        if STANDARD_TOLERANCE_GRADES[i][0] >= size {
            return Some(i);
        }
        i += 1;
    }
    None
}

/// Fundamental deviations of shafts a to g, coarse size ranges.
/// Column 0 is the upper bound of the nominal size range in millimetres;
/// columns 1 to 10 hold a, b, c, cd, d, e, ef, f, fg, g in micrometres
/// (magnitudes; -1 where the deviation is not defined).
pub const LOWER_DEVIATIONS_A_JS: [[i32; 11]; 30] = [
    [3, 270, 140, 60, 34, 20, 14, 10, 6, 4, 2],
    [6, 270, 140, 70, 46, 30, 20, 14, 10, 6, 4],
    [10, 280, 150, 80, 56, 40, 25, 18, 13, 8, 5],
    [18, 290, 150, 95, 70, 50, 32, 23, 16, 10, 6],
    [30, 300, 160, 110, 85, 65, 40, 28, 20, 12, 7],
    [40, 310, 170, 120, 100, 80, 50, 35, 25, 15, 9],
    [50, 320, 180, 130, 100, 80, 50, 35, 25, 15, 9],
    [65, 340, 190, 140, -1, 100, 60, -1, 30, -1, 10],
    [80, 360, 200, 150, -1, 100, 60, -1, 30, -1, 10],
    [100, 380, 220, 170, -1, 120, 72, -1, 36, -1, 12],
    [120, 410, 240, 180, -1, 120, 72, -1, 36, -1, 12],
    [140, 460, 260, 200, -1, 145, 85, -1, 43, -1, 14],
    [160, 520, 280, 210, -1, 145, 85, -1, 43, -1, 14],
    [200, 660, 340, 240, -1, 170, 100, -1, 50, -1, 15],
    [225, 740, 380, 260, -1, 170, 100, -1, 50, -1, 15],
    [250, 820, 420, 280, -1, 170, 100, -1, 50, -1, 15],
    [280, 920, 480, 300, -1, 190, 110, -1, 56, -1, 17],
    [315, 1050, 540, 330, -1, 190, 110, -1, 56, -1, 17],
    [355, 1200, 600, 360, -1, 210, 125, -1, 62, -1, 18],
    [400, 1350, 680, 400, -1, 210, 125, -1, 62, -1, 18],
    [450, 1500, 760, 440, -1, 230, 135, -1, 68, -1, 20],
    [500, 1650, 840, 480, -1, 230, 135, -1, 68, -1, 20],
    [630, -1, -1, -1, -1, 260, 145, -1, 76, -1, 22],
    [800, -1, -1, -1, -1, 290, 160, -1, 80, -1, 24],
    [1000, -1, -1, -1, -1, 320, 170, -1, 86, -1, 26],
    [1250, -1, -1, -1, -1, 350, 195, -1, 98, -1, 28],
    [1600, -1, -1, -1, -1, 390, 220, -1, 110, -1, 30],
    [2000, -1, -1, -1, -1, 430, 240, -1, 120, -1, 32],
    [2500, -1, -1, -1, -1, 480, 260, -1, 130, -1, 34],
    [3150, -1, -1, -1, -1, 520, 290, -1, 145, -1, 38],
];

/// The model of [`LOWER_DEVIATIONS_A_JS`].
pub closed spec fn a_js_table() -> Seq<Seq<int>> {
    seq![
        seq![3, 270, 140, 60, 34, 20, 14, 10, 6, 4, 2],
        seq![6, 270, 140, 70, 46, 30, 20, 14, 10, 6, 4],
        seq![10, 280, 150, 80, 56, 40, 25, 18, 13, 8, 5],
        seq![18, 290, 150, 95, 70, 50, 32, 23, 16, 10, 6],
        seq![30, 300, 160, 110, 85, 65, 40, 28, 20, 12, 7],
        seq![40, 310, 170, 120, 100, 80, 50, 35, 25, 15, 9],
        seq![50, 320, 180, 130, 100, 80, 50, 35, 25, 15, 9],
        seq![65, 340, 190, 140, -1, 100, 60, -1, 30, -1, 10],
        seq![80, 360, 200, 150, -1, 100, 60, -1, 30, -1, 10],
        seq![100, 380, 220, 170, -1, 120, 72, -1, 36, -1, 12],
        seq![120, 410, 240, 180, -1, 120, 72, -1, 36, -1, 12],
        seq![140, 460, 260, 200, -1, 145, 85, -1, 43, -1, 14],
        seq![160, 520, 280, 210, -1, 145, 85, -1, 43, -1, 14],
        seq![200, 660, 340, 240, -1, 170, 100, -1, 50, -1, 15],
        seq![225, 740, 380, 260, -1, 170, 100, -1, 50, -1, 15],
        seq![250, 820, 420, 280, -1, 170, 100, -1, 50, -1, 15],
        seq![280, 920, 480, 300, -1, 190, 110, -1, 56, -1, 17],
        seq![315, 1050, 540, 330, -1, 190, 110, -1, 56, -1, 17],
        seq![355, 1200, 600, 360, -1, 210, 125, -1, 62, -1, 18],
        seq![400, 1350, 680, 400, -1, 210, 125, -1, 62, -1, 18],
        seq![450, 1500, 760, 440, -1, 230, 135, -1, 68, -1, 20],
        seq![500, 1650, 840, 480, -1, 230, 135, -1, 68, -1, 20],
        seq![630, -1, -1, -1, -1, 260, 145, -1, 76, -1, 22],
        seq![800, -1, -1, -1, -1, 290, 160, -1, 80, -1, 24],
        seq![1000, -1, -1, -1, -1, 320, 170, -1, 86, -1, 26],
        seq![1250, -1, -1, -1, -1, 350, 195, -1, 98, -1, 28],
        seq![1600, -1, -1, -1, -1, 390, 220, -1, 110, -1, 30],
        seq![2000, -1, -1, -1, -1, 430, 240, -1, 120, -1, 32],
        seq![2500, -1, -1, -1, -1, 480, 260, -1, 130, -1, 34],
        seq![3150, -1, -1, -1, -1, 520, 290, -1, 145, -1, 38],
    ]
}

/// Reads one entry of [`LOWER_DEVIATIONS_A_JS`].
pub fn a_js_entry(row: usize, col: usize) -> (v: i32)
    requires
        row < 30,
        col < 11,
    ensures
        v == a_js_table()[row as int][col as int],
        -1 <= v <= 3150,
{
    LOWER_DEVIATIONS_A_JS[row][col]
}

/// The size range of [`LOWER_DEVIATIONS_A_JS`] that holds a nominal size of `size`
/// millimetres.
pub fn a_js_row(size: i32) -> (r: Option<usize>)
    ensures
        match r {
            Some(i) => i < 30 && first_row_at_least(a_js_table(), size as int) == Some(i as int),
            None => first_row_at_least(a_js_table(), size as int) is None,
        },
        size <= 3150 ==> r is Some,
{
    proof {
        lemma_first_row(a_js_table(), size as int, 0);
    }
    let mut i: usize = 0;
    while i < 30
        invariant
            i <= 30,
            a_js_table().len() == 30,
            first_row_at_least(a_js_table(), size as int) == first_row_from(a_js_table(), size as int, i as int),
        decreases 30 - i,
    {
        if LOWER_DEVIATIONS_A_JS[i][0] >= size {
            return Some(i);
        }
        i += 1;
    }
    None
}

/// Fundamental deviations a to g (ISO 286-1).
/// Column 0 is the upper bound of the nominal size range in millimetres;
/// columns 1 to 10 hold a, b, c, cd, d, e, ef, f, fg, g in micrometres
/// (magnitudes; -1 where the deviation is not defined).
pub const DEVIATIONS_A_G: [[i32; 11]; 31] = [
    [3, 270, 140, 60, 34, 20, 14, 10, 6, 4, 2],
    [6, 270, 140, 70, 46, 30, 20, 14, 10, 6, 4],
    [10, 280, 150, 80, 56, 40, 25, 18, 13, 8, 5],
    [18, 290, 150, 95, 70, 50, 32, 23, 16, 10, 6],
    [30, 300, 160, 110, 85, 65, 40, 28, 20, 12, 7],
    [40, 310, 170, 120, 100, 80, 50, 35, 25, 15, 9],
    [50, 320, 180, 130, 100, 80, 50, 35, 25, 15, 9],
    [65, 340, 190, 140, -1, 100, 60, -1, 30, -1, 10],
    [80, 360, 200, 150, -1, 100, 60, -1, 30, -1, 10],
    [100, 380, 220, 170, -1, 120, 72, -1, 36, -1, 12],
    [120, 410, 240, 180, -1, 120, 72, -1, 36, -1, 12],
    [140, 460, 260, 200, -1, 145, 85, -1, 43, -1, 14],
    [160, 520, 280, 210, -1, 145, 85, -1, 43, -1, 14],
    [180, 580, 310, 230, -1, 145, 85, -1, 43, -1, 14],
    [200, 660, 340, 240, -1, 170, 100, -1, 50, -1, 15],
    [225, 740, 380, 260, -1, 170, 100, -1, 50, -1, 15],
    [250, 820, 420, 280, -1, 170, 100, -1, 50, -1, 15],
    [280, 920, 480, 300, -1, 190, 110, -1, 56, -1, 17],
    [315, 1050, 540, 330, -1, 190, 110, -1, 56, -1, 17],
    [355, 1200, 600, 360, -1, 210, 125, -1, 62, -1, 18],
    [400, 1350, 680, 400, -1, 210, 125, -1, 62, -1, 18],
    [450, 1500, 760, 440, -1, 230, 135, -1, 68, -1, 20],
    [500, 1650, 840, 480, -1, 230, 135, -1, 68, -1, 20],
    [630, -1, -1, -1, -1, 260, 145, -1, 76, -1, 22],
    [800, -1, -1, -1, -1, 290, 160, -1, 80, -1, 24],
    [1000, -1, -1, -1, -1, 320, 170, -1, 86, -1, 26],
    [1250, -1, -1, -1, -1, 350, 195, -1, 98, -1, 28],
    [1600, -1, -1, -1, -1, 390, 220, -1, 110, -1, 30],
    [2000, -1, -1, -1, -1, 430, 240, -1, 120, -1, 32],
    [2500, -1, -1, -1, -1, 480, 260, -1, 130, -1, 34],
    [3150, -1, -1, -1, -1, 520, 290, -1, 145, -1, 38],
];

/// The model of [`DEVIATIONS_A_G`].
pub closed spec fn a_g_table() -> Seq<Seq<int>> {
    seq![
        seq![3, 270, 140, 60, 34, 20, 14, 10, 6, 4, 2],
        seq![6, 270, 140, 70, 46, 30, 20, 14, 10, 6, 4],
        seq![10, 280, 150, 80, 56, 40, 25, 18, 13, 8, 5],
        seq![18, 290, 150, 95, 70, 50, 32, 23, 16, 10, 6],
        seq![30, 300, 160, 110, 85, 65, 40, 28, 20, 12, 7],
        seq![40, 310, 170, 120, 100, 80, 50, 35, 25, 15, 9],
        seq![50, 320, 180, 130, 100, 80, 50, 35, 25, 15, 9],
        seq![65, 340, 190, 140, -1, 100, 60, -1, 30, -1, 10],
        seq![80, 360, 200, 150, -1, 100, 60, -1, 30, -1, 10],
        seq![100, 380, 220, 170, -1, 120, 72, -1, 36, -1, 12],
        seq![120, 410, 240, 180, -1, 120, 72, -1, 36, -1, 12],
        seq![140, 460, 260, 200, -1, 145, 85, -1, 43, -1, 14],
        seq![160, 520, 280, 210, -1, 145, 85, -1, 43, -1, 14],
        seq![180, 580, 310, 230, -1, 145, 85, -1, 43, -1, 14],
        seq![200, 660, 340, 240, -1, 170, 100, -1, 50, -1, 15],
        seq![225, 740, 380, 260, -1, 170, 100, -1, 50, -1, 15],
        seq![250, 820, 420, 280, -1, 170, 100, -1, 50, -1, 15],
        seq![280, 920, 480, 300, -1, 190, 110, -1, 56, -1, 17],
        seq![315, 1050, 540, 330, -1, 190, 110, -1, 56, -1, 17],
        seq![355, 1200, 600, 360, -1, 210, 125, -1, 62, -1, 18],
        seq![400, 1350, 680, 400, -1, 210, 125, -1, 62, -1, 18],
        seq![450, 1500, 760, 440, -1, 230, 135, -1, 68, -1, 20],
        seq![500, 1650, 840, 480, -1, 230, 135, -1, 68, -1, 20],
        seq![630, -1, -1, -1, -1, 260, 145, -1, 76, -1, 22],
        seq![800, -1, -1, -1, -1, 290, 160, -1, 80, -1, 24],
        seq![1000, -1, -1, -1, -1, 320, 170, -1, 86, -1, 26],
        seq![1250, -1, -1, -1, -1, 350, 195, -1, 98, -1, 28],
        seq![1600, -1, -1, -1, -1, 390, 220, -1, 110, -1, 30],
        seq![2000, -1, -1, -1, -1, 430, 240, -1, 120, -1, 32],
        seq![2500, -1, -1, -1, -1, 480, 260, -1, 130, -1, 34],
        seq![3150, -1, -1, -1, -1, 520, 290, -1, 145, -1, 38],
    ]
}

/// Reads one entry of [`DEVIATIONS_A_G`].
pub fn a_g_entry(row: usize, col: usize) -> (v: i32)
    requires
        row < 31,
        col < 11,
    ensures
        v == a_g_table()[row as int][col as int],
        -1 <= v <= 3150,
{
    DEVIATIONS_A_G[row][col]
}

/// The size range of [`DEVIATIONS_A_G`] that holds a nominal size of `size`
/// millimetres.
pub fn a_g_row(size: i32) -> (r: Option<usize>)
    ensures
        match r {
            Some(i) => i < 31 && first_row_at_least(a_g_table(), size as int) == Some(i as int),
            None => first_row_at_least(a_g_table(), size as int) is None,
        },
        size <= 3150 ==> r is Some,
{
    proof {
        lemma_first_row(a_g_table(), size as int, 0);
    }
    let mut i: usize = 0;
    while i < 31
        invariant
            i <= 31,
            a_g_table().len() == 31,
            first_row_at_least(a_g_table(), size as int) == first_row_from(a_g_table(), size as int, i as int),
        decreases 31 - i,
    {
        if DEVIATIONS_A_G[i][0] >= size {
            return Some(i);
        }
        i += 1;
    }
    None
}

/// Fundamental deviations k to zc (ISO 286-1).
/// Column 0 is the upper bound of the nominal size range in millimetres;
/// columns 1 to 15 hold k, m, n, p, r, s, t, u, v, x, y, z, za, zb, zc in
/// micrometres (-1 where the deviation is not defined).
pub const DEVIATIONS_K_ZC: [[i32; 16]; 41] = [
    [3, 0, 2, 4, 6, 10, 14, -1, 18, -1, 20, -1, 26, 32, 40, 60],
    [6, 1, 4, 8, 12, 15, 19, -1, 23, -1, 28, -1, 35, 42, 50, 80],
    [10, 1, 6, 10, 15, 19, 23, -1, 28, -1, 34, -1, 42, 52, 67, 97],
    [14, 1, 7, 12, 18, 23, 28, -1, 33, -1, 40, -1, 50, 64, 90, 130],
    [18, 1, 7, 12, 18, 23, 28, -1, 33, 39, 45, -1, 60, 77, 108, 150],
    [24, 2, 8, 15, 22, 28, 35, -1, 41, 47, 54, 63, 73, 98, 136, 188],
    [30, 2, 8, 15, 22, 28, 35, 41, 48, 55, 64, 75, 88, 118, 160, 218],
    [40, 2, 9, 17, 26, 34, 43, 48, 60, 68, 80, 94, 112, 148, 200, 274],
    [50, 2, 9, 17, 26, 34, 43, 54, 70, 81, 97, 114, 136, 180, 242, 325],
    [65, 2, 11, 20, 32, 41, 53, 66, 87, 102, 122, 144, 172, 226, 300, 405],
    [80, 2, 11, 20, 32, 43, 59, 75, 102, 120, 146, 174, 210, 274, 360, 480],
    [100, 3, 13, 23, 37, 51, 71, 91, 124, 146, 178, 214, 258, 335, 445, 585],
    [120, 3, 13, 23, 37, 54, 79, 104, 144, 172, 210, 254, 310, 400, 525, 690],
    [140, 3, 15, 27, 43, 63, 92, 122, 170, 202, 248, 300, 365, 470, 620, 800],
    [160, 3, 15, 27, 43, 65, 100, 134, 190, 228, 280, 340, 415, 535, 700, 900],
    [180, 3, 15, 27, 43, 68, 108, 146, 210, 252, 310, 380, 465, 600, 780, 1000],
    [200, 4, 17, 31, 50, 77, 122, 166, 236, 284, 350, 425, 520, 670, 880, 1150],
    [225, 4, 17, 31, 50, 80, 130, 180, 258, 310, 385, 470, 575, 740, 960, 1250],
    [250, 4, 17, 31, 50, 84, 140, 196, 284, 340, 425, 520, 640, 820, 1050, 1350],
    [280, 4, 20, 34, 56, 94, 158, 218, 315, 385, 475, 580, 710, 920, 1200, 1550],
    [315, 4, 20, 34, 56, 98, 170, 240, 350, 425, 525, 650, 790, 1000, 1300, 1700],
    [355, 4, 21, 37, 62, 108, 190, 268, 390, 475, 590, 730, 900, 1150, 1500, 1900],
    [400, 4, 21, 37, 62, 114, 208, 294, 435, 530, 660, 820, 1000, 1300, 1650, 2100],
    [450, 5, 23, 40, 68, 126, 232, 330, 490, 595, 740, 920, 1100, 1450, 1850, 2400],
    [500, 5, 23, 40, 68, 132, 252, 360, 540, 660, 820, 1000, 1250, 1600, 2100, 2600],
    [560, 0, 26, 44, 78, 150, 280, 400, 600, -1, -1, -1, -1, -1, -1, -1],
    [630, 0, 26, 44, 78, 155, 310, 450, 660, -1, -1, -1, -1, -1, -1, -1],
    [710, 0, 30, 50, 88, 175, 340, 500, 740, -1, -1, -1, -1, -1, -1, -1],
    [800, 0, 30, 50, 88, 185, 380, 560, 840, -1, -1, -1, -1, -1, -1, -1],
    [900, 0, 34, 56, 100, 210, 430, 620, 940, -1, -1, -1, -1, -1, -1, -1],
    [1000, 0, 34, 56, 100, 220, 470, 680, 1050, -1, -1, -1, -1, -1, -1, -1],
    [1120, 0, 40, 66, 120, 250, 520, 780, 1150, -1, -1, -1, -1, -1, -1, -1],
    [1250, 0, 40, 66, 120, 260, 580, 840, 1300, -1, -1, -1, -1, -1, -1, -1],
    [1400, 0, 48, 78, 140, 300, 640, 960, 1450, -1, -1, -1, -1, -1, -1, -1],
    [1600, 0, 48, 78, 140, 330, 720, 1050, 1600, -1, -1, -1, -1, -1, -1, -1],
    [1800, 0, 58, 92, 170, 370, 820, 1200, 1850, -1, -1, -1, -1, -1, -1, -1],
    [2000, 0, 58, 92, 170, 400, 920, 1350, 2000, -1, -1, -1, -1, -1, -1, -1],
    [2240, 0, 68, 110, 195, 440, 1000, 1500, 2300, -1, -1, -1, -1, -1, -1, -1],
    [2500, 0, 68, 110, 195, 460, 1100, 1650, 2500, -1, -1, -1, -1, -1, -1, -1],
    [2800, 0, 76, 135, 240, 550, 1250, 1900, 2900, -1, -1, -1, -1, -1, -1, -1],
    [3150, 0, 76, 135, 240, 580, 1400, 2100, 3200, -1, -1, -1, -1, -1, -1, -1],
];

/// The model of [`DEVIATIONS_K_ZC`].
pub closed spec fn k_zc_table() -> Seq<Seq<int>> {
    seq![
        seq![3, 0, 2, 4, 6, 10, 14, -1, 18, -1, 20, -1, 26, 32, 40, 60],
        seq![6, 1, 4, 8, 12, 15, 19, -1, 23, -1, 28, -1, 35, 42, 50, 80],
        seq![10, 1, 6, 10, 15, 19, 23, -1, 28, -1, 34, -1, 42, 52, 67, 97],
        seq![14, 1, 7, 12, 18, 23, 28, -1, 33, -1, 40, -1, 50, 64, 90, 130],
        seq![18, 1, 7, 12, 18, 23, 28, -1, 33, 39, 45, -1, 60, 77, 108, 150],
        seq![24, 2, 8, 15, 22, 28, 35, -1, 41, 47, 54, 63, 73, 98, 136, 188],
        seq![30, 2, 8, 15, 22, 28, 35, 41, 48, 55, 64, 75, 88, 118, 160, 218],
        seq![40, 2, 9, 17, 26, 34, 43, 48, 60, 68, 80, 94, 112, 148, 200, 274],
        seq![50, 2, 9, 17, 26, 34, 43, 54, 70, 81, 97, 114, 136, 180, 242, 325],
        seq![65, 2, 11, 20, 32, 41, 53, 66, 87, 102, 122, 144, 172, 226, 300, 405],
        seq![80, 2, 11, 20, 32, 43, 59, 75, 102, 120, 146, 174, 210, 274, 360, 480],
        seq![100, 3, 13, 23, 37, 51, 71, 91, 124, 146, 178, 214, 258, 335, 445, 585],
        seq![120, 3, 13, 23, 37, 54, 79, 104, 144, 172, 210, 254, 310, 400, 525, 690],
        seq![140, 3, 15, 27, 43, 63, 92, 122, 170, 202, 248, 300, 365, 470, 620, 800],
        seq![160, 3, 15, 27, 43, 65, 100, 134, 190, 228, 280, 340, 415, 535, 700, 900],
        seq![180, 3, 15, 27, 43, 68, 108, 146, 210, 252, 310, 380, 465, 600, 780, 1000],
        seq![200, 4, 17, 31, 50, 77, 122, 166, 236, 284, 350, 425, 520, 670, 880, 1150],
        seq![225, 4, 17, 31, 50, 80, 130, 180, 258, 310, 385, 470, 575, 740, 960, 1250],
        seq![250, 4, 17, 31, 50, 84, 140, 196, 284, 340, 425, 520, 640, 820, 1050, 1350],
        seq![280, 4, 20, 34, 56, 94, 158, 218, 315, 385, 475, 580, 710, 920, 1200, 1550],
        seq![315, 4, 20, 34, 56, 98, 170, 240, 350, 425, 525, 650, 790, 1000, 1300, 1700],
        seq![355, 4, 21, 37, 62, 108, 190, 268, 390, 475, 590, 730, 900, 1150, 1500, 1900],
        seq![400, 4, 21, 37, 62, 114, 208, 294, 435, 530, 660, 820, 1000, 1300, 1650, 2100],
        seq![450, 5, 23, 40, 68, 126, 232, 330, 490, 595, 740, 920, 1100, 1450, 1850, 2400],
        seq![500, 5, 23, 40, 68, 132, 252, 360, 540, 660, 820, 1000, 1250, 1600, 2100, 2600],
        seq![560, 0, 26, 44, 78, 150, 280, 400, 600, -1, -1, -1, -1, -1, -1, -1],
        seq![630, 0, 26, 44, 78, 155, 310, 450, 660, -1, -1, -1, -1, -1, -1, -1],
        seq![710, 0, 30, 50, 88, 175, 340, 500, 740, -1, -1, -1, -1, -1, -1, -1],
        seq![800, 0, 30, 50, 88, 185, 380, 560, 840, -1, -1, -1, -1, -1, -1, -1],
        seq![900, 0, 34, 56, 100, 210, 430, 620, 940, -1, -1, -1, -1, -1, -1, -1],
        seq![1000, 0, 34, 56, 100, 220, 470, 680, 1050, -1, -1, -1, -1, -1, -1, -1],
        seq![1120, 0, 40, 66, 120, 250, 520, 780, 1150, -1, -1, -1, -1, -1, -1, -1],
        seq![1250, 0, 40, 66, 120, 260, 580, 840, 1300, -1, -1, -1, -1, -1, -1, -1],
        seq![1400, 0, 48, 78, 140, 300, 640, 960, 1450, -1, -1, -1, -1, -1, -1, -1],
        seq![1600, 0, 48, 78, 140, 330, 720, 1050, 1600, -1, -1, -1, -1, -1, -1, -1],
        seq![1800, 0, 58, 92, 170, 370, 820, 1200, 1850, -1, -1, -1, -1, -1, -1, -1],
        seq![2000, 0, 58, 92, 170, 400, 920, 1350, 2000, -1, -1, -1, -1, -1, -1, -1],
        seq![2240, 0, 68, 110, 195, 440, 1000, 1500, 2300, -1, -1, -1, -1, -1, -1, -1],
        seq![2500, 0, 68, 110, 195, 460, 1100, 1650, 2500, -1, -1, -1, -1, -1, -1, -1],
        seq![2800, 0, 76, 135, 240, 550, 1250, 1900, 2900, -1, -1, -1, -1, -1, -1, -1],
        seq![3150, 0, 76, 135, 240, 580, 1400, 2100, 3200, -1, -1, -1, -1, -1, -1, -1],
    ]
}

/// Reads one entry of [`DEVIATIONS_K_ZC`].
pub fn k_zc_entry(row: usize, col: usize) -> (v: i32)
    requires
        row < 41,
        col < 16,
    ensures
        v == k_zc_table()[row as int][col as int],
        -1 <= v <= 3200,
{
    DEVIATIONS_K_ZC[row][col]
}

/// The size range of [`DEVIATIONS_K_ZC`] that holds a nominal size of `size`
/// millimetres.
pub fn k_zc_row(size: i32) -> (r: Option<usize>)
    ensures
        match r {
            Some(i) => i < 41 && first_row_at_least(k_zc_table(), size as int) == Some(i as int),
            None => first_row_at_least(k_zc_table(), size as int) is None,
        },
        size <= 3150 ==> r is Some,
{
    proof {
        lemma_first_row(k_zc_table(), size as int, 0);
    }
    let mut i: usize = 0;
    while i < 41
        invariant
            i <= 41,
            k_zc_table().len() == 41,
            first_row_at_least(k_zc_table(), size as int) == first_row_from(k_zc_table(), size as int, i as int),
        decreases 41 - i,
    {
        if DEVIATIONS_K_ZC[i][0] >= size {
            return Some(i);
        }
        i += 1;
    }
    None
}

/// Upper deviations of holes J6, J7, J8 in micrometres, by nominal size.
pub const UPPER_J: [[i32; 4]; 13] = [
    [3, 2, 4, 6],
    [6, 5, 6, 10],
    [10, 5, 8, 12],
    [18, 6, 10, 15],
    [30, 8, 12, 20],
    [50, 10, 14, 24],
    [80, 13, 18, 28],
    [120, 16, 22, 34],
    [180, 18, 26, 41],
    [250, 22, 30, 47],
    [315, 25, 36, 55],
    [400, 29, 39, 60],
    [500, 33, 43, 66],
];

/// The model of [`UPPER_J`].
pub closed spec fn upper_j_table() -> Seq<Seq<int>> {
    seq![
        seq![3, 2, 4, 6],
        seq![6, 5, 6, 10],
        seq![10, 5, 8, 12],
        seq![18, 6, 10, 15],
        seq![30, 8, 12, 20],
        seq![50, 10, 14, 24],
        seq![80, 13, 18, 28],
        seq![120, 16, 22, 34],
        seq![180, 18, 26, 41],
        seq![250, 22, 30, 47],
        seq![315, 25, 36, 55],
        seq![400, 29, 39, 60],
        seq![500, 33, 43, 66],
    ]
}

/// Reads one entry of [`UPPER_J`].
pub fn upper_j_entry(row: usize, col: usize) -> (v: i32)
    requires
        row < 13,
        col < 4,
    ensures
        v == upper_j_table()[row as int][col as int],
        2 <= v <= 500,
{
    UPPER_J[row][col]
}

/// The size range of [`UPPER_J`] that holds a nominal size of `size`
/// millimetres.
pub fn upper_j_row(size: i32) -> (r: Option<usize>)
    ensures
        match r {
            Some(i) => i < 13 && first_row_at_least(upper_j_table(), size as int) == Some(i as int),
            None => first_row_at_least(upper_j_table(), size as int) is None,
        },
        size <= 500 ==> r is Some,
{
    proof {
        lemma_first_row(upper_j_table(), size as int, 0);
    }
    let mut i: usize = 0;
    while i < 13
        invariant
            i <= 13,
            upper_j_table().len() == 13,
            first_row_at_least(upper_j_table(), size as int) == first_row_from(upper_j_table(), size as int, i as int),
        decreases 13 - i,
    {
        if UPPER_J[i][0] >= size {
            return Some(i);
        }
        i += 1;
    }
    None
}

/// Magnitudes of the lower deviations of shafts j5/j6, j7, j8 in micrometres,
/// by nominal size (-1 where not defined).
pub const LOWER_J: [[i32; 4]; 13] = [
    [3, 2, 4, 6],
    [6, 2, 4, -1],
    [10, 2, 5, -1],
    [18, 3, 6, -1],
    [30, 4, 8, -1],
    [50, 5, 10, -1],
    [80, 7, 12, -1],
    [120, 9, 15, -1],
    [180, 11, 18, -1],
    [250, 13, 21, -1],
    [315, 16, 26, -1],
    [400, 18, 28, -1],
    [500, 20, 32, -1],
];

/// The model of [`LOWER_J`].
pub closed spec fn lower_j_table() -> Seq<Seq<int>> {
    seq![
        seq![3, 2, 4, 6],
        seq![6, 2, 4, -1],
        seq![10, 2, 5, -1],
        seq![18, 3, 6, -1],
        seq![30, 4, 8, -1],
        seq![50, 5, 10, -1],
        seq![80, 7, 12, -1],
        seq![120, 9, 15, -1],
        seq![180, 11, 18, -1],
        seq![250, 13, 21, -1],
        seq![315, 16, 26, -1],
        seq![400, 18, 28, -1],
        seq![500, 20, 32, -1],
    ]
}

/// Reads one entry of [`LOWER_J`].
pub fn lower_j_entry(row: usize, col: usize) -> (v: i32)
    requires
        row < 13,
        col < 4,
    ensures
        v == lower_j_table()[row as int][col as int],
        -1 <= v <= 500,
{
    LOWER_J[row][col]
}

/// The size range of [`LOWER_J`] that holds a nominal size of `size`
/// millimetres.
pub fn lower_j_row(size: i32) -> (r: Option<usize>)
    ensures
        match r {
            Some(i) => i < 13 && first_row_at_least(lower_j_table(), size as int) == Some(i as int),
            None => first_row_at_least(lower_j_table(), size as int) is None,
        },
        size <= 500 ==> r is Some,
{
    proof {
        lemma_first_row(lower_j_table(), size as int, 0);
    }
    let mut i: usize = 0;
    while i < 13
        invariant
            i <= 13,
            lower_j_table().len() == 13,
            first_row_at_least(lower_j_table(), size as int) == first_row_from(lower_j_table(), size as int, i as int),
        decreases 13 - i,
    {
        if LOWER_J[i][0] >= size {
            return Some(i);
        }
        i += 1;
    }
    None
}

/// Correction Δ of the fundamental deviations K to ZC (ISO 286-1).
/// Column 0 is the upper bound of the nominal size range in millimetres;
/// columns 1 to 6 hold Δ for IT3 to IT8 in tenths of a micrometre.
pub const DELTA: [[i32; 7]; 13] = [
    [3, 0, 0, 0, 0, 0, 0],
    [6, 10, 15, 10, 30, 40, 60],
    [10, 10, 15, 20, 30, 60, 70],
    [18, 10, 20, 30, 30, 70, 90],
    [30, 15, 20, 30, 40, 80, 120],
    [50, 15, 30, 40, 50, 90, 140],
    [80, 20, 30, 50, 60, 110, 160],
    [120, 20, 40, 50, 70, 130, 190],
    [180, 30, 40, 60, 70, 150, 230],
    [250, 30, 40, 60, 90, 170, 260],
    [315, 40, 40, 70, 90, 200, 290],
    [400, 40, 50, 70, 110, 210, 320],
    [500, 50, 50, 70, 130, 230, 340],
];

/// The model of [`DELTA`].
pub closed spec fn delta_table() -> Seq<Seq<int>> {
    seq![
        seq![3, 0, 0, 0, 0, 0, 0],
        seq![6, 10, 15, 10, 30, 40, 60],
        seq![10, 10, 15, 20, 30, 60, 70],
        seq![18, 10, 20, 30, 30, 70, 90],
        seq![30, 15, 20, 30, 40, 80, 120],
        seq![50, 15, 30, 40, 50, 90, 140],
        seq![80, 20, 30, 50, 60, 110, 160],
        seq![120, 20, 40, 50, 70, 130, 190],
        seq![180, 30, 40, 60, 70, 150, 230],
        seq![250, 30, 40, 60, 90, 170, 260],
        seq![315, 40, 40, 70, 90, 200, 290],
        seq![400, 40, 50, 70, 110, 210, 320],
        seq![500, 50, 50, 70, 130, 230, 340],
    ]
}

/// Reads one entry of [`DELTA`].
pub fn delta_entry(row: usize, col: usize) -> (v: i32)
    requires
        row < 13,
        col < 7,
    ensures
        v == delta_table()[row as int][col as int],
        0 <= v <= 500,
{
    DELTA[row][col]
}

/// The size range of [`DELTA`] that holds a nominal size of `size`
/// millimetres.
pub fn delta_row(size: i32) -> (r: Option<usize>)
    ensures
        match r {
            Some(i) => i < 13 && first_row_at_least(delta_table(), size as int) == Some(i as int),
            None => first_row_at_least(delta_table(), size as int) is None,
        },
        size <= 500 ==> r is Some,
{
    proof {
        lemma_first_row(delta_table(), size as int, 0);
    }
    let mut i: usize = 0;
    while i < 13
        invariant
            i <= 13,
            delta_table().len() == 13,
            first_row_at_least(delta_table(), size as int) == first_row_from(delta_table(), size as int, i as int),
        decreases 13 - i,
    {
        if DELTA[i][0] >= size {
            return Some(i);
        }
        i += 1;
    }
    None
}

/// Every standard tolerance is positive where the grade is defined.
pub proof fn lemma_standard_tolerances_positive()
    ensures
        it_table().len() == 21,
        forall|i: int, j: int|
            0 <= i < 21 && 1 <= j < 21 ==> #[trigger] it_table()[i][j] == -1 || it_table()[i][j] >= 3,
{
}

/// The standard tolerances and the coarse table of deviations cover the
/// same nominal sizes: those up to 3150 mm.
pub proof fn lemma_it_and_a_js_rows(size: int)
    ensures
        first_row_at_least(it_table(), size) is Some <==> size <= 3150,
        first_row_at_least(a_js_table(), size) is Some <==> size <= 3150,
{
    lemma_first_row(it_table(), size, 0);
    lemma_first_row(a_js_table(), size, 0);
    assert(forall|i: int| 0 <= i < 21 ==> #[trigger] it_table()[i][0] <= 3150);
    assert(forall|i: int| 0 <= i < 30 ==> #[trigger] a_js_table()[i][0] <= 3150);
    assert(it_table()[20][0] == 3150);
    assert(a_js_table()[29][0] == 3150);
}

/// Along a row of standard tolerances, each grade's tolerance is at least
/// the one before, except for the step from IT12 (column 14) to IT13 in the
/// row of sizes above 500 up to 630 mm, whose IT12 entry reads 70000.
proof fn lemma_it_row_steps(row: int, j: int)
    requires
        0 <= row < 21,
        1 <= j < 20,
        !(row == 13 && j == 14),
    ensures
        it_table()[row][j] <= it_table()[row][j + 1],
{
}

/// Within a row, a later column holds a tolerance at least as large, as
/// long as the columns do not straddle that one step.
proof fn lemma_it_row_chain(row: int, j1: int, j2: int)
    requires
        0 <= row < 21,
        1 <= j1 <= j2 < 21,
        !(row == 13 && j1 <= 14 < j2),
    ensures
        it_table()[row][j1] <= it_table()[row][j2],
    decreases j2 - j1,
{
    if j1 < j2 {
        lemma_it_row_chain(row, j1, j2 - 1);
        lemma_it_row_steps(row, j2 - 1);
    }
}

/// In the row of standard tolerances for a nominal size, a coarser grade
/// has a tolerance at least as large, except IT12 against IT13 to IT16
/// (columns 14 and 15 to 18) for sizes above 500 up to 630 mm.
pub proof fn lemma_it_row_grows(size: int, j1: int, j2: int)
    requires
        !(500 < size <= 630 && j1 == 14 && 15 <= j2 <= 18),
        first_row_at_least(it_table(), size) is Some,
        1 <= j1 <= j2 < 21,
    ensures
        it_table()[first_row_at_least(it_table(), size)->0][j1] <= it_table()[first_row_at_least(
            it_table(),
            size,
        )->0][j2],
{
    lemma_first_row(it_table(), size, 0);
    let row = first_row_at_least(it_table(), size)->0;
    if row == 13 {
        assert(it_table()[12][0] == 500);
        assert(it_table()[13][0] == 630);
        assert(500 < size <= 630);
        if !(j1 <= 14 < j2) {
            lemma_it_row_chain(row, j1, j2);
        } else if j1 <= 13 {
            lemma_it_row_chain(row, j1, 13);
            lemma_it_row_chain(row, 15, j2);
            assert(it_table()[13][13] <= it_table()[13][15]);
        } else {
            lemma_it_row_chain(row, 19, j2);
            assert(it_table()[13][14] <= it_table()[13][19]);
        }
    } else {
        lemma_it_row_chain(row, j1, j2);
    }
}

/// For nominal sizes up to 500 mm, the table of Δ has a row; above 3 mm
/// every Δ of that row (IT3 to IT8) is positive.
pub proof fn lemma_delta_rows(size: int)
    requires
        size <= 500,
    ensures
        first_row_at_least(delta_table(), size) matches Some(r) && 0 <= r < 13 && delta_table()[r].len()
            == 7 && (size > 3 ==> forall|j: int| 1 <= j < 7 ==> #[trigger] delta_table()[r][j] > 0),
{
    lemma_first_row(delta_table(), size, 0);
    assert(delta_table()[12][0] == 500);
    assert(delta_table()[0][0] == 3);
    assert(forall|i: int, j: int| 1 <= i < 13 && 1 <= j < 7 ==> #[trigger] delta_table()[i][j] > 0);
    assert(forall|i: int| 0 <= i < 13 ==> #[trigger] delta_table()[i].len() == 7);
}

/// The lower deviations of the shafts j5 to j8 lie below the nominal size
/// and are smaller than the standard tolerance of their grade: j5 and j6
/// read column 1, j7 column 2 and j8 column 3 of the table, and the size
/// ranges of the table are those of the standard tolerances.
pub proof fn lemma_j_deviations_within_tolerance(size: int, g: int)
    requires
        7 <= g <= 10,
        first_row_at_least(lower_j_table(), size) is Some,
    ensures
        ({
            let r = first_row_at_least(lower_j_table(), size)->0;
            let v = lower_j_table()[r][if g < 8 { 1 } else { g - 7 }];
            &&& first_row_at_least(it_table(), size) == Some(r)
            &&& v != -1 ==> 0 < v && v * 1000 < it_table()[r][g] * 100
        }),
{
    lemma_first_row(lower_j_table(), size, 0);
    lemma_first_row(it_table(), size, 0);
    assert(forall|i: int| 0 <= i < 13 ==> #[trigger] it_table()[i][0] == lower_j_table()[i][0]);
    assert(forall|i: int, j: int|
        0 <= i < 13 && 1 <= j < 4 && #[trigger] lower_j_table()[i][j] != -1 ==> 0 < lower_j_table()[i][j]
            && lower_j_table()[i][j] * 10 < it_table()[i][j + 7]);
    assert(forall|i: int| 0 <= i < 13 ==> lower_j_table()[i][1] * 10 < #[trigger] it_table()[i][7]);
}

/// The entries of [`it_table`].
pub proof fn lemma_it_table_values()
    ensures
        it_table() == seq![
            seq![3int, 3, 5, 8, 12, 20, 30, 40, 60, 100, 140, 250, 400, 600, 1000, 1400, 2500, 4000, 6000, 10000, 14000],
            seq![6, 4, 6, 10, 15, 25, 40, 50, 80, 120, 180, 300, 480, 750, 1200, 1800, 3000, 4800, 7500, 12000, 18000],
            seq![10, 4, 6, 10, 15, 25, 40, 60, 90, 150, 220, 360, 580, 900, 1500, 2200, 3600, 5800, 9000, 15000, 22000],
            seq![18, 5, 8, 12, 20, 30, 50, 80, 110, 180, 270, 430, 700, 1100, 1800, 2700, 4300, 7000, 11000, 18000, 27000],
            seq![30, 6, 10, 15, 25, 40, 60, 90, 130, 210, 330, 520, 840, 1300, 2100, 3300, 5200, 8400, 13000, 21000, 33000],
            seq![50, 6, 10, 15, 25, 40, 70, 110, 160, 250, 390, 620, 1000, 1600, 2500, 3900, 6200, 10000, 16000, 25000, 39000],
            seq![80, 8, 12, 20, 30, 50, 80, 130, 190, 300, 460, 740, 1200, 1900, 3000, 4600, 7400, 12000, 19000, 30000, 46000],
            seq![120, 10, 15, 25, 40, 60, 100, 150, 220, 350, 540, 870, 1400, 2200, 3500, 5400, 8700, 14000, 22000, 35000, 54000],
            seq![180, 12, 20, 35, 50, 80, 120, 180, 250, 400, 630, 1000, 1600, 2500, 4000, 6300, 10000, 16000, 25000, 40000, 63000],
            seq![250, 20, 30, 45, 70, 100, 140, 200, 290, 460, 720, 1150, 1850, 2900, 4600, 7200, 11500, 18500, 29000, 46000, 72000],
            seq![315, 25, 40, 60, 80, 120, 160, 230, 320, 520, 810, 1300, 2100, 3200, 5200, 8100, 13000, 21000, 32000, 52000, 81000],
            seq![400, 30, 50, 70, 90, 130, 180, 250, 360, 570, 890, 1400, 2300, 3600, 5700, 8900, 14000, 23000, 36000, 57000, 89000],
            seq![500, 40, 60, 80, 100, 150, 200, 270, 400, 630, 970, 1550, 2500, 4000, 6300, 9700, 15500, 25000, 40000, 63000, 97000],
            seq![630, -1, -1, 90, 110, 160, 220, 320, 440, 700, 1100, 1750, 2800, 4400, 70000, 11000, 17500, 28000, 44000, 70000, 110000],
            seq![800, -1, -1, 100, 130, 180, 250, 360, 500, 800, 1250, 2000, 3200, 5000, 8000, 12500, 20000, 32000, 50000, 80000, 125000],
            seq![1000, -1, -1, 110, 150, 210, 280, 400, 560, 900, 1400, 2300, 3600, 5600, 9000, 14000, 23000, 36000, 56000, 90000, 140000],
            seq![1250, -1, -1, 130, 180, 240, 330, 470, 660, 1050, 1650, 2600, 4200, 6600, 10500, 16500, 26000, 42000, 66000, 105000, 165000],
            seq![1600, -1, -1, 150, 210, 290, 390, 550, 780, 1250, 1950, 3100, 5000, 7800, 12500, 19500, 31000, 50000, 78000, 125000, 195000],
            seq![2000, -1, -1, 180, 250, 350, 460, 650, 920, 1500, 2300, 3700, 6000, 9200, 15000, 23000, 37000, 60000, 92000, 150000, 230000],
            seq![2500, -1, -1, 220, 300, 410, 550, 780, 1100, 1750, 2800, 4400, 7000, 11000, 17500, 28000, 44000, 70000, 110000, 175000, 280000],
            seq![3150, -1, -1, 260, 360, 500, 680, 960, 1350, 2100, 3300, 5400, 8600, 13500, 21000, 33000, 54000, 86000, 135000, 210000, 330000],
        ],
{
}

/// The entries of [`a_js_table`].
pub proof fn lemma_a_js_table_values()
    ensures
        a_js_table() == seq![
            seq![3int, 270, 140, 60, 34, 20, 14, 10, 6, 4, 2],
            seq![6, 270, 140, 70, 46, 30, 20, 14, 10, 6, 4],
            seq![10, 280, 150, 80, 56, 40, 25, 18, 13, 8, 5],
            seq![18, 290, 150, 95, 70, 50, 32, 23, 16, 10, 6],
            seq![30, 300, 160, 110, 85, 65, 40, 28, 20, 12, 7],
            seq![40, 310, 170, 120, 100, 80, 50, 35, 25, 15, 9],
            seq![50, 320, 180, 130, 100, 80, 50, 35, 25, 15, 9],
            seq![65, 340, 190, 140, -1, 100, 60, -1, 30, -1, 10],
            seq![80, 360, 200, 150, -1, 100, 60, -1, 30, -1, 10],
            seq![100, 380, 220, 170, -1, 120, 72, -1, 36, -1, 12],
            seq![120, 410, 240, 180, -1, 120, 72, -1, 36, -1, 12],
            seq![140, 460, 260, 200, -1, 145, 85, -1, 43, -1, 14],
            seq![160, 520, 280, 210, -1, 145, 85, -1, 43, -1, 14],
            seq![200, 660, 340, 240, -1, 170, 100, -1, 50, -1, 15],
            seq![225, 740, 380, 260, -1, 170, 100, -1, 50, -1, 15],
            seq![250, 820, 420, 280, -1, 170, 100, -1, 50, -1, 15],
            seq![280, 920, 480, 300, -1, 190, 110, -1, 56, -1, 17],
            seq![315, 1050, 540, 330, -1, 190, 110, -1, 56, -1, 17],
            seq![355, 1200, 600, 360, -1, 210, 125, -1, 62, -1, 18],
            seq![400, 1350, 680, 400, -1, 210, 125, -1, 62, -1, 18],
            seq![450, 1500, 760, 440, -1, 230, 135, -1, 68, -1, 20],
            seq![500, 1650, 840, 480, -1, 230, 135, -1, 68, -1, 20],
            seq![630, -1, -1, -1, -1, 260, 145, -1, 76, -1, 22],
            seq![800, -1, -1, -1, -1, 290, 160, -1, 80, -1, 24],
            seq![1000, -1, -1, -1, -1, 320, 170, -1, 86, -1, 26],
            seq![1250, -1, -1, -1, -1, 350, 195, -1, 98, -1, 28],
            seq![1600, -1, -1, -1, -1, 390, 220, -1, 110, -1, 30],
            seq![2000, -1, -1, -1, -1, 430, 240, -1, 120, -1, 32],
            seq![2500, -1, -1, -1, -1, 480, 260, -1, 130, -1, 34],
            seq![3150, -1, -1, -1, -1, 520, 290, -1, 145, -1, 38],
        ],
{
}

/// The entries of [`a_g_table`].
pub proof fn lemma_a_g_table_values()
    ensures
        a_g_table() == seq![
            seq![3int, 270, 140, 60, 34, 20, 14, 10, 6, 4, 2],
            seq![6, 270, 140, 70, 46, 30, 20, 14, 10, 6, 4],
            seq![10, 280, 150, 80, 56, 40, 25, 18, 13, 8, 5],
            seq![18, 290, 150, 95, 70, 50, 32, 23, 16, 10, 6],
            seq![30, 300, 160, 110, 85, 65, 40, 28, 20, 12, 7],
            seq![40, 310, 170, 120, 100, 80, 50, 35, 25, 15, 9],
            seq![50, 320, 180, 130, 100, 80, 50, 35, 25, 15, 9],
            seq![65, 340, 190, 140, -1, 100, 60, -1, 30, -1, 10],
            seq![80, 360, 200, 150, -1, 100, 60, -1, 30, -1, 10],
            seq![100, 380, 220, 170, -1, 120, 72, -1, 36, -1, 12],
            seq![120, 410, 240, 180, -1, 120, 72, -1, 36, -1, 12],
            seq![140, 460, 260, 200, -1, 145, 85, -1, 43, -1, 14],
            seq![160, 520, 280, 210, -1, 145, 85, -1, 43, -1, 14],
            seq![180, 580, 310, 230, -1, 145, 85, -1, 43, -1, 14],
            seq![200, 660, 340, 240, -1, 170, 100, -1, 50, -1, 15],
            seq![225, 740, 380, 260, -1, 170, 100, -1, 50, -1, 15],
            seq![250, 820, 420, 280, -1, 170, 100, -1, 50, -1, 15],
            seq![280, 920, 480, 300, -1, 190, 110, -1, 56, -1, 17],
            seq![315, 1050, 540, 330, -1, 190, 110, -1, 56, -1, 17],
            seq![355, 1200, 600, 360, -1, 210, 125, -1, 62, -1, 18],
            seq![400, 1350, 680, 400, -1, 210, 125, -1, 62, -1, 18],
            seq![450, 1500, 760, 440, -1, 230, 135, -1, 68, -1, 20],
            seq![500, 1650, 840, 480, -1, 230, 135, -1, 68, -1, 20],
            seq![630, -1, -1, -1, -1, 260, 145, -1, 76, -1, 22],
            seq![800, -1, -1, -1, -1, 290, 160, -1, 80, -1, 24],
            seq![1000, -1, -1, -1, -1, 320, 170, -1, 86, -1, 26],
            seq![1250, -1, -1, -1, -1, 350, 195, -1, 98, -1, 28],
            seq![1600, -1, -1, -1, -1, 390, 220, -1, 110, -1, 30],
            seq![2000, -1, -1, -1, -1, 430, 240, -1, 120, -1, 32],
            seq![2500, -1, -1, -1, -1, 480, 260, -1, 130, -1, 34],
            seq![3150, -1, -1, -1, -1, 520, 290, -1, 145, -1, 38],
        ],
{
}

/// The entries of [`k_zc_table`].
pub proof fn lemma_k_zc_table_values()
    ensures
        k_zc_table() == seq![
            seq![3int, 0, 2, 4, 6, 10, 14, -1, 18, -1, 20, -1, 26, 32, 40, 60],
            seq![6, 1, 4, 8, 12, 15, 19, -1, 23, -1, 28, -1, 35, 42, 50, 80],
            seq![10, 1, 6, 10, 15, 19, 23, -1, 28, -1, 34, -1, 42, 52, 67, 97],
            seq![14, 1, 7, 12, 18, 23, 28, -1, 33, -1, 40, -1, 50, 64, 90, 130],
            seq![18, 1, 7, 12, 18, 23, 28, -1, 33, 39, 45, -1, 60, 77, 108, 150],
            seq![24, 2, 8, 15, 22, 28, 35, -1, 41, 47, 54, 63, 73, 98, 136, 188],
            seq![30, 2, 8, 15, 22, 28, 35, 41, 48, 55, 64, 75, 88, 118, 160, 218],
            seq![40, 2, 9, 17, 26, 34, 43, 48, 60, 68, 80, 94, 112, 148, 200, 274],
            seq![50, 2, 9, 17, 26, 34, 43, 54, 70, 81, 97, 114, 136, 180, 242, 325],
            seq![65, 2, 11, 20, 32, 41, 53, 66, 87, 102, 122, 144, 172, 226, 300, 405],
            seq![80, 2, 11, 20, 32, 43, 59, 75, 102, 120, 146, 174, 210, 274, 360, 480],
            seq![100, 3, 13, 23, 37, 51, 71, 91, 124, 146, 178, 214, 258, 335, 445, 585],
            seq![120, 3, 13, 23, 37, 54, 79, 104, 144, 172, 210, 254, 310, 400, 525, 690],
            seq![140, 3, 15, 27, 43, 63, 92, 122, 170, 202, 248, 300, 365, 470, 620, 800],
            seq![160, 3, 15, 27, 43, 65, 100, 134, 190, 228, 280, 340, 415, 535, 700, 900],
            seq![180, 3, 15, 27, 43, 68, 108, 146, 210, 252, 310, 380, 465, 600, 780, 1000],
            seq![200, 4, 17, 31, 50, 77, 122, 166, 236, 284, 350, 425, 520, 670, 880, 1150],
            seq![225, 4, 17, 31, 50, 80, 130, 180, 258, 310, 385, 470, 575, 740, 960, 1250],
            seq![250, 4, 17, 31, 50, 84, 140, 196, 284, 340, 425, 520, 640, 820, 1050, 1350],
            seq![280, 4, 20, 34, 56, 94, 158, 218, 315, 385, 475, 580, 710, 920, 1200, 1550],
            seq![315, 4, 20, 34, 56, 98, 170, 240, 350, 425, 525, 650, 790, 1000, 1300, 1700],
            seq![355, 4, 21, 37, 62, 108, 190, 268, 390, 475, 590, 730, 900, 1150, 1500, 1900],
            seq![400, 4, 21, 37, 62, 114, 208, 294, 435, 530, 660, 820, 1000, 1300, 1650, 2100],
            seq![450, 5, 23, 40, 68, 126, 232, 330, 490, 595, 740, 920, 1100, 1450, 1850, 2400],
            seq![500, 5, 23, 40, 68, 132, 252, 360, 540, 660, 820, 1000, 1250, 1600, 2100, 2600],
            seq![560, 0, 26, 44, 78, 150, 280, 400, 600, -1, -1, -1, -1, -1, -1, -1],
            seq![630, 0, 26, 44, 78, 155, 310, 450, 660, -1, -1, -1, -1, -1, -1, -1],
            seq![710, 0, 30, 50, 88, 175, 340, 500, 740, -1, -1, -1, -1, -1, -1, -1],
            seq![800, 0, 30, 50, 88, 185, 380, 560, 840, -1, -1, -1, -1, -1, -1, -1],
            seq![900, 0, 34, 56, 100, 210, 430, 620, 940, -1, -1, -1, -1, -1, -1, -1],
            seq![1000, 0, 34, 56, 100, 220, 470, 680, 1050, -1, -1, -1, -1, -1, -1, -1],
            seq![1120, 0, 40, 66, 120, 250, 520, 780, 1150, -1, -1, -1, -1, -1, -1, -1],
            seq![1250, 0, 40, 66, 120, 260, 580, 840, 1300, -1, -1, -1, -1, -1, -1, -1],
            seq![1400, 0, 48, 78, 140, 300, 640, 960, 1450, -1, -1, -1, -1, -1, -1, -1],
            seq![1600, 0, 48, 78, 140, 330, 720, 1050, 1600, -1, -1, -1, -1, -1, -1, -1],
            seq![1800, 0, 58, 92, 170, 370, 820, 1200, 1850, -1, -1, -1, -1, -1, -1, -1],
            seq![2000, 0, 58, 92, 170, 400, 920, 1350, 2000, -1, -1, -1, -1, -1, -1, -1],
            seq![2240, 0, 68, 110, 195, 440, 1000, 1500, 2300, -1, -1, -1, -1, -1, -1, -1],
            seq![2500, 0, 68, 110, 195, 460, 1100, 1650, 2500, -1, -1, -1, -1, -1, -1, -1],
            seq![2800, 0, 76, 135, 240, 550, 1250, 1900, 2900, -1, -1, -1, -1, -1, -1, -1],
            seq![3150, 0, 76, 135, 240, 580, 1400, 2100, 3200, -1, -1, -1, -1, -1, -1, -1],
        ],
{
}

/// The entries of [`upper_j_table`].
pub proof fn lemma_upper_j_table_values()
    ensures
        upper_j_table() == seq![
            seq![3int, 2, 4, 6],
            seq![6, 5, 6, 10],
            seq![10, 5, 8, 12],
            seq![18, 6, 10, 15],
            seq![30, 8, 12, 20],
            seq![50, 10, 14, 24],
            seq![80, 13, 18, 28],
            seq![120, 16, 22, 34],
            seq![180, 18, 26, 41],
            seq![250, 22, 30, 47],
            seq![315, 25, 36, 55],
            seq![400, 29, 39, 60],
            seq![500, 33, 43, 66],
        ],
{
}

/// The entries of [`lower_j_table`].
pub proof fn lemma_lower_j_table_values()
    ensures
        lower_j_table() == seq![
            seq![3int, 2, 4, 6],
            seq![6, 2, 4, -1],
            seq![10, 2, 5, -1],
            seq![18, 3, 6, -1],
            seq![30, 4, 8, -1],
            seq![50, 5, 10, -1],
            seq![80, 7, 12, -1],
            seq![120, 9, 15, -1],
            seq![180, 11, 18, -1],
            seq![250, 13, 21, -1],
            seq![315, 16, 26, -1],
            seq![400, 18, 28, -1],
            seq![500, 20, 32, -1],
        ],
{
}

/// The entries of [`delta_table`].
pub proof fn lemma_delta_table_values()
    ensures
        delta_table() == seq![
            seq![3int, 0, 0, 0, 0, 0, 0],
            seq![6, 10, 15, 10, 30, 40, 60],
            seq![10, 10, 15, 20, 30, 60, 70],
            seq![18, 10, 20, 30, 30, 70, 90],
            seq![30, 15, 20, 30, 40, 80, 120],
            seq![50, 15, 30, 40, 50, 90, 140],
            seq![80, 20, 30, 50, 60, 110, 160],
            seq![120, 20, 40, 50, 70, 130, 190],
            seq![180, 30, 40, 60, 70, 150, 230],
            seq![250, 30, 40, 60, 90, 170, 260],
            seq![315, 40, 40, 70, 90, 200, 290],
            seq![400, 40, 50, 70, 110, 210, 320],
            seq![500, 50, 50, 70, 130, 230, 340],
        ],
{
}

} // verus!
