//! The names of the tolerance grades and fundamental deviations, and how a
//! user's text is matched against them.

use vstd::prelude::*;
use vstd::string::*;

verus! {

/// An ASCII capital letter.
pub open spec fn is_ascii_upper(c: char) -> bool {
    'A' <= c && c <= 'Z'
}

/// Two characters that are equal once ASCII capitals are lowered.
pub open spec fn chars_eq_ignore_ascii_case(a: char, b: char) -> bool {
    ||| a == b
    ||| is_ascii_upper(a) && (a as int) + 32 == (b as int)
    ||| is_ascii_upper(b) && (b as int) + 32 == (a as int)
}

/// Two texts that are equal once ASCII capitals are lowered.
pub open spec fn eq_ignore_ascii_case(a: Seq<char>, b: Seq<char>) -> bool {
    &&& a.len() == b.len()
    &&& forall|i: int| 0 <= i < a.len() ==> chars_eq_ignore_ascii_case(#[trigger] a[i], b[i])
}

/// Whether `label` names `s`: exactly, or ignoring ASCII case.
pub open spec fn names(label: Seq<char>, s: Seq<char>, ignore_case: bool) -> bool {
    if ignore_case {
        eq_ignore_ascii_case(label, s)
    } else {
        label == s
    }
}

/// The first label, at index `i` or later, that names `s`.
pub open spec fn position_from(labels: Seq<Seq<char>>, s: Seq<char>, ignore_case: bool, i: int) -> Option<int>
    decreases labels.len() - i,
{
    if 0 <= i < labels.len() {
        if names(labels[i], s, ignore_case) {
            Some(i)
        } else {
            position_from(labels, s, ignore_case, i + 1)
        }
    } else {
        None
    }
}

/// The index of the tolerance grade whose number is `g`.
pub open spec fn grade_position(g: Seq<char>) -> Option<int> {
    position_from(grade_labels(), g, false, 0)
}

/// The index of the fundamental deviation that `d` names, in either case.
pub open spec fn deviation_position(d: Seq<char>) -> Option<int> {
    position_from(deviation_labels(), d, true, 0)
}

/// The tolerance grades IT01, IT0, IT1, ..., IT18, by their numbers.
pub open spec fn grade_labels() -> Seq<Seq<char>> {
    seq![
        seq!['0', '1'],
        seq!['0'],
        seq!['1'],
        seq!['2'],
        seq!['3'],
        seq!['4'],
        seq!['5'],
        seq!['6'],
        seq!['7'],
        seq!['8'],
        seq!['9'],
        seq!['1', '0'],
        seq!['1', '1'],
        seq!['1', '2'],
        seq!['1', '3'],
        seq!['1', '4'],
        seq!['1', '5'],
        seq!['1', '6'],
        seq!['1', '7'],
        seq!['1', '8'],
    ]
}

/// The fundamental deviations, as shaft letters a to zc.
pub open spec fn deviation_labels() -> Seq<Seq<char>> {
    seq![
        seq!['a'],
        seq!['b'],
        seq!['c'],
        seq!['c', 'd'],
        seq!['d'],
        seq!['e'],
        seq!['e', 'f'],
        seq!['f'],
        seq!['f', 'g'],
        seq!['g'],
        seq!['h'],
        seq!['j', 's'],
        seq!['j'],
        seq!['k'],
        seq!['m'],
        seq!['n'],
        seq!['p'],
        seq!['r'],
        seq!['s'],
        seq!['t'],
        seq!['u'],
        seq!['v'],
        seq!['x'],
        seq!['y'],
        seq!['z'],
        seq!['z', 'a'],
        seq!['z', 'b'],
        seq!['z', 'c'],
    ]
}

/// The fundamental deviations, as hole letters A to ZC.
pub open spec fn hole_labels() -> Seq<Seq<char>> {
    seq![
        seq!['A'],
        seq!['B'],
        seq!['C'],
        seq!['C', 'D'],
        seq!['D'],
        seq!['E'],
        seq!['E', 'F'],
        seq!['F'],
        seq!['F', 'G'],
        seq!['G'],
        seq!['H'],
        seq!['J', 'S'],
        seq!['J'],
        seq!['K'],
        seq!['M'],
        seq!['N'],
        seq!['P'],
        seq!['R'],
        seq!['S'],
        seq!['T'],
        seq!['U'],
        seq!['V'],
        seq!['X'],
        seq!['Y'],
        seq!['Z'],
        seq!['Z', 'A'],
        seq!['Z', 'B'],
        seq!['Z', 'C'],
    ]
}

/// The number of the `i`-th tolerance grade.
pub fn grade_label(i: usize) -> (s: &'static str)
    requires
        i < 20,
    ensures
        s@ == grade_labels()[i as int],
{
    match i {
        0 => {
            proof {
                reveal_strlit("01");
            }
            "01"
        }
        1 => {
            proof {
                reveal_strlit("0");
            }
            "0"
        }
        2 => {
            proof {
                reveal_strlit("1");
            }
            "1"
        }
        3 => {
            proof {
                reveal_strlit("2");
            }
            "2"
        }
        4 => {
            proof {
                reveal_strlit("3");
            }
            "3"
        }
        5 => {
            proof {
                reveal_strlit("4");
            }
            "4"
        }
        6 => {
            proof {
                reveal_strlit("5");
            }
            "5"
        }
        7 => {
            proof {
                reveal_strlit("6");
            }
            "6"
        }
        8 => {
            proof {
                reveal_strlit("7");
            }
            "7"
        }
        9 => {
            proof {
                reveal_strlit("8");
            }
            "8"
        }
        10 => {
            proof {
                reveal_strlit("9");
            }
            "9"
        }
        11 => {
            proof {
                reveal_strlit("10");
            }
            "10"
        }
        12 => {
            proof {
                reveal_strlit("11");
            }
            "11"
        }
        13 => {
            proof {
                reveal_strlit("12");
            }
            "12"
        }
        14 => {
            proof {
                reveal_strlit("13");
            }
            "13"
        }
        15 => {
            proof {
                reveal_strlit("14");
            }
            "14"
        }
        16 => {
            proof {
                reveal_strlit("15");
            }
            "15"
        }
        17 => {
            proof {
                reveal_strlit("16");
            }
            "16"
        }
        18 => {
            proof {
                reveal_strlit("17");
            }
            "17"
        }
        _ => {
            proof {
                reveal_strlit("18");
            }
            "18"
        }
    }
}

/// The `i`-th fundamental deviation as a shaft letter.
pub fn deviation_label(i: usize) -> (s: &'static str)
    requires
        i < 28,
    ensures
        s@ == deviation_labels()[i as int],
{
    match i {
        0 => {
            proof {
                reveal_strlit("a");
            }
            "a"
        }
        1 => {
            proof {
                reveal_strlit("b");
            }
            "b"
        }
        2 => {
            proof {
                reveal_strlit("c");
            }
            "c"
        }
        3 => {
            proof {
                reveal_strlit("cd");
            }
            "cd"
        }
        4 => {
            proof {
                reveal_strlit("d");
            }
            "d"
        }
        5 => {
            proof {
                reveal_strlit("e");
            }
            "e"
        }
        6 => {
            proof {
                reveal_strlit("ef");
            }
            "ef"
        }
        7 => {
            proof {
                reveal_strlit("f");
            }
            "f"
        }
        8 => {
            proof {
                reveal_strlit("fg");
            }
            "fg"
        }
        9 => {
            proof {
                reveal_strlit("g");
            }
            "g"
        }
        10 => {
            proof {
                reveal_strlit("h");
            }
            "h"
        }
        11 => {
            proof {
                reveal_strlit("js");
            }
            "js"
        }
        12 => {
            proof {
                reveal_strlit("j");
            }
            "j"
        }
        13 => {
            proof {
                reveal_strlit("k");
            }
            "k"
        }
        14 => {
            proof {
                reveal_strlit("m");
            }
            "m"
        }
        15 => {
            proof {
                reveal_strlit("n");
            }
            "n"
        }
        16 => {
            proof {
                reveal_strlit("p");
            }
            "p"
        }
        17 => {
            proof {
                reveal_strlit("r");
            }
            "r"
        }
        18 => {
            proof {
                reveal_strlit("s");
            }
            "s"
        }
        19 => {
            proof {
                reveal_strlit("t");
            }
            "t"
        }
        20 => {
            proof {
                reveal_strlit("u");
            }
            "u"
        }
        21 => {
            proof {
                reveal_strlit("v");
            }
            "v"
        }
        22 => {
            proof {
                reveal_strlit("x");
            }
            "x"
        }
        23 => {
            proof {
                reveal_strlit("y");
            }
            "y"
        }
        24 => {
            proof {
                reveal_strlit("z");
            }
            "z"
        }
        25 => {
            proof {
                reveal_strlit("za");
            }
            "za"
        }
        26 => {
            proof {
                reveal_strlit("zb");
            }
            "zb"
        }
        _ => {
            proof {
                reveal_strlit("zc");
            }
            "zc"
        }
    }
}

/// The `i`-th fundamental deviation as a hole letter.
pub fn hole_label(i: usize) -> (s: &'static str)
    requires
        i < 28,
    ensures
        s@ == hole_labels()[i as int],
{
    match i {
        0 => {
            proof {
                reveal_strlit("A");
            }
            "A"
        }
        1 => {
            proof {
                reveal_strlit("B");
            }
            "B"
        }
        2 => {
            proof {
                reveal_strlit("C");
            }
            "C"
        }
        3 => {
            proof {
                reveal_strlit("CD");
            }
            "CD"
        }
        4 => {
            proof {
                reveal_strlit("D");
            }
            "D"
        }
        5 => {
            proof {
                reveal_strlit("E");
            }
            "E"
        }
        6 => {
            proof {
                reveal_strlit("EF");
            }
            "EF"
        }
        7 => {
            proof {
                reveal_strlit("F");
            }
            "F"
        }
        8 => {
            proof {
                reveal_strlit("FG");
            }
            "FG"
        }
        9 => {
            proof {
                reveal_strlit("G");
            }
            "G"
        }
        10 => {
            proof {
                reveal_strlit("H");
            }
            "H"
        }
        11 => {
            proof {
                reveal_strlit("JS");
            }
            "JS"
        }
        12 => {
            proof {
                reveal_strlit("J");
            }
            "J"
        }
        13 => {
            proof {
                reveal_strlit("K");
            }
            "K"
        }
        14 => {
            proof {
                reveal_strlit("M");
            }
            "M"
        }
        15 => {
            proof {
                reveal_strlit("N");
            }
            "N"
        }
        16 => {
            proof {
                reveal_strlit("P");
            }
            "P"
        }
        17 => {
            proof {
                reveal_strlit("R");
            }
            "R"
        }
        18 => {
            proof {
                reveal_strlit("S");
            }
            "S"
        }
        19 => {
            proof {
                reveal_strlit("T");
            }
            "T"
        }
        20 => {
            proof {
                reveal_strlit("U");
            }
            "U"
        }
        21 => {
            proof {
                reveal_strlit("V");
            }
            "V"
        }
        22 => {
            proof {
                reveal_strlit("X");
            }
            "X"
        }
        23 => {
            proof {
                reveal_strlit("Y");
            }
            "Y"
        }
        24 => {
            proof {
                reveal_strlit("Z");
            }
            "Z"
        }
        25 => {
            proof {
                reveal_strlit("ZA");
            }
            "ZA"
        }
        26 => {
            proof {
                reveal_strlit("ZB");
            }
            "ZB"
        }
        _ => {
            proof {
                reveal_strlit("ZC");
            }
            "ZC"
        }
    }
}

/// A search from `i` finds a label at `i` or later, and one that names `s`.
pub proof fn lemma_position_bounds(labels: Seq<Seq<char>>, s: Seq<char>, ignore_case: bool, i: int)
    requires
        0 <= i,
    ensures
        position_from(labels, s, ignore_case, i) matches Some(p) ==> i <= p < labels.len()
            && names(labels[p], s, ignore_case),
    decreases labels.len() - i,
{
    if i < labels.len() {
        lemma_position_bounds(labels, s, ignore_case, i + 1);
    }
}

/// A search from `k` finds the label at `i` when it names `s` and none
/// between `k` and `i` does.
proof fn lemma_position_at(labels: Seq<Seq<char>>, s: Seq<char>, ignore_case: bool, k: int, i: int)
    requires
        0 <= k <= i < labels.len(),
        names(labels[i], s, ignore_case),
        forall|j: int| k <= j < i ==> !names(#[trigger] labels[j], s, ignore_case),
    ensures
        position_from(labels, s, ignore_case, k) == Some(i),
    decreases i - k,
{
    if k < i {
        lemma_position_at(labels, s, ignore_case, k + 1, i);
    }
}

/// Every grade number, shaft letter and hole letter that is offered for
/// choice is read back as the grade or deviation that it shows; hole letters
/// begin with a capital and shaft letters do not.
pub proof fn lemma_offered_labels_are_recognised()
    ensures
        forall|i: int| 0 <= i < 20 ==> grade_position(#[trigger] grade_labels()[i]) == Some(i),
        forall|i: int| 0 <= i < 28 ==> deviation_position(#[trigger] deviation_labels()[i]) == Some(i),
        forall|i: int| 0 <= i < 28 ==> deviation_position(#[trigger] hole_labels()[i]) == Some(i),
        forall|i: int| 0 <= i < 28 ==> is_ascii_upper(#[trigger] hole_labels()[i][0]),
        forall|i: int| 0 <= i < 28 ==> !is_ascii_upper(#[trigger] deviation_labels()[i][0]),
{
    assert forall|i: int| 0 <= i < 20 implies grade_position(#[trigger] grade_labels()[i]) == Some(i) by {
        assert forall|j: int| 0 <= j < i implies !names(#[trigger] grade_labels()[j], grade_labels()[i], false) by {
            assert(grade_labels()[j].len() != grade_labels()[i].len()
                || grade_labels()[j][0] != grade_labels()[i][0]
                || grade_labels()[j][1] != grade_labels()[i][1]);
        }
        lemma_position_at(grade_labels(), grade_labels()[i], false, 0, i);
    }
    assert forall|i: int| 0 <= i < 28 implies deviation_position(#[trigger] deviation_labels()[i]) == Some(i) by {
        assert forall|j: int| 0 <= j < i implies !names(#[trigger] deviation_labels()[j], deviation_labels()[i], true) by {
            assert(deviation_labels()[j].len() != deviation_labels()[i].len()
                || !chars_eq_ignore_ascii_case(deviation_labels()[j][0], deviation_labels()[i][0])
                || !chars_eq_ignore_ascii_case(deviation_labels()[j][1], deviation_labels()[i][1]));
        }
        lemma_position_at(deviation_labels(), deviation_labels()[i], true, 0, i);
    }
    assert forall|i: int| 0 <= i < 28 implies deviation_position(#[trigger] hole_labels()[i]) == Some(i) by {
        assert forall|j: int| 0 <= j < i implies !names(#[trigger] deviation_labels()[j], hole_labels()[i], true) by {
            assert(deviation_labels()[j].len() != hole_labels()[i].len()
                || !chars_eq_ignore_ascii_case(deviation_labels()[j][0], hole_labels()[i][0])
                || !chars_eq_ignore_ascii_case(deviation_labels()[j][1], hole_labels()[i][1]));
        }
        lemma_position_at(deviation_labels(), hole_labels()[i], true, 0, i);
    }
}

/// Whether two texts are equal.
pub fn str_equal(a: &str, b: &str) -> (r: bool)
    ensures
        r == (a@ == b@),
{
    let n = a.unicode_len();
    if n != b.unicode_len() {
        return false;
    }
    let mut i: usize = 0;
    while i < n
        invariant
            n == a@.len(),
            n == b@.len(),
            i <= n,
            forall|j: int| 0 <= j < i ==> a@[j] == b@[j],
        decreases n - i,
    {
        if a.get_char(i) != b.get_char(i) {
            return false;
        }
        i += 1;
    }
    assert(a@ =~= b@);
    true
}

/// Whether two characters are equal once ASCII capitals are lowered.
pub fn char_eq_ignore_ascii_case(a: char, b: char) -> (r: bool)
    ensures
        r == chars_eq_ignore_ascii_case(a, b),
{
    let (x, y) = (a as u32, b as u32);
    x == y || ('A' <= a && a <= 'Z' && x + 32 == y) || ('A' <= b && b <= 'Z' && y + 32 == x)
}

/// Whether two texts are equal once ASCII capitals are lowered.
pub fn str_eq_ignore_ascii_case(a: &str, b: &str) -> (r: bool)
    ensures
        r == eq_ignore_ascii_case(a@, b@),
{
    let n = a.unicode_len();
    if n != b.unicode_len() {
        return false;
    }
    let mut i: usize = 0;
    while i < n
        invariant
            n == a@.len(),
            n == b@.len(),
            i <= n,
            forall|j: int| 0 <= j < i ==> chars_eq_ignore_ascii_case(#[trigger] a@[j], b@[j]),
        decreases n - i,
    {
        if !char_eq_ignore_ascii_case(a.get_char(i), b.get_char(i)) {
            return false;
        }
        i += 1;
    }
    true
}

/// The index of the tolerance grade whose number is `g`.
pub fn find_grade(g: &str) -> (r: Option<usize>)
    ensures
        match r {
            Some(i) => i < 20 && grade_position(g@) == Some(i as int),
            None => grade_position(g@) is None,
        },
{
    let mut i: usize = 0;
    while i < 20
        invariant
            i <= 20,
            grade_labels().len() == 20,
            grade_position(g@) == position_from(grade_labels(), g@, false, i as int),
        decreases 20 - i,
    {
        if str_equal(grade_label(i), g) {
            return Some(i);
        }
        i += 1;
    }
    None
}

/// The index of the fundamental deviation that `d` names, in either case.
pub fn find_deviation(d: &str) -> (r: Option<usize>)
    ensures
        match r {
            Some(i) => i < 28 && deviation_position(d@) == Some(i as int),
            None => deviation_position(d@) is None,
        },
{
    let mut i: usize = 0;
    while i < 28
        invariant
            i <= 28,
            deviation_labels().len() == 28,
            deviation_position(d@) == position_from(deviation_labels(), d@, true, i as int),
        decreases 28 - i,
    {
        if str_eq_ignore_ascii_case(deviation_label(i), d) {
            return Some(i);
        }
        i += 1;
    }
    None
}

} // verus!
