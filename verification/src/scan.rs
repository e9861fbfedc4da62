//! Character classes, maximal-run scanning, and decimal text utilities that
//! both layout grammars share.

use vstd::prelude::*;

verus! {

// ---------------------------------------------------------------------------
// Character classes
// ---------------------------------------------------------------------------
/// Whitespace as the grammars tolerate it: the ASCII whitespace characters.
pub open spec fn is_space_char(c: char) -> bool {
    c == ' ' || c == '\t' || c == '\n' || c == '\r' || c == '\u{b}' || c == '\u{c}'
}

/// A decimal digit.
pub open spec fn is_digit_char(c: char) -> bool {
    '0' <= c && c <= '9'
}

/// An ASCII capital letter.
pub open spec fn is_upper_char(c: char) -> bool {
    'A' <= c && c <= 'Z'
}

/// A word character: ASCII letter, digit, or underscore.
pub open spec fn is_word_char(c: char) -> bool {
    is_digit_char(c) || is_upper_char(c) || ('a' <= c && c <= 'z') || c == '_'
}

/// A word character or a backslash; group names of Windows servers embed
/// domain separators written as backslashes.
pub open spec fn is_group_word_char(c: char) -> bool {
    is_word_char(c) || c == '\\'
}

pub fn is_space(c: char) -> (b: bool)
    ensures
        b == is_space_char(c),
{
    c == ' ' || c == '\t' || c == '\n' || c == '\r' || c == '\u{b}' || c == '\u{c}'
}

pub fn is_digit(c: char) -> (b: bool)
    ensures
        b == is_digit_char(c),
{
    '0' <= c && c <= '9'
}

pub fn is_upper(c: char) -> (b: bool)
    ensures
        b == is_upper_char(c),
{
    'A' <= c && c <= 'Z'
}

// ---------------------------------------------------------------------------
// Maximal runs of a class
// ---------------------------------------------------------------------------
/// The classes whose maximal runs the grammars scan for.
#[derive(Clone, Copy, PartialEq, Eq, Structural)]
pub enum CharClass {
    Space,
    Digit,
    Word,
    GroupWord,
    NonSpace,
}

/// Membership of a character in a class.
pub open spec fn in_class(cl: CharClass, c: char) -> bool {
    match cl {
        CharClass::Space => is_space_char(c),
        CharClass::Digit => is_digit_char(c),
        CharClass::Word => is_word_char(c),
        CharClass::GroupWord => is_group_word_char(c),
        CharClass::NonSpace => !is_space_char(c),
    }
}

pub fn class_contains(cl: CharClass, c: char) -> (b: bool)
    ensures
        b == in_class(cl, c),
{
    match cl {
        CharClass::Space => is_space(c),
        CharClass::Digit => is_digit(c),
        CharClass::Word => {
            is_digit(c) || is_upper(c) || ('a' <= c && c <= 'z') || c == '_'
        },
        CharClass::GroupWord => {
            is_digit(c) || is_upper(c) || ('a' <= c && c <= 'z') || c == '_' || c == '\\'
        },
        CharClass::NonSpace => !is_space(c),
    }
}

/// End of the maximal run of class `cl` that starts at `i`: the first
/// position at or after `i` holding no `cl` character (or the end of `s`).
pub open spec fn run_end(s: Seq<char>, i: int, cl: CharClass) -> int
    decreases s.len() - i,
{
    if 0 <= i && i < s.len() && in_class(cl, s[i]) {
        run_end(s, i + 1, cl)
    } else {
        i
    }
}

/// What a maximal run is: it lies within the line, every character in it is
/// of the class, and it cannot be extended to the right.
pub proof fn lemma_run_end(s: Seq<char>, i: int, cl: CharClass)
    requires
        0 <= i <= s.len(),
    ensures
        i <= run_end(s, i, cl) <= s.len(),
        forall|j: int| i <= j < run_end(s, i, cl) ==> in_class(cl, s[j]),
        run_end(s, i, cl) == s.len() || !in_class(cl, s[run_end(s, i, cl)]),
    decreases s.len() - i,
{
    if i < s.len() && in_class(cl, s[i]) {
        lemma_run_end(s, i + 1, cl);
    }
}

/// Scans the maximal run of class `cl` starting at `from`.
pub fn scan_run(v: &Vec<char>, from: usize, cl: CharClass) -> (end: usize)
    requires
        from <= v@.len(),
    ensures
        end as int == run_end(v@, from as int, cl),
        from <= end <= v@.len(),
{
    proof {
        lemma_run_end(v@, from as int, cl);
    }
    let mut i = from;
    while i < v.len() && class_contains(cl, v[i])
        invariant
            from <= i <= v@.len(),
            run_end(v@, from as int, cl) == run_end(v@, i as int, cl),
        decreases v@.len() - i,
    {
        i = i + 1;
    }
    i
}

// ---------------------------------------------------------------------------
// Decimal values
// ---------------------------------------------------------------------------
/// Numeric value of a digit character.
pub open spec fn digit_val(c: char) -> nat
    recommends
        is_digit_char(c),
{
    ((c as u32) - ('0' as u32)) as nat
}

/// Value of a sequence of digit characters read as a decimal numeral.
pub open spec fn dec_value(s: Seq<char>) -> nat
    decreases s.len(),
{
    if s.len() == 0 {
        0
    } else {
        dec_value(s.drop_last()) * 10 + digit_val(s.last())
    }
}

/// Numeric value of one digit character.
pub fn digit_value(c: char) -> (d: u8)
    requires
        is_digit_char(c),
    ensures
        d as nat == digit_val(c),
        d <= 9,
{
    ((c as u32) - ('0' as u32)) as u8
}

/// Reads the digits `v[from..to]` as a decimal `usize`. A value too large
/// for `usize` yields 0, mirroring a failed numeric conversion.
pub fn parse_decimal(v: &Vec<char>, from: usize, to: usize) -> (r: usize)
    requires
        from <= to <= v@.len(),
        forall|j: int| from <= j < to ==> is_digit_char(v@[j]),
    ensures
        dec_value(v@.subrange(from as int, to as int)) <= usize::MAX ==> r == dec_value(
            v@.subrange(from as int, to as int),
        ),
        dec_value(v@.subrange(from as int, to as int)) > usize::MAX ==> r == 0,
{
    let mut acc: usize = 0;
    let mut ok: bool = true;
    let mut i = from;
    while i < to
        invariant
            from <= i <= to <= v@.len(),
            forall|j: int| from <= j < to ==> is_digit_char(v@[j]),
            ok ==> acc == dec_value(v@.subrange(from as int, i as int)),
            !ok ==> dec_value(v@.subrange(from as int, i as int)) > usize::MAX,
        decreases to - i,
    {
        let d = digit_value(v[i]);
        proof {
            assert(v@.subrange(from as int, i as int + 1).drop_last() =~= v@.subrange(
                from as int,
                i as int,
            ));
            assert(v@.subrange(from as int, i as int + 1).last() == v@[i as int]);
        }
        let t: u128 = (acc as u128) * 10 + (d as u128);
        if ok && t <= usize::MAX as u128 {
            acc = t as usize;
        } else {
            ok = false;
        }
        i = i + 1;
    }
    proof {
        assert(v@.subrange(from as int, to as int) == v@.subrange(from as int, i as int));
    }
    if ok {
        acc
    } else {
        0
    }
}

/// The size value a captured numeral denotes: a value too large for `usize`
/// falls back to 0, mirroring a failed numeric conversion.
pub open spec fn clamped_dec(s: Seq<char>) -> nat {
    if dec_value(s) <= usize::MAX {
        dec_value(s)
    } else {
        0
    }
}

/// A numeral of at most two digits stays below 100; one of at most four
/// digits stays below 10000.
pub proof fn lemma_dec_value_bound(s: Seq<char>)
    requires
        forall|j: int| 0 <= j < s.len() ==> is_digit_char(s[j]),
    ensures
        s.len() <= 1 ==> dec_value(s) < 10,
        s.len() <= 2 ==> dec_value(s) < 100,
        s.len() <= 3 ==> dec_value(s) < 1000,
        s.len() <= 4 ==> dec_value(s) < 10000,
    decreases s.len(),
{
    if s.len() > 0 {
        lemma_dec_value_bound(s.drop_last());
        assert(digit_val(s.last()) <= 9);
        assert(s.len() == 1 ==> dec_value(s.drop_last()) == 0);
    }
}

/// Whether `c` occurs in `v[from..to]`.
pub fn contains_char(v: &Vec<char>, from: usize, to: usize, c: char) -> (b: bool)
    requires
        from <= to <= v@.len(),
    ensures
        b == exists|j: int| from <= j < to && v@[j] == c,
{
    let mut i = from;
    while i < to
        invariant
            from <= i <= to <= v@.len(),
            forall|j: int| from <= j < i ==> v@[j] != c,
        decreases to - i,
    {
        if v[i] == c {
            return true;
        }
        i = i + 1;
    }
    false
}

// ---------------------------------------------------------------------------
// Decimal text
// ---------------------------------------------------------------------------
/// The digit character for a value below ten.
pub open spec fn digit_char(d: nat) -> char {
    if d == 0 {
        '0'
    } else if d == 1 {
        '1'
    } else if d == 2 {
        '2'
    } else if d == 3 {
        '3'
    } else if d == 4 {
        '4'
    } else if d == 5 {
        '5'
    } else if d == 6 {
        '6'
    } else if d == 7 {
        '7'
    } else if d == 8 {
        '8'
    } else {
        '9'
    }
}

/// A digit character survives the round trip through its value.
pub proof fn lemma_digit_char_val(c: char)
    requires
        is_digit_char(c),
    ensures
        digit_char(digit_val(c)) == c,
{
}

/// One digit as string text.
pub fn digit_str(d: u8) -> (r: &'static str)
    requires
        d <= 9,
    ensures
        r@ =~= seq![digit_char(d as nat)],
{
    proof {
        reveal_strlit("0");
        reveal_strlit("1");
        reveal_strlit("2");
        reveal_strlit("3");
        reveal_strlit("4");
        reveal_strlit("5");
        reveal_strlit("6");
        reveal_strlit("7");
        reveal_strlit("8");
        reveal_strlit("9");
    }
    match d {
        0 => "0",
        1 => "1",
        2 => "2",
        3 => "3",
        4 => "4",
        5 => "5",
        6 => "6",
        7 => "7",
        8 => "8",
        _ => "9",
    }
}

/// The line as a vector of its characters.
pub fn line_chars(s: &str) -> (v: Vec<char>)
    ensures
        v@ == s@,
{
    let n = s.unicode_len();
    let mut v: Vec<char> = Vec::new();
    let mut i: usize = 0;
    while i < n
        invariant
            i <= n,
            n == s@.len(),
            v@ =~= s@.subrange(0, i as int),
        decreases n - i,
    {
        let c = s.get_char(i);
        v.push(c);
        proof {
            assert(v@ =~= s@.subrange(0, i as int + 1));
        }
        i = i + 1;
    }
    proof {
        assert(v@ =~= s@);
    }
    v
}

} // verus!
