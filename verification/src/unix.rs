//! The Unix `ls -l`-style layout and its parser.
//!
//! Left to right, a conforming line holds: a single type character; a
//! nine-character permission token of three `(r|-)(w|-)(x|s|S|t|T|L|-)`
//! triplets; an optional ACL marker (`+` or `@`); a decimal link count
//! (discarded); an owner token; a group token; a size token that is either a
//! plain decimal or a `major, minor` device pair; a timestamp in one of two
//! forms — `Mon D HH:MM` (recent) or `Mon D YYYY` (older); and a name
//! occupying the remainder of the line. Fields are separated by runs of
//! whitespace.
//!
//! Owner and group tokens may themselves contain whitespace: besides a plain
//! digit or word run, a token may be two capitalized words separated by
//! whitespace (`Domain Users`), and a group's first word may embed
//! backslashes. The alternatives are tried in a fixed preference order, and
//! a candidate is kept only if the rest of the line parses after it; the
//! match the parser returns is the first full success in that order.

use vstd::prelude::*;

use crate::entry::FtpEntryPermissions;
use crate::kind::FtpEntryKind;
use crate::kind::kind_from_char;
use crate::kind::kind_of_char;
use crate::scan::CharClass;
use crate::scan::clamped_dec;
use crate::scan::class_contains;
use crate::scan::contains_char;
use crate::scan::digit_str;
use crate::scan::digit_value;
use crate::scan::is_digit;
use crate::scan::is_digit_char;
use crate::scan::is_space;
use crate::scan::is_space_char;
use crate::scan::is_upper;
use crate::scan::is_upper_char;
use crate::scan::is_word_char;
use crate::scan::lemma_digit_char_val;
use crate::scan::lemma_run_end;
use crate::scan::line_chars;
use crate::scan::parse_decimal;
use crate::scan::run_end;
use crate::scan::scan_run;
use vstd::string::StrSliceExecFns;
use vstd::string::StringExecFns;

verus! {

// ---------------------------------------------------------------------------
// Leading fixed fields
// ---------------------------------------------------------------------------
/// A type character the layout accepts. Only seven of them map to a kind;
/// the others yield `UNKNOWN`.
pub open spec fn is_type_char(c: char) -> bool {
    c == 'b' || c == 'c' || c == 'd' || c == 'e' || c == 'l' || c == 'f' || c == 'm' || c == 'p'
        || c == 'S' || c == 's' || c == '-'
}

fn type_char_ok(c: char) -> (b: bool)
    ensures
        b == is_type_char(c),
{
    c == 'b' || c == 'c' || c == 'd' || c == 'e' || c == 'l' || c == 'f' || c == 'm' || c == 'p'
        || c == 'S' || c == 's' || c == '-'
}

/// First character of a permission triplet: read or unset.
pub open spec fn is_perm_first(c: char) -> bool {
    c == 'r' || c == '-'
}

/// Second character of a permission triplet: write or unset.
pub open spec fn is_perm_second(c: char) -> bool {
    c == 'w' || c == '-'
}

/// Third character of a permission triplet: execute, setuid/setgid, sticky,
/// mandatory lock, or unset.
pub open spec fn is_perm_third(c: char) -> bool {
    c == 'x' || c == 's' || c == 'S' || c == 't' || c == 'T' || c == 'L' || c == '-'
}

/// The nine characters after the type character form three permission
/// triplets.
pub open spec fn perm_ok(s: Seq<char>) -> bool
    recommends
        s.len() >= 10,
{
    is_perm_first(s[1]) && is_perm_second(s[2]) && is_perm_third(s[3]) && is_perm_first(s[4])
        && is_perm_second(s[5]) && is_perm_third(s[6]) && is_perm_first(s[7]) && is_perm_second(
        s[8],
    ) && is_perm_third(s[9])
}

fn perm_triplet_ok(a: char, b: char, c: char) -> (r: bool)
    ensures
        r == (is_perm_first(a) && is_perm_second(b) && is_perm_third(c)),
{
    (a == 'r' || a == '-') && (b == 'w' || b == '-') && (c == 'x' || c == 's' || c == 'S' || c
        == 't' || c == 'T' || c == 'L' || c == '-')
}

/// An ACL marker the layout accepts after the permission token. Only `+`
/// reports an ACL; `@` (an extended-attribute marker) is accepted and
/// normalized to no ACL.
pub open spec fn is_acl_char(c: char) -> bool {
    c == '+' || c == '@'
}

// ---------------------------------------------------------------------------
// Owner and group tokens
// ---------------------------------------------------------------------------
/// End of a two-word token at `i`: a capitalized word of two or more
/// characters, a whitespace run, and another such word. When `bs` holds, the
/// first word may also contain backslashes. `None` when no such token starts
/// at `i`.
pub open spec fn pair_end(s: Seq<char>, i: int, bs: bool) -> Option<int> {
    let n = s.len() as int;
    if !(0 <= i && i < n && is_upper_char(s[i])) {
        None
    } else {
        let w1 = run_end(s, i + 1, if bs {
            CharClass::GroupWord
        } else {
            CharClass::Word
        });
        if w1 == i + 1 {
            None
        } else {
            let sp = run_end(s, w1, CharClass::Space);
            if sp == w1 {
                None
            } else if !(sp < n && is_upper_char(s[sp])) {
                None
            } else {
                let w2 = run_end(s, sp + 1, CharClass::Word);
                if w2 == sp + 1 {
                    None
                } else {
                    Some(w2)
                }
            }
        }
    }
}

/// End of the nonempty maximal run of class `cl` at `i`, or `None` when the
/// run is empty.
pub open spec fn token_end(s: Seq<char>, i: int, cl: CharClass) -> Option<int> {
    let e = run_end(s, i, cl);
    if e == i {
        None
    } else {
        Some(e)
    }
}

fn pair_end_x(v: &Vec<char>, i: usize, bs: bool) -> (r: Option<usize>)
    requires
        i <= v@.len(),
    ensures
        r matches Some(e) ==> pair_end(v@, i as int, bs) == Some(e as int) && i < e <= v@.len(),
        r is None ==> pair_end(v@, i as int, bs) is None,
{
    if !(i < v.len() && is_upper(v[i])) {
        return None;
    }
    let w1 = scan_run(&v, i + 1, if bs {
        CharClass::GroupWord
    } else {
        CharClass::Word
    });
    if w1 == i + 1 {
        return None;
    }
    let sp = scan_run(&v, w1, CharClass::Space);
    if sp == w1 {
        return None;
    }
    if !(sp < v.len() && is_upper(v[sp])) {
        return None;
    }
    let w2 = scan_run(&v, sp + 1, CharClass::Word);
    if w2 == sp + 1 {
        return None;
    }
    Some(w2)
}

fn token_end_x(v: &Vec<char>, i: usize, cl: CharClass) -> (r: Option<usize>)
    requires
        i <= v@.len(),
    ensures
        r matches Some(e) ==> token_end(v@, i as int, cl) == Some(e as int) && i < e <= v@.len(),
        r is None ==> token_end(v@, i as int, cl) is None,
{
    let e = scan_run(&v, i, cl);
    if e == i {
        None
    } else {
        Some(e)
    }
}

// ---------------------------------------------------------------------------
// Size token
// ---------------------------------------------------------------------------
/// The size token at `i` and the whitespace run after it. The token is a
/// nonempty digit run, optionally followed by a comma, optional whitespace,
/// and a further digit run — the device-pointer form. Yields the token's end
/// and the position where the timestamp starts (after at least one
/// whitespace character), or `None`.
pub open spec fn size_token(s: Seq<char>, i: int) -> Option<(int, int)> {
    let n = s.len() as int;
    let d1 = run_end(s, i, CharClass::Digit);
    if d1 == i {
        None
    } else if d1 < n && s[d1] == ',' {
        let sp = run_end(s, d1 + 1, CharClass::Space);
        let d2 = run_end(s, sp, CharClass::Digit);
        if d2 > sp {
            // `major, minor`: whitespace must follow the minor digits
            let w = run_end(s, d2, CharClass::Space);
            if w == d2 {
                None
            } else {
                Some((d2, w))
            }
        } else if sp > d1 + 1 {
            // a bare trailing comma: the whitespace after it separates
            Some((d1 + 1, sp))
        } else {
            None
        }
    } else {
        let w = run_end(s, d1, CharClass::Space);
        if w == d1 {
            None
        } else {
            Some((d1, w))
        }
    }
}

fn size_token_x(v: &Vec<char>, i: usize) -> (r: Option<(usize, usize)>)
    requires
        i <= v@.len(),
    ensures
        r matches Some(p) ==> size_token(v@, i as int) == Some((p.0 as int, p.1 as int)) && i
            < p.0 <= p.1 <= v@.len(),
        r is None ==> size_token(v@, i as int) is None,
{
    let n = v.len();
    let d1 = scan_run(&v, i, CharClass::Digit);
    if d1 == i {
        return None;
    }
    if d1 < n && v[d1] == ',' {
        let sp = scan_run(&v, d1 + 1, CharClass::Space);
        let d2 = scan_run(&v, sp, CharClass::Digit);
        if d2 > sp {
            let w = scan_run(&v, d2, CharClass::Space);
            if w == d2 {
                None
            } else {
                Some((d2, w))
            }
        } else if sp > d1 + 1 {
            Some((d1 + 1, sp))
        } else {
            None
        }
    } else {
        let w = scan_run(&v, d1, CharClass::Space);
        if w == d1 {
            None
        } else {
            Some((d1, w))
        }
    }
}

// ---------------------------------------------------------------------------
// Timestamp
// ---------------------------------------------------------------------------
/// Field boundaries of a timestamp: a three-character month word, a one- or
/// two-digit day, and a tail that is either `HH:MM` or a four-digit year.
pub struct TsSpans {
    pub month_start: int,
    pub day_start: int,
    pub day_end: int,
    pub tail_start: int,
    pub tail_end: int,
}

/// End of the timestamp tail at `t0`: one or two digits, a colon and two
/// digits (the recent form), or exactly four digits (the older form).
pub open spec fn tail_token(s: Seq<char>, t0: int) -> Option<int> {
    let n = s.len() as int;
    let hr = run_end(s, t0, CharClass::Digit);
    if t0 < hr && hr - t0 <= 2 && hr < n && s[hr] == ':' {
        if n - hr >= 3 && is_digit_char(s[hr + 1]) && is_digit_char(s[hr + 2]) {
            Some(hr + 3)
        } else {
            None
        }
    } else if hr - t0 == 4 {
        Some(hr)
    } else {
        None
    }
}

/// The timestamp at `k`: month word, whitespace, day, whitespace, tail.
pub open spec fn ts_token(s: Seq<char>, k: int) -> Option<TsSpans> {
    let n = s.len() as int;
    if !(n - k >= 3 && is_word_char(s[k]) && is_word_char(s[k + 1]) && is_word_char(s[k + 2])) {
        None
    } else {
        let d0 = run_end(s, k + 3, CharClass::Space);
        if d0 == k + 3 {
            None
        } else {
            let de = run_end(s, d0, CharClass::Digit);
            if !(d0 < de && de - d0 <= 2) {
                None
            } else {
                let t0 = run_end(s, de, CharClass::Space);
                if t0 == de {
                    None
                } else {
                    match tail_token(s, t0) {
                        Option::None => None,
                        Option::Some(te) => Some(
                            TsSpans {
                                month_start: k,
                                day_start: d0,
                                day_end: de,
                                tail_start: t0,
                                tail_end: te,
                            },
                        ),
                    }
                }
            }
        }
    }
}

/// Executable timestamp boundaries; see `TsSpans`.
struct TsIdx {
    month_start: usize,
    day_start: usize,
    day_end: usize,
    tail_start: usize,
    tail_end: usize,
}

impl View for TsIdx {
    type V = TsSpans;

    closed spec fn view(&self) -> TsSpans {
        TsSpans {
            month_start: self.month_start as int,
            day_start: self.day_start as int,
            day_end: self.day_end as int,
            tail_start: self.tail_start as int,
            tail_end: self.tail_end as int,
        }
    }
}

fn word3(v: &Vec<char>, k: usize) -> (b: bool)
    requires
        k <= v@.len(),
    ensures
        b == (v@.len() - k >= 3 && is_word_char(v@[k as int]) && is_word_char(v@[k as int + 1])
            && is_word_char(v@[k as int + 2])),
{
    if v.len() - k < 3 {
        return false;
    }
    let cl = CharClass::Word;
    class_contains(cl, v[k]) && class_contains(cl, v[k + 1]) && class_contains(cl, v[k + 2])
}

fn tail_token_x(v: &Vec<char>, t0: usize) -> (r: Option<usize>)
    requires
        t0 <= v@.len(),
    ensures
        r matches Some(e) ==> tail_token(v@, t0 as int) == Some(e as int) && t0 < e <= v@.len(),
        r is None ==> tail_token(v@, t0 as int) is None,
{
    let n = v.len();
    let hr = scan_run(&v, t0, CharClass::Digit);
    if t0 < hr && hr - t0 <= 2 && hr < n && v[hr] == ':' {
        if n - hr >= 3 && is_digit(v[hr + 1]) && is_digit(v[hr + 2]) {
            Some(hr + 3)
        } else {
            None
        }
    } else if hr - t0 == 4 {
        Some(hr)
    } else {
        None
    }
}

fn ts_token_x(v: &Vec<char>, k: usize) -> (r: Option<TsIdx>)
    requires
        k <= v@.len(),
    ensures
        r matches Some(t) ==> ts_token(v@, k as int) == Some(t@) && k == t.month_start
            && t.tail_end <= v@.len() && t.month_start + 3 <= t.day_start && t.day_start
            <= t.day_end <= t.tail_start < t.tail_end,
        r is None ==> ts_token(v@, k as int) is None,
{
    let n = v.len();
    if !word3(v, k) {
        return None;
    }
    let d0 = scan_run(&v, k + 3, CharClass::Space);
    if d0 == k + 3 {
        return None;
    }
    let de = scan_run(&v, d0, CharClass::Digit);
    if !(d0 < de && de - d0 <= 2) {
        return None;
    }
    let t0 = scan_run(&v, de, CharClass::Space);
    if t0 == de {
        return None;
    }
    match tail_token_x(v, t0) {
        Option::None => None,
        Option::Some(te) => Some(
            TsIdx { month_start: k, day_start: d0, day_end: de, tail_start: t0, tail_end: te },
        ),
    }
}

// ---------------------------------------------------------------------------
// The full layout
// ---------------------------------------------------------------------------
/// Field boundaries of a successful Unix-layout match. The type character is
/// position 0 and the permission token positions 1 through 9.
pub struct UnixSpans {
    /// The captured ACL marker, if any.
    pub acl: Option<char>,
    pub owner_start: int,
    pub owner_end: int,
    pub group_start: int,
    pub group_end: int,
    /// The size token, including any device-pointer comma, padding and minor
    /// digits.
    pub size_start: int,
    pub size_end: int,
    /// The timestamp: month at `month_start`, three characters long.
    pub month_start: int,
    pub day_start: int,
    pub day_end: int,
    /// `HH:MM` or `YYYY`.
    pub tail_start: int,
    pub tail_end: int,
    /// Start of the name, which runs to the end of the line.
    pub name_start: int,
}

/// Continues a match after the group token ending at `ge`: whitespace, the
/// size token, whitespace, the timestamp, whitespace, and a nonempty name
/// holding no line break.
pub open spec fn unix_after_group(
    s: Seq<char>,
    acl: Option<char>,
    ob: int,
    oe: int,
    gb: int,
    ge: int,
) -> Option<UnixSpans> {
    let n = s.len() as int;
    let i = run_end(s, ge, CharClass::Space);
    if i == ge {
        None
    } else {
        match size_token(s, i) {
            Option::None => None,
            Option::Some(st) => match ts_token(s, st.1) {
                Option::None => None,
                Option::Some(t) => {
                    let w = run_end(s, t.tail_end, CharClass::Space);
                    if !(w > t.tail_end && w < n && (forall|j: int| w <= j < n ==> s[j] != '\n')) {
                        None
                    } else {
                        Some(
                            UnixSpans {
                                acl,
                                owner_start: ob,
                                owner_end: oe,
                                group_start: gb,
                                group_end: ge,
                                size_start: i,
                                size_end: st.0,
                                month_start: t.month_start,
                                day_start: t.day_start,
                                day_end: t.day_end,
                                tail_start: t.tail_start,
                                tail_end: t.tail_end,
                                name_start: w,
                            },
                        )
                    }
                },
            },
        }
    }
}

/// Continues a match after the owner token ending at `oe`: whitespace, then
/// the group token's alternatives in preference order — two capitalized
/// words (backslashes allowed in the first), a word run, any nonempty
/// non-whitespace run — keeping the first candidate after which the rest of
/// the line parses.
pub open spec fn unix_from_group(s: Seq<char>, acl: Option<char>, ob: int, oe: int) -> Option<
    UnixSpans,
> {
    let gb = run_end(s, oe, CharClass::Space);
    if gb == oe {
        None
    } else {
        let r1 = match pair_end(s, gb, true) {
            Option::Some(ge) => unix_after_group(s, acl, ob, oe, gb, ge),
            Option::None => None,
        };
        if r1 is Some {
            r1
        } else {
            let r2 = match token_end(s, gb, CharClass::Word) {
                Option::Some(ge) => unix_after_group(s, acl, ob, oe, gb, ge),
                Option::None => None,
            };
            if r2 is Some {
                r2
            } else {
                match token_end(s, gb, CharClass::NonSpace) {
                    Option::Some(ge) => unix_after_group(s, acl, ob, oe, gb, ge),
                    Option::None => None,
                }
            }
        }
    }
}

/// Matches the owner token at `ob` and the rest of the line: the owner's
/// alternatives in preference order — two capitalized words, a word run,
/// any nonempty non-whitespace run — keeping the first candidate after
/// which the rest of the line parses.
pub open spec fn unix_from_owner(s: Seq<char>, acl: Option<char>, ob: int) -> Option<UnixSpans> {
    let r1 = match pair_end(s, ob, false) {
        Option::Some(oe) => unix_from_group(s, acl, ob, oe),
        Option::None => None,
    };
    if r1 is Some {
        r1
    } else {
        let r2 = match token_end(s, ob, CharClass::Word) {
            Option::Some(oe) => unix_from_group(s, acl, ob, oe),
            Option::None => None,
        };
        if r2 is Some {
            r2
        } else {
            match token_end(s, ob, CharClass::NonSpace) {
                Option::Some(oe) => unix_from_group(s, acl, ob, oe),
                Option::None => None,
            }
        }
    }
}

/// Matches the Unix layout against the whole line and yields the field
/// boundaries, or `None` when the line does not conform.
pub open spec fn unix_spans(s: Seq<char>) -> Option<UnixSpans> {
    let n = s.len() as int;
    if n < 10 {
        None
    } else if !is_type_char(s[0]) {
        None
    } else if !perm_ok(s) {
        None
    } else {
        let i0 = if 10 < n && is_acl_char(s[10]) {
            11
        } else {
            10
        };
        let acl = if 10 < n && is_acl_char(s[10]) {
            Some(s[10])
        } else {
            None
        };
        let i1 = run_end(s, i0, CharClass::Space);
        if i1 == i0 {
            None
        } else {
            let i2 = run_end(s, i1, CharClass::Digit);
            if i2 == i1 {
                None
            } else {
                let i3 = run_end(s, i2, CharClass::Space);
                if i3 == i2 {
                    None
                } else {
                    unix_from_owner(s, acl, i3)
                }
            }
        }
    }
}

/// Executable layout boundaries; see `UnixSpans`.
struct UnixIdx {
    acl: Option<char>,
    owner_start: usize,
    owner_end: usize,
    group_start: usize,
    group_end: usize,
    size_start: usize,
    size_end: usize,
    month_start: usize,
    day_start: usize,
    day_end: usize,
    tail_start: usize,
    tail_end: usize,
    name_start: usize,
}

impl View for UnixIdx {
    type V = UnixSpans;

    closed spec fn view(&self) -> UnixSpans {
        UnixSpans {
            acl: self.acl,
            owner_start: self.owner_start as int,
            owner_end: self.owner_end as int,
            group_start: self.group_start as int,
            group_end: self.group_end as int,
            size_start: self.size_start as int,
            size_end: self.size_end as int,
            month_start: self.month_start as int,
            day_start: self.day_start as int,
            day_end: self.day_end as int,
            tail_start: self.tail_start as int,
            tail_end: self.tail_end as int,
            name_start: self.name_start as int,
        }
    }
}

/// Boundaries the later field derivations rely on.
spec fn idx_wf(ix: UnixIdx, n: int) -> bool {
    &&& ix.owner_start <= ix.owner_end <= ix.group_start <= ix.group_end <= ix.size_start
        <= ix.size_end <= n
    &&& ix.month_start + 3 <= ix.day_start <= ix.day_end <= ix.tail_start <= ix.tail_end
        <= ix.name_start < n
}

fn unix_after_group_x(
    v: &Vec<char>,
    acl: Option<char>,
    ob: usize,
    oe: usize,
    gb: usize,
    ge: usize,
) -> (r: Option<UnixIdx>)
    requires
        ob <= oe <= gb <= ge <= v@.len(),
    ensures
        r matches Some(ix) ==> unix_after_group(v@, acl, ob as int, oe as int, gb as int, ge as int)
            == Some(ix@) && idx_wf(ix, v@.len() as int) && size_token(v@, ix.size_start as int)
            == Some((ix.size_end as int, ix.month_start as int)),
        r is None ==> unix_after_group(v@, acl, ob as int, oe as int, gb as int, ge as int)
            is None,
{
    let n = v.len();
    let i = scan_run(&v, ge, CharClass::Space);
    if i == ge {
        return None;
    }
    match size_token_x(v, i) {
        Option::None => None,
        Option::Some(st) => match ts_token_x(v, st.1) {
            Option::None => None,
            Option::Some(t) => {
                let w = scan_run(&v, t.tail_end, CharClass::Space);
                if !(w > t.tail_end && w < n) {
                    return None;
                }
                if contains_char(&v, w, n, '\n') {
                    return None;
                }
                Some(
                    UnixIdx {
                        acl,
                        owner_start: ob,
                        owner_end: oe,
                        group_start: gb,
                        group_end: ge,
                        size_start: i,
                        size_end: st.0,
                        month_start: t.month_start,
                        day_start: t.day_start,
                        day_end: t.day_end,
                        tail_start: t.tail_start,
                        tail_end: t.tail_end,
                        name_start: w,
                    },
                )
            },
        },
    }
}

fn unix_from_group_x(v: &Vec<char>, acl: Option<char>, ob: usize, oe: usize) -> (r: Option<
    UnixIdx,
>)
    requires
        ob <= oe <= v@.len(),
    ensures
        r matches Some(ix) ==> unix_from_group(v@, acl, ob as int, oe as int) == Some(ix@)
            && idx_wf(ix, v@.len() as int) && size_token(v@, ix.size_start as int) == Some(
            (ix.size_end as int, ix.month_start as int),
        ),
        r is None ==> unix_from_group(v@, acl, ob as int, oe as int) is None,
{
    let gb = scan_run(&v, oe, CharClass::Space);
    if gb == oe {
        return None;
    }
    if let Option::Some(ge) = pair_end_x(v, gb, true) {
        let r1 = unix_after_group_x(v, acl, ob, oe, gb, ge);
        if r1.is_some() {
            return r1;
        }
    }
    if let Option::Some(ge) = token_end_x(v, gb, CharClass::Word) {
        let r2 = unix_after_group_x(v, acl, ob, oe, gb, ge);
        if r2.is_some() {
            return r2;
        }
    }
    if let Option::Some(ge) = token_end_x(v, gb, CharClass::NonSpace) {
        let r3 = unix_after_group_x(v, acl, ob, oe, gb, ge);
        if r3.is_some() {
            return r3;
        }
    }
    None
}

fn unix_from_owner_x(v: &Vec<char>, acl: Option<char>, ob: usize) -> (r: Option<UnixIdx>)
    requires
        ob <= v@.len(),
    ensures
        r matches Some(ix) ==> unix_from_owner(v@, acl, ob as int) == Some(ix@) && idx_wf(
            ix,
            v@.len() as int,
        ) && size_token(v@, ix.size_start as int) == Some(
            (ix.size_end as int, ix.month_start as int),
        ),
        r is None ==> unix_from_owner(v@, acl, ob as int) is None,
{
    if let Option::Some(oe) = pair_end_x(v, ob, false) {
        let r1 = unix_from_group_x(v, acl, ob, oe);
        if r1.is_some() {
            return r1;
        }
    }
    if let Option::Some(oe) = token_end_x(v, ob, CharClass::Word) {
        let r2 = unix_from_group_x(v, acl, ob, oe);
        if r2.is_some() {
            return r2;
        }
    }
    if let Option::Some(oe) = token_end_x(v, ob, CharClass::NonSpace) {
        let r3 = unix_from_group_x(v, acl, ob, oe);
        if r3.is_some() {
            return r3;
        }
    }
    None
}

// ---------------------------------------------------------------------------
// Field derivations
// ---------------------------------------------------------------------------
/// Whether the sticky bit is encoded in the permission token's last
/// character.
pub open spec fn sticky_of(p: Seq<char>) -> bool {
    p.len() > 0 && (p.last() == 't' || p.last() == 'T')
}

/// The permission text after sticky-bit folding: a trailing `t` (sticky and
/// executable for others) becomes `x`, a trailing `T` (sticky, not
/// executable) becomes `-`, and any other token is unchanged.
pub open spec fn folded_perm(p: Seq<char>) -> Seq<char> {
    if p.len() > 0 && p.last() == 't' {
        p.update(p.len() - 1, 'x')
    } else if p.len() > 0 && p.last() == 'T' {
        p.update(p.len() - 1, '-')
    } else {
        p
    }
}

/// Folds the sticky bit out of a nine-character permission token, returning
/// the sticky flag and the folded text. A token ending in `t` is sticky and
/// ends in `x` afterwards; one ending in `T` is sticky and ends in `-`; any
/// other token is not sticky and stays unchanged. Only the last character is
/// ever touched.
pub fn fold_sticky(perm: &str) -> (r: (bool, String))
    requires
        perm@.len() == 9,
    ensures
        r.0 == sticky_of(perm@),
        r.1@ == folded_perm(perm@),
        r.1@.len() == 9,
        perm@.last() == 't' ==> r.0 && r.1@.last() == 'x',
        perm@.last() == 'T' ==> r.0 && r.1@.last() == '-',
        perm@.last() != 't' && perm@.last() != 'T' ==> !r.0 && r.1@ == perm@,
        forall|j: int| 0 <= j < 8 ==> r.1@[j] == perm@[j],
{
    proof {
        reveal_strlit("x");
        reveal_strlit("-");
    }
    let c = perm.get_char(8);
    if c == 't' {
        let p = String::from_str(perm.substring_char(0, 8)).concat("x");
        proof {
            assert(p@ =~= folded_perm(perm@));
        }
        (true, p)
    } else if c == 'T' {
        let p = String::from_str(perm.substring_char(0, 8)).concat("-");
        proof {
            assert(p@ =~= folded_perm(perm@));
        }
        (true, p)
    } else {
        (false, String::from_str(perm))
    }
}

/// Whether a size token denotes a device pointer: it contains a comma.
pub open spec fn has_comma(t: Seq<char>) -> bool {
    exists|j: int| 0 <= j < t.len() && t[j] == ','
}

/// The token with every whitespace character removed.
pub open spec fn strip_spaces(t: Seq<char>) -> Seq<char>
    decreases t.len(),
{
    if t.len() == 0 {
        Seq::empty()
    } else if is_space_char(t.last()) {
        strip_spaces(t.drop_last())
    } else {
        strip_spaces(t.drop_last()).push(t.last())
    }
}

/// Splits a captured size token into the size and the device pointer. A
/// token containing a comma denotes a device pointer: the size is 0 and the
/// pointer is the token with all whitespace removed, whatever its numeric
/// values. Any other token is a plain decimal size and yields no pointer.
pub fn split_size_field(token: &str) -> (r: (usize, Option<String>))
    requires
        has_comma(token@) || (forall|j: int|
            0 <= j < token@.len() ==> is_digit_char(token@[j])),
        forall|j: int|
            0 <= j < token@.len() ==> is_digit_char(token@[j]) || token@[j] == ','
                || is_space_char(token@[j]),
    ensures
        has_comma(token@) ==> r.0 == 0 && (r.1 matches Some(p) && p@ == strip_spaces(token@)),
        !has_comma(token@) ==> r.1 is None && r.0 == clamped_dec(token@),
{
    proof {
        reveal_strlit(",");
    }
    let v = line_chars(token);
    let n = v.len();
    if contains_char(&v, 0, n, ',') {
        let mut out = String::new();
        let mut i: usize = 0;
        while i < n
            invariant
                i <= n,
                n == v@.len(),
                v@ == token@,
                forall|j: int|
                    0 <= j < token@.len() ==> is_digit_char(token@[j]) || token@[j] == ','
                        || is_space_char(token@[j]),
                out@ == strip_spaces(v@.subrange(0, i as int)),
            decreases n - i,
        {
            let c = v[i];
            proof {
                reveal_strlit(",");
                assert(v@.subrange(0, i as int + 1).drop_last() =~= v@.subrange(0, i as int));
                assert(v@.subrange(0, i as int + 1).last() == v@[i as int]);
            }
            if is_space(c) {
                // dropped from the pointer text
            } else if c == ',' {
                out.append(",");
            } else {
                proof {
                    lemma_digit_char_val(c);
                }
                out.append(digit_str(digit_value(c)));
            }
            i = i + 1;
        }
        proof {
            assert(v@.subrange(0, n as int) =~= token@);
        }
        (0, Some(out))
    } else {
        proof {
            assert(forall|j: int| 0 <= j < v@.len() ==> is_digit_char(v@[j]));
            assert(v@.subrange(0, n as int) =~= token@);
        }
        (parse_decimal(&v, 0, n), None)
    }
}

/// Every character of the size token is a digit, a comma, or whitespace;
/// and a token without a comma is all digits.
proof fn lemma_size_token_chars(s: Seq<char>, i: int, te: int, w: int)
    requires
        0 <= i <= s.len(),
        size_token(s, i) == Some((te, w)),
    ensures
        i < te <= s.len(),
        forall|j: int|
            0 <= j < te - i ==> is_digit_char(s.subrange(i, te)[j]) || s.subrange(i, te)[j] == ','
                || is_space_char(s.subrange(i, te)[j]),
        has_comma(s.subrange(i, te)) || (forall|j: int|
            0 <= j < te - i ==> is_digit_char(s.subrange(i, te)[j])),
{
    let t = s.subrange(i, te);
    assert(forall|j: int| 0 <= j < te - i ==> t[j] == s[i + j]);
    let d1 = run_end(s, i, CharClass::Digit);
    lemma_run_end(s, i, CharClass::Digit);
    if d1 < s.len() && s[d1] == ',' {
        let sp = run_end(s, d1 + 1, CharClass::Space);
        lemma_run_end(s, d1 + 1, CharClass::Space);
        let d2 = run_end(s, sp, CharClass::Digit);
        lemma_run_end(s, sp, CharClass::Digit);
        assert(t[d1 - i] == ',');
        assert(has_comma(t));
    } else {
        assert(forall|j: int| 0 <= j < te - i ==> is_digit_char(t[j]));
    }
}

// ---------------------------------------------------------------------------
// Symlink name splitting
// ---------------------------------------------------------------------------
/// The symlink separator text.
pub open spec fn arrow_seq() -> Seq<char> {
    seq![' ', '-', '>', ' ']
}

/// Whether the symlink separator occurs at position `j` of `t`.
pub open spec fn arrow_at(t: Seq<char>, j: int) -> bool {
    0 <= j && j + 4 <= t.len() && t[j] == ' ' && t[j + 1] == '-' && t[j + 2] == '>' && t[j + 3]
        == ' '
}

/// The first occurrence of the symlink separator at or after `j`.
pub open spec fn find_arrow_from(t: Seq<char>, j: int) -> Option<int>
    decreases t.len() - j,
{
    if !(0 <= j && j + 4 <= t.len()) {
        None
    } else if arrow_at(t, j) {
        Some(j)
    } else {
        find_arrow_from(t, j + 1)
    }
}

/// The first occurrence of the symlink separator in `t`.
pub open spec fn find_arrow(t: Seq<char>) -> Option<int> {
    find_arrow_from(t, 0)
}

/// A found separator is the first one at or after `j`.
pub proof fn lemma_find_arrow_first(t: Seq<char>, j: int)
    requires
        0 <= j,
    ensures
        find_arrow_from(t, j) matches Some(k) ==> j <= k && arrow_at(t, k) && (forall|m: int|
            j <= m < k ==> !arrow_at(t, m)),
        find_arrow_from(t, j) is None ==> forall|m: int| j <= m ==> !arrow_at(t, m),
    decreases t.len() - j,
{
    if 0 <= j && j + 4 <= t.len() && !arrow_at(t, j) {
        lemma_find_arrow_first(t, j + 1);
    }
}

/// Establishes where the first separator is from what a scan saw.
proof fn lemma_find_arrow_at(t: Seq<char>, j: int, k: int)
    requires
        0 <= j <= k,
        arrow_at(t, k),
        forall|m: int| j <= m < k ==> !arrow_at(t, m),
    ensures
        find_arrow_from(t, j) == Some(k),
    decreases k - j,
{
    if j < k {
        lemma_find_arrow_at(t, j + 1, k);
    }
}

/// Establishes the absence of a separator from what a scan saw.
proof fn lemma_find_arrow_none(t: Seq<char>, j: int)
    requires
        0 <= j,
        forall|m: int| j <= m ==> !arrow_at(t, m),
    ensures
        find_arrow_from(t, j) is None,
    decreases t.len() - j,
{
    if 0 <= j && j + 4 <= t.len() {
        lemma_find_arrow_none(t, j + 1);
    }
}

/// Finds the first symlink separator in `nv`.
fn find_arrow_x(nv: &Vec<char>) -> (r: Option<usize>)
    ensures
        r matches Some(j) ==> find_arrow(nv@) == Some(j as int) && j + 4 <= nv@.len(),
        r is None ==> find_arrow(nv@) is None,
{
    let n = nv.len();
    let mut j: usize = 0;
    while n - j >= 4
        invariant
            0 <= j <= n,
            n == nv@.len(),
            forall|m: int| 0 <= m < j ==> !arrow_at(nv@, m),
        decreases n - j,
    {
        if nv[j] == ' ' && nv[j + 1] == '-' && nv[j + 2] == '>' && nv[j + 3] == ' ' {
            proof {
                lemma_find_arrow_at(nv@, 0, j as int);
            }
            return Some(j);
        }
        j = j + 1;
    }
    proof {
        assert(forall|m: int| 0 <= m ==> !arrow_at(nv@, m));
        lemma_find_arrow_none(nv@, 0);
    }
    None
}

// ---------------------------------------------------------------------------
// The entry and its model
// ---------------------------------------------------------------------------
/// The abstract content of a Unix entry.
pub struct UnixModel {
    pub kind: FtpEntryKind,
    pub name: Seq<char>,
    pub size: nat,
    pub date_str: Seq<char>,
    pub target: Option<Seq<char>>,
    pub sticky: bool,
    pub permissions: Seq<char>,
    pub acl: bool,
    pub owner: Seq<char>,
    pub group: Seq<char>,
    pub pointer: Option<Seq<char>>,
}

/// The name capture: the remainder of the line.
pub open spec fn raw_name(s: Seq<char>, sp: UnixSpans) -> Seq<char> {
    s.subrange(sp.name_start, s.len() as int)
}

/// The timestamp capture with its internal whitespace runs collapsed to
/// single spaces; otherwise unnormalized.
pub open spec fn unix_date_seq(s: Seq<char>, sp: UnixSpans) -> Seq<char> {
    s.subrange(sp.month_start, sp.month_start + 3) + seq![' '] + s.subrange(
        sp.day_start,
        sp.day_end,
    ) + seq![' '] + s.subrange(sp.tail_start, sp.tail_end)
}

/// The entry a successful match denotes. The kind comes from the type
/// character; the sticky flag and permission text from folding the token's
/// last character; the ACL flag only from a `+` marker; owner and group
/// verbatim, internal whitespace preserved; a size token with a comma
/// denotes a device pointer (size 0, pointer the whitespace-stripped token),
/// any other one a plain decimal size; the date text is the collapsed
/// timestamp; and a symlink's name splits at the first ` -> ` into name and
/// target.
pub open spec fn unix_model_of(s: Seq<char>, sp: UnixSpans) -> UnixModel {
    let kind = kind_of_char(s[0]);
    let perm = s.subrange(1, 10);
    let token = s.subrange(sp.size_start, sp.size_end);
    let nm = raw_name(s, sp);
    UnixModel {
        kind,
        name: if kind == FtpEntryKind::Symlink {
            match find_arrow(nm) {
                Option::Some(j) => nm.subrange(0, j),
                Option::None => nm,
            }
        } else {
            nm
        },
        size: if has_comma(token) {
            0
        } else {
            clamped_dec(token)
        },
        date_str: unix_date_seq(s, sp),
        target: if kind == FtpEntryKind::Symlink {
            match find_arrow(nm) {
                Option::Some(j) => Some(nm.subrange(j + 4, nm.len() as int)),
                Option::None => None,
            }
        } else {
            None
        },
        sticky: sticky_of(perm),
        permissions: folded_perm(perm),
        acl: sp.acl == Some('+'),
        owner: s.subrange(sp.owner_start, sp.owner_end),
        group: s.subrange(sp.group_start, sp.group_end),
        pointer: if has_comma(token) {
            Some(strip_spaces(token))
        } else {
            None
        },
    }
}

/// The entry a line denotes under the Unix layout, or `None` when the line
/// does not conform.
pub open spec fn unix_model(s: Seq<char>) -> Option<UnixModel> {
    match unix_spans(s) {
        Option::None => None,
        Option::Some(sp) => Some(unix_model_of(s, sp)),
    }
}

/// The text before a first separator occurrence holds no separator itself.
proof fn lemma_arrow_free_prefix(nm: Seq<char>, j: int)
    requires
        find_arrow(nm) == Some(j),
    ensures
        find_arrow(nm.subrange(0, j)) is None,
{
    lemma_find_arrow_first(nm, 0);
    let name = nm.subrange(0, j);
    assert forall|k: int| 0 <= k implies !arrow_at(name, k) by {
        if arrow_at(name, k) {
            assert(name[k] == nm[k]);
            assert(name[k + 1] == nm[k + 1]);
            assert(name[k + 2] == nm[k + 2]);
            assert(name[k + 3] == nm[k + 3]);
            assert(arrow_at(nm, k));
        }
    }
    lemma_find_arrow_none(name, 0);
}

/// Splitting at the first separator loses nothing: name, separator and
/// target concatenate back to the captured text.
proof fn lemma_arrow_reconstruct(nm: Seq<char>, j: int)
    requires
        find_arrow(nm) == Some(j),
    ensures
        0 <= j && j + 4 <= nm.len(),
        nm == nm.subrange(0, j) + arrow_seq() + nm.subrange(j + 4, nm.len() as int),
{
    lemma_find_arrow_first(nm, 0);
    assert(nm =~= nm.subrange(0, j) + arrow_seq() + nm.subrange(j + 4, nm.len() as int));
}

/// The symlink split: a name containing the ` -> ` separator splits, under
/// kind `Symlink`, into exactly two parts at the separator's first
/// occurrence — the name (which then holds no separator itself) and the
/// target, whose concatenation restores the capture. Under any other kind
/// the captured text stays embedded, unsplit, and there is no target.
#[verifier::rlimit(50)]
pub proof fn lemma_symlink_split(s: Seq<char>, sp: UnixSpans, m: UnixModel)
    requires
        unix_spans(s) == Some(sp),
        unix_model(s) == Some(m),
    ensures
        m.kind != FtpEntryKind::Symlink ==> m.target is None && m.name == raw_name(s, sp),
        m.target matches Some(t) ==> m.kind == FtpEntryKind::Symlink && raw_name(s, sp) == m.name
            + arrow_seq() + t && find_arrow(m.name) is None,
        m.kind == FtpEntryKind::Symlink && m.target is None ==> find_arrow(raw_name(s, sp))
            is None && m.name == raw_name(s, sp),
{
    let nm = raw_name(s, sp);
    if m.kind == FtpEntryKind::Symlink && find_arrow(nm) is Some {
        let j = find_arrow(nm)->Some_0;
        lemma_arrow_reconstruct(nm, j);
        lemma_arrow_free_prefix(nm, j);
    }
}

/// Invariants of every Unix entry: a device pointer and a size are mutually
/// exclusive (pointer present means size 0); a target occurs only on
/// symlinks; the permission text is always exactly nine characters; and the
/// entry is sticky exactly when the raw permission token ended in `t` or
/// `T`.
pub proof fn lemma_unix_invariants(s: Seq<char>, m: UnixModel)
    requires
        unix_model(s) == Some(m),
    ensures
        m.pointer is Some ==> m.size == 0,
        m.target is Some ==> m.kind == FtpEntryKind::Symlink,
        m.permissions.len() == 9,
        m.sticky == (s[9] == 't' || s[9] == 'T'),
{
    assert(s.subrange(1, 10).len() == 9);
    assert(s.subrange(1, 10).last() == s[9]);
}

/// An entry parsed from a Unix-style listing line.
#[derive(Debug)]
pub struct FtpEntryUnix {
    /// Kind derived from the line's type character.
    pub kind: FtpEntryKind,
    /// The name; for symlinks, the part before the ` -> ` separator.
    pub name: String,
    /// The decimal size; 0 when the entry carries a device pointer.
    pub size: usize,
    /// The raw timestamp text, whitespace runs collapsed to single spaces.
    pub date_str: String,
    /// For symlink entries, the symlink's target.
    pub target: Option<String>,
    /// True if the sticky bit is set for this entry.
    pub sticky: bool,
    /// The various permissions for this entry.
    pub permissions: FtpEntryPermissions,
    /// Marks extra ACL permission for this entry.
    pub acl: bool,
    /// The user name or ID that this entry belongs to, verbatim.
    pub owner: String,
    /// The group name or ID that this entry belongs to, verbatim.
    pub group: String,
    /// The device pointer (`major,minor`), mutually exclusive with a size.
    pub pointer: Option<String>,
}

impl View for FtpEntryUnix {
    type V = UnixModel;

    open spec fn view(&self) -> UnixModel {
        UnixModel {
            kind: self.kind,
            name: self.name@,
            size: self.size as nat,
            date_str: self.date_str@,
            target: match self.target {
                Option::Some(t) => Some(t@),
                Option::None => None,
            },
            sticky: self.sticky,
            permissions: self.permissions@,
            acl: self.acl,
            owner: self.owner@,
            group: self.group@,
            pointer: match self.pointer {
                Option::Some(p) => Some(p@),
                Option::None => None,
            },
        }
    }
}

/// Builds the entry for a line whose field boundaries have been matched.
fn build_unix_entry(string: &str, ix: UnixIdx) -> (e: FtpEntryUnix)
    requires
        string@.len() >= 10,
        idx_wf(ix, string@.len() as int),
        size_token(string@, ix.size_start as int) == Some(
            (ix.size_end as int, ix.month_start as int),
        ),
    ensures
        e@ == unix_model_of(string@, ix@),
{
    let ghost s = string@;
    let n = string.unicode_len();
    let kind = kind_from_char(string.get_char(0));
    let (sticky, folded) = fold_sticky(string.substring_char(1, 10));
    let acl = match ix.acl {
        Option::Some(c) => c == '+',
        Option::None => false,
    };
    let owner = String::from_str(string.substring_char(ix.owner_start, ix.owner_end));
    let group = String::from_str(string.substring_char(ix.group_start, ix.group_end));
    proof {
        lemma_size_token_chars(s, ix.size_start as int, ix.size_end as int, ix.month_start as int);
    }
    let (size, pointer) = split_size_field(string.substring_char(ix.size_start, ix.size_end));
    proof {
        reveal_strlit(" ");
    }
    let date_str = String::from_str(string.substring_char(ix.month_start, ix.month_start + 3))
        .concat(" ").concat(string.substring_char(ix.day_start, ix.day_end)).concat(" ").concat(
        string.substring_char(ix.tail_start, ix.tail_end),
    );
    proof {
        assert(date_str@ =~= unix_date_seq(s, ix@));
    }
    let raw = string.substring_char(ix.name_start, n);
    let mut name: String = String::from_str(raw);
    let mut target: Option<String> = None;
    if kind == FtpEntryKind::Symlink {
        let nv = line_chars(raw);
        match find_arrow_x(&nv) {
            Option::Some(j) => {
                name = String::from_str(raw.substring_char(0, j));
                target = Some(String::from_str(raw.substring_char(j + 4, n - ix.name_start)));
            },
            Option::None => {},
        }
    }
    let entry = FtpEntryUnix {
        kind,
        name,
        size,
        date_str,
        target,
        sticky,
        permissions: FtpEntryPermissions(folded),
        acl,
        owner,
        group,
        pointer,
    };
    proof {
        assert(entry@ == unix_model_of(s, ix@));
    }
    entry
}

impl FtpEntryUnix {
    /// Parses one listing line against the Unix layout. Returns the entry
    /// the line denotes, or `None` when the line does not conform — a normal
    /// negative result, not an error.
    pub fn new(string: &str) -> (r: Option<FtpEntryUnix>)
        ensures
            r matches Some(e) ==> unix_model(string@) == Some(e@),
            r is None ==> unix_model(string@) is None,
    {
        let v = line_chars(string);
        let ghost s = string@;
        let n = v.len();
        if n < 10 {
            return None;
        }
        if !type_char_ok(v[0]) {
            return None;
        }
        if !(perm_triplet_ok(v[1], v[2], v[3]) && perm_triplet_ok(v[4], v[5], v[6])
            && perm_triplet_ok(v[7], v[8], v[9])) {
            return None;
        }
        let acl_mark: Option<char> = if 10 < n && (v[10] == '+' || v[10] == '@') {
            Some(v[10])
        } else {
            None
        };
        let i0: usize = if acl_mark.is_some() {
            11
        } else {
            10
        };
        let i1 = scan_run(&v, i0, CharClass::Space);
        if i1 == i0 {
            return None;
        }
        let i2 = scan_run(&v, i1, CharClass::Digit);
        if i2 == i1 {
            return None;
        }
        let i3 = scan_run(&v, i2, CharClass::Space);
        if i3 == i2 {
            return None;
        }
        let ix = match unix_from_owner_x(&v, acl_mark, i3) {
            Option::None => {
                return None;
            },
            Option::Some(ix) => ix,
        };
        proof {
            assert(unix_spans(s) == Some(ix@));
        }
        let entry = build_unix_entry(string, ix);
        Some(entry)
    }
}

} // verus!
