//! The MSDOS/Windows `dir`-style layout and its parser.
//!
//! Left to right, a conforming line holds: a date as `MM-DD-YY` or
//! `MM-DD-YYYY` (separator `-` or `/`); a time as `HH:MM`, optionally
//! followed by one whitespace character and a one- or two-letter AM/PM
//! marker; then either a decimal size or the literal marker `<DIR>`; then a
//! name occupying the remainder of the line. Fields are separated by runs of
//! whitespace.

use vstd::prelude::*;

use crate::kind::FtpEntryKind;
use crate::scan::CharClass;
use crate::scan::clamped_dec;
use crate::scan::contains_char;
use crate::scan::dec_value;
use crate::scan::digit_char;
use crate::scan::digit_str;
use crate::scan::is_digit;
use crate::scan::is_digit_char;
use crate::scan::is_space;
use crate::scan::is_space_char;
use crate::scan::lemma_dec_value_bound;
use crate::scan::lemma_run_end;
use crate::scan::line_chars;
use crate::scan::parse_decimal;
use crate::scan::run_end;
use crate::scan::scan_run;
use vstd::string::StrSliceExecFns;
use vstd::string::StringExecFns;

verus! {

/// A date-field separator of the layout.
pub open spec fn is_date_sep(c: char) -> bool {
    c == '-' || c == '/'
}

/// A character the AM/PM marker may consist of.
pub open spec fn is_ampm_char(c: char) -> bool {
    c == 'A' || c == 'a' || c == 'M' || c == 'm' || c == 'P' || c == 'p'
}

fn is_ampm(c: char) -> (b: bool)
    ensures
        b == is_ampm_char(c),
{
    c == 'A' || c == 'a' || c == 'M' || c == 'm' || c == 'P' || c == 'p'
}

/// Field boundaries of a successful MSDOS-layout match. The date always
/// occupies positions 0 through `year_end`; the time starts at `hour_start`.
pub struct MsdosSpans {
    /// End of the year digits (they start at position 6).
    pub year_end: int,
    /// Start of the `HH:MM` time field.
    pub hour_start: int,
    /// Position of the AM/PM marker's first character.
    pub ampm_start: int,
    /// Whether the `<DIR>` marker was matched in place of a size.
    pub is_dir: bool,
    /// The decimal size digits, empty when `is_dir`.
    pub size_start: int,
    pub size_end: int,
    /// Start of the name, which runs to the end of the line.
    pub name_start: int,
}

/// Matches the MSDOS layout against the whole line and yields the field
/// boundaries, or `None` when the line does not conform.
pub open spec fn msdos_spans(s: Seq<char>) -> Option<MsdosSpans> {
    let n = s.len() as int;
    if n < 6 {
        None
    } else if !(is_digit_char(s[0]) && is_digit_char(s[1]) && is_date_sep(s[2]) && is_digit_char(
        s[3],
    ) && is_digit_char(s[4]) && is_date_sep(s[5])) {
        None
    } else {
        let ye = run_end(s, 6, CharClass::Digit);
        if !(8 <= ye && ye <= 10 && ye < n && is_space_char(s[ye])) {
            None
        } else {
            let hs = run_end(s, ye, CharClass::Space);
            if !(n - hs > 5 && is_digit_char(s[hs]) && is_digit_char(s[hs + 1]) && s[hs + 2] == ':'
                && is_digit_char(s[hs + 3]) && is_digit_char(s[hs + 4])) {
                None
            } else {
                let ap = if is_space_char(s[hs + 5]) {
                    hs + 6
                } else {
                    hs + 5
                };
                if !(ap < n && is_ampm_char(s[ap])) {
                    None
                } else {
                    let ae = if ap + 1 < n && is_ampm_char(s[ap + 1]) {
                        ap + 2
                    } else {
                        ap + 1
                    };
                    if !(ae < n && is_space_char(s[ae])) {
                        None
                    } else {
                        let sz = run_end(s, ae, CharClass::Space);
                        let dr = run_end(s, sz, CharClass::Digit);
                        msdos_spans_size(s, ye, hs, ap, sz, dr)
                    }
                }
            }
        }
    }
}

/// Continues `msdos_spans` at the size-or-marker field starting at `sz`.
pub open spec fn msdos_spans_size(
    s: Seq<char>,
    ye: int,
    hs: int,
    ap: int,
    sz: int,
    dr: int,
) -> Option<MsdosSpans> {
    let n = s.len() as int;
    if dr > sz {
        // a decimal size, which a whitespace run must follow
        if !(dr < n && is_space_char(s[dr])) {
            None
        } else {
            msdos_spans_name(s, ye, hs, ap, false, sz, dr, run_end(s, dr, CharClass::Space))
        }
    } else {
        // the literal `<DIR>` marker, which a whitespace run must follow
        if !(n - sz > 5 && s[sz] == '<' && s[sz + 1] == 'D' && s[sz + 2] == 'I' && s[sz + 3] == 'R'
            && s[sz + 4] == '>' && is_space_char(s[sz + 5])) {
            None
        } else {
            msdos_spans_name(s, ye, hs, ap, true, sz, sz, run_end(s, sz + 5, CharClass::Space))
        }
    }
}

/// Continues `msdos_spans` at the name field starting at `ns`: the name is
/// the nonempty remainder of the line and holds no line break.
pub open spec fn msdos_spans_name(
    s: Seq<char>,
    ye: int,
    hs: int,
    ap: int,
    is_dir: bool,
    ss: int,
    se: int,
    ns: int,
) -> Option<MsdosSpans> {
    let n = s.len() as int;
    if !(ns < n && (forall|j: int| ns <= j < n ==> s[j] != '\n')) {
        None
    } else {
        Some(
            MsdosSpans {
                year_end: ye,
                hour_start: hs,
                ampm_start: ap,
                is_dir,
                size_start: ss,
                size_end: se,
                name_start: ns,
            },
        )
    }
}

/// The century window for a year written with fewer than four digits:
/// values below 70 fall in the 2000s, the rest in the 1900s. A four-digit
/// year passes through unchanged.
pub open spec fn year_window(y: nat, width: int) -> nat {
    if width < 4 {
        if y < 70 {
            y + 2000
        } else {
            y + 1900
        }
    } else {
        y
    }
}

/// Applies the century window to a year value captured with `width` digits.
pub fn expand_year(y: usize, width: usize) -> (r: usize)
    requires
        y <= 9999,
        width < 4 ==> y <= 999,
    ensures
        r as nat == year_window(y as nat, width as int),
        r <= 9999,
{
    if width < 4 {
        if y < 70 {
            y + 2000
        } else {
            y + 1900
        }
    } else {
        y
    }
}

/// The 24-hour clock value of a captured hour and AM/PM marker: an hour in
/// 1..=11 with a `p` marker gains twelve; hour 12 with an `a` marker becomes
/// zero; every other combination passes through unchanged.
pub open spec fn hour_24(h: nat, marker: char) -> nat {
    if (marker == 'p' || marker == 'P') && 1 <= h <= 11 {
        h + 12
    } else if (marker == 'a' || marker == 'A') && h == 12 {
        0
    } else {
        h
    }
}

/// Converts a captured hour to the 24-hour clock, per `hour_24`.
pub fn to_hour_24(h: usize, marker: char) -> (r: usize)
    requires
        h <= 99,
    ensures
        r as nat == hour_24(h as nat, marker),
        r <= 99,
{
    if (marker == 'p' || marker == 'P') && 1 <= h && h <= 11 {
        h + 12
    } else if (marker == 'a' || marker == 'A') && h == 12 {
        0
    } else {
        h
    }
}

/// The normalized date text `YYYY-MM-DDTHH:MM`: every field zero-padded to
/// its fixed width.
pub open spec fn msdos_date_seq(y: nat, mo: nat, d: nat, h: nat, mi: nat) -> Seq<char> {
    seq![
        digit_char((y / 1000) % 10),
        digit_char((y / 100) % 10),
        digit_char((y / 10) % 10),
        digit_char(y % 10),
        '-',
        digit_char((mo / 10) % 10),
        digit_char(mo % 10),
        '-',
        digit_char((d / 10) % 10),
        digit_char(d % 10),
        'T',
        digit_char((h / 10) % 10),
        digit_char(h % 10),
        ':',
        digit_char((mi / 10) % 10),
        digit_char(mi % 10),
    ]
}

/// Renders the normalized date text from the field values.
fn format_date_text(y: usize, mo: usize, d: usize, h: usize, mi: usize) -> (r: String)
    requires
        y <= 9999,
        mo <= 99,
        d <= 99,
        h <= 99,
        mi <= 99,
    ensures
        r@ =~= msdos_date_seq(y as nat, mo as nat, d as nat, h as nat, mi as nat),
{
    proof {
        reveal_strlit("-");
        reveal_strlit("T");
        reveal_strlit(":");
    }
    let mut out = String::new();
    out.append(digit_str(((y / 1000) % 10) as u8));
    out.append(digit_str(((y / 100) % 10) as u8));
    out.append(digit_str(((y / 10) % 10) as u8));
    out.append(digit_str((y % 10) as u8));
    out.append("-");
    out.append(digit_str(((mo / 10) % 10) as u8));
    out.append(digit_str((mo % 10) as u8));
    out.append("-");
    out.append(digit_str(((d / 10) % 10) as u8));
    out.append(digit_str((d % 10) as u8));
    out.append("T");
    out.append(digit_str(((h / 10) % 10) as u8));
    out.append(digit_str((h % 10) as u8));
    out.append(":");
    out.append(digit_str(((mi / 10) % 10) as u8));
    out.append(digit_str((mi % 10) as u8));
    out
}

/// The abstract content of an MSDOS entry.
pub struct MsdosModel {
    pub kind: FtpEntryKind,
    pub name: Seq<char>,
    pub size: nat,
    pub date_str: Seq<char>,
}

/// The entry a conforming MSDOS line denotes: kind from the `<DIR>` marker,
/// size 0 for directories, date text normalized per `msdos_date_seq`, name
/// verbatim.
pub open spec fn msdos_model(s: Seq<char>) -> Option<MsdosModel> {
    match msdos_spans(s) {
        Option::None => None,
        Option::Some(sp) => Some(
            MsdosModel {
                kind: if sp.is_dir {
                    FtpEntryKind::Directory
                } else {
                    FtpEntryKind::File
                },
                name: s.subrange(sp.name_start, s.len() as int),
                size: if sp.is_dir {
                    0
                } else {
                    clamped_dec(s.subrange(sp.size_start, sp.size_end))
                },
                date_str: msdos_date_seq(
                    year_window(dec_value(s.subrange(6, sp.year_end)), sp.year_end - 6),
                    dec_value(s.subrange(0, 2)),
                    dec_value(s.subrange(3, 5)),
                    hour_24(
                        dec_value(s.subrange(sp.hour_start, sp.hour_start + 2)),
                        s[sp.ampm_start],
                    ),
                    dec_value(s.subrange(sp.hour_start + 3, sp.hour_start + 5)),
                ),
            },
        ),
    }
}

/// Invariants of every MSDOS entry: only files and directories are
/// representable in this layout, and a directory's size is always 0.
pub proof fn lemma_msdos_invariants(s: Seq<char>, m: MsdosModel)
    requires
        msdos_model(s) == Some(m),
    ensures
        m.kind == FtpEntryKind::File || m.kind == FtpEntryKind::Directory,
        m.kind == FtpEntryKind::Directory ==> m.size == 0,
{
}

/// An entry parsed from an MSDOS-style listing line.
#[derive(Debug)]
pub struct FtpEntryMsdos {
    /// `Directory` when the `<DIR>` marker was present, `File` otherwise.
    pub kind: FtpEntryKind,
    /// The name: the remainder of the line, verbatim.
    pub name: String,
    /// The decimal size; 0 for directories.
    pub size: usize,
    /// Normalized date text in the fixed form `YYYY-MM-DDTHH:MM`.
    pub date_str: String,
}

impl View for FtpEntryMsdos {
    type V = MsdosModel;

    open spec fn view(&self) -> MsdosModel {
        MsdosModel {
            kind: self.kind,
            name: self.name@,
            size: self.size as nat,
            date_str: self.date_str@,
        }
    }
}

impl FtpEntryMsdos {
    /// Parses one listing line against the MSDOS layout. Returns the entry
    /// the line denotes, or `None` when the line does not conform — a normal
    /// negative result, not an error.
    pub fn new(string: &str) -> (r: Option<FtpEntryMsdos>)
        ensures
            r matches Some(e) ==> msdos_model(string@) == Some(e@),
            r is None ==> msdos_model(string@) is None,
    {
        let v = line_chars(string);
        let ghost s = string@;
        let n = v.len();
        if n < 6 {
            return None;
        }
        if !(is_digit(v[0]) && is_digit(v[1])) {
            return None;
        }
        if !(v[2] == '-' || v[2] == '/') {
            return None;
        }
        if !(is_digit(v[3]) && is_digit(v[4])) {
            return None;
        }
        if !(v[5] == '-' || v[5] == '/') {
            return None;
        }
        let ye = scan_run(&v, 6, CharClass::Digit);
        if !(8 <= ye && ye <= 10 && ye < n && is_space(v[ye])) {
            return None;
        }
        let hs = scan_run(&v, ye, CharClass::Space);
        if !(n - hs > 5) {
            return None;
        }
        if !(is_digit(v[hs]) && is_digit(v[hs + 1]) && v[hs + 2] == ':' && is_digit(v[hs + 3])
            && is_digit(v[hs + 4])) {
            return None;
        }
        let ap = if is_space(v[hs + 5]) {
            hs + 6
        } else {
            hs + 5
        };
        if !(ap < n && is_ampm(v[ap])) {
            return None;
        }
        let ae = if ap + 1 < n && is_ampm(v[ap + 1]) {
            ap + 2
        } else {
            ap + 1
        };
        if !(ae < n && is_space(v[ae])) {
            return None;
        }
        let sz = scan_run(&v, ae, CharClass::Space);
        let dr = scan_run(&v, sz, CharClass::Digit);
        let is_dir: bool;
        let se: usize;
        let ns: usize;
        if dr > sz {
            if !(dr < n && is_space(v[dr])) {
                return None;
            }
            is_dir = false;
            se = dr;
            ns = scan_run(&v, dr, CharClass::Space);
        } else {
            if !(n - sz > 5) {
                return None;
            }
            if !(v[sz] == '<' && v[sz + 1] == 'D' && v[sz + 2] == 'I' && v[sz + 3] == 'R' && v[sz
                + 4] == '>' && is_space(v[sz + 5])) {
                return None;
            }
            is_dir = true;
            se = sz;
            ns = scan_run(&v, sz + 5, CharClass::Space);
        }
        if !(ns < n) {
            return None;
        }
        if contains_char(&v, ns, n, '\n') {
            return None;
        }
        proof {
            assert(msdos_spans(s) == Some(
                MsdosSpans {
                    year_end: ye as int,
                    hour_start: hs as int,
                    ampm_start: ap as int,
                    is_dir: is_dir,
                    size_start: sz as int,
                    size_end: se as int,
                    name_start: ns as int,
                },
            ));
            lemma_run_end(s, 6, CharClass::Digit);
            lemma_run_end(s, sz as int, CharClass::Digit);
            lemma_dec_value_bound(s.subrange(0, 2));
            lemma_dec_value_bound(s.subrange(3, 5));
            lemma_dec_value_bound(s.subrange(6, ye as int));
            lemma_dec_value_bound(s.subrange(hs as int, hs as int + 2));
            lemma_dec_value_bound(s.subrange(hs as int + 3, hs as int + 5));
        }
        let month = parse_decimal(&v, 0, 2);
        let day = parse_decimal(&v, 3, 5);
        let yv = parse_decimal(&v, 6, ye);
        let year = expand_year(yv, ye - 6);
        let hh = parse_decimal(&v, hs, hs + 2);
        let mi = parse_decimal(&v, hs + 3, hs + 5);
        let h24 = to_hour_24(hh, v[ap]);
        let date_str = format_date_text(year, month, day, h24, mi);
        let size: usize = if is_dir {
            0
        } else {
            parse_decimal(&v, sz, dr)
        };
        let name = String::from_str(string.substring_char(ns, n));
        let entry = FtpEntryMsdos { kind: if is_dir {
            FtpEntryKind::Directory
        } else {
            FtpEntryKind::File
        }, name, size, date_str };
        Some(entry)
    }
}

} // verus!
