//! Durations with second resolution and a millisecond fraction, parsed
//! from the ISO 8601 duration strings the server sends (`"PT1M17S"` is
//! 77 seconds).
//!
//! The accepted grammar is `P`, followed by optional week (`W`) and day
//! (`D`) components, followed by an optional time section `T` with hour
//! (`H`), minute (`M`) and second (`S`) components. Components must
//! appear in that order, each at most once, and at least one component
//! must be present. Only the seconds component may carry a decimal
//! fraction, which is kept to millisecond precision (further digits are
//! truncated). Calendar components (years, months) are rejected, since
//! they have no fixed length in seconds.

use vstd::prelude::*;

verus! {

/// A non-negative span of time: whole seconds plus a millisecond fraction.
#[derive(Clone, Copy, Debug, PartialEq, Eq, Structural)]
pub struct DurationVal {
    pub secs: u64,
    pub millis: u32,
}

impl View for DurationVal {
    type V = DurationVal;

    open spec fn view(&self) -> DurationVal {
        *self
    }
}

impl DeepView for DurationVal {
    type V = DurationVal;

    open spec fn deep_view(&self) -> DurationVal {
        *self
    }
}

impl DurationVal {
    /// A duration is well formed when the fraction is below one second.
    pub open spec fn wf(self) -> bool {
        self.millis < 1000
    }
}

pub open spec fn is_digit(c: char) -> bool {
    48 <= c as int && c as int <= 57
}

pub open spec fn digit_val(c: char) -> int {
    c as int - 48
}

/// Scans a run of decimal digits from position `i`, accumulating their
/// value; the accumulator becomes `None` once the value no longer fits
/// in a `u64`. Returns the value and the position after the last digit.
pub open spec fn spec_scan_num(s: Seq<char>, i: int, acc: Option<u64>) -> (Option<u64>, int)
    decreases s.len() - i,
{
    if i < 0 || i >= s.len() || !is_digit(s[i]) {
        (acc, i)
    } else {
        let nacc = match acc {
            None => None,
            Some(a) => if a as int * 10 + digit_val(s[i]) > u64::MAX as int {
                None
            } else {
                Some((a as int * 10 + digit_val(s[i])) as u64)
            },
        };
        spec_scan_num(s, i + 1, nacc)
    }
}

pub proof fn lemma_scan_num_bounds(s: Seq<char>, i: int, acc: Option<u64>)
    requires
        0 <= i <= s.len(),
    ensures
        i <= spec_scan_num(s, i, acc).1 <= s.len(),
        i < s.len() && is_digit(s[i]) ==> spec_scan_num(s, i, acc).1 > i,
    decreases s.len() - i,
{
    if i < s.len() && is_digit(s[i]) {
        let nacc = match acc {
            None => None,
            Some(a) => if a as int * 10 + digit_val(s[i]) > u64::MAX as int {
                None
            } else {
                Some((a as int * 10 + digit_val(s[i])) as u64)
            },
        };
        lemma_scan_num_bounds(s, i + 1, nacc);
    }
}

/// The digit of the fraction `s[fs..fe)` at offset `k`, or zero past its end.
pub open spec fn frac_digit(s: Seq<char>, fs: int, fe: int, k: int) -> int {
    if fs + k < fe {
        digit_val(s[fs + k])
    } else {
        0
    }
}

/// The first three fraction digits read as milliseconds.
pub open spec fn frac_millis(s: Seq<char>, fs: int, fe: int) -> int {
    100 * frac_digit(s, fs, fe, 0) + 10 * frac_digit(s, fs, fe, 1) + frac_digit(s, fs, fe, 2)
}

/// Position of a unit letter in the required component order
/// (`W` < `D` < `H` < `M` < `S`), or 0 when the letter is not a valid
/// unit in the current section.
pub open spec fn unit_rank(c: char, in_time: bool) -> int {
    if !in_time {
        if c == 'W' {
            1
        } else if c == 'D' {
            2
        } else {
            0
        }
    } else {
        if c == 'H' {
            4
        } else if c == 'M' {
            5
        } else if c == 'S' {
            6
        } else {
            0
        }
    }
}

/// Seconds per unit.
pub open spec fn unit_mult(c: char, in_time: bool) -> int {
    if !in_time {
        if c == 'W' {
            604800
        } else {
            86400
        }
    } else {
        if c == 'H' {
            3600
        } else if c == 'M' {
            60
        } else {
            1
        }
    }
}

/// One step of the duration grammar after the leading `P`: either the
/// string ends, or a `T` opens the time section, or a number with its
/// unit letter follows. `min_rank` enforces the component order, `any`
/// records whether a component has been seen, and `secs`/`millis`
/// accumulate the value. `None` means the string is not a valid
/// duration or its value does not fit in a `u64` of seconds.
pub open spec fn spec_du_units(
    s: Seq<char>,
    i: int,
    in_time: bool,
    min_rank: int,
    any: bool,
    secs: u64,
    millis: u32,
) -> Option<DurationVal>
    decreases s.len() - i,
{
    if i < 0 || i > s.len() {
        None
    } else if i == s.len() {
        if any {
            Some(DurationVal { secs, millis })
        } else {
            None
        }
    } else if s[i] == 'T' && !in_time {
        if i + 1 < s.len() && is_digit(s[i + 1]) {
            spec_du_units(s, i + 1, true, 4, any, secs, millis)
        } else {
            None
        }
    } else if !is_digit(s[i]) {
        None
    } else {
        let scanned = spec_scan_num(s, i, Some(0u64));
        let end = scanned.1;
        if !(i < end <= s.len()) {
            None
        } else {
            match scanned.0 {
                None => None,
                Some(v) => if end == s.len() {
                    None
                } else if s[end] == '.' {
                    let fend = spec_scan_num(s, end + 1, Some(0u64)).1;
                    if !(end + 1 < fend && fend < s.len()) {
                        None
                    } else if s[fend] == 'S' && in_time && min_rank <= 6 {
                        if v as int + secs as int > u64::MAX as int {
                            None
                        } else {
                            spec_du_units(
                                s,
                                fend + 1,
                                true,
                                7,
                                true,
                                (v as int + secs as int) as u64,
                                frac_millis(s, end + 1, fend) as u32,
                            )
                        }
                    } else {
                        None
                    }
                } else {
                    let c = s[end];
                    let rank = unit_rank(c, in_time);
                    if rank == 0 || rank < min_rank {
                        None
                    } else if v as int * unit_mult(c, in_time) + secs as int > u64::MAX as int {
                        None
                    } else {
                        spec_du_units(
                            s,
                            end + 1,
                            in_time,
                            rank + 1,
                            true,
                            (v as int * unit_mult(c, in_time) + secs as int) as u64,
                            millis,
                        )
                    }
                },
            }
        }
    }
}

/// What `parse_duration` returns: the value of a well-formed ISO 8601
/// duration string, in seconds and milliseconds, and `None` otherwise.
pub open spec fn spec_parse_duration(s: Seq<char>) -> Option<DurationVal> {
    if s.len() == 0 || s[0] != 'P' {
        None
    } else {
        spec_du_units(s, 1, false, 1, false, 0u64, 0u32)
    }
}

fn is_digit_exec(c: char) -> (r: bool)
    ensures
        r == is_digit(c),
{
    c as u32 >= 48 && c as u32 <= 57
}

fn scan_num(s: &str, n: usize, start: usize) -> (r: (Option<u64>, usize))
    requires
        n == s@.len(),
        start <= n,
    ensures
        r.0 == spec_scan_num(s@, start as int, Some(0u64)).0,
        r.1 as int == spec_scan_num(s@, start as int, Some(0u64)).1,
        start <= r.1 <= n,
{
    let mut i: usize = start;
    let mut acc: Option<u64> = Some(0);
    loop
        invariant
            n == s@.len(),
            start <= i <= n,
            spec_scan_num(s@, start as int, Some(0u64)) == spec_scan_num(s@, i as int, acc),
        decreases n - i,
    {
        if i == n {
            return (acc, i);
        }
        let c = s.get_char(i);
        if !is_digit_exec(c) {
            return (acc, i);
        }
        let d = (c as u32 - 48) as u64;
        let nacc: Option<u64> = match acc {
            Some(a) => match a.checked_mul(10) {
                Some(t) => t.checked_add(d),
                None => None,
            },
            None => None,
        };
        proof {
            assert(spec_scan_num(s@, i as int, acc) == spec_scan_num(s@, i as int + 1, nacc));
        }
        i = i + 1;
        acc = nacc;
    }
}

pub proof fn lemma_scan_num_digits(s: Seq<char>, i: int, acc: Option<u64>)
    requires
        0 <= i <= s.len(),
    ensures
        forall|k: int|
            i <= k < spec_scan_num(s, i, acc).1 ==> is_digit(s[k]),
    decreases s.len() - i,
{
    if i < s.len() && is_digit(s[i]) {
        let nacc = match acc {
            None => None,
            Some(a) => if a as int * 10 + digit_val(s[i]) > u64::MAX as int {
                None
            } else {
                Some((a as int * 10 + digit_val(s[i])) as u64)
            },
        };
        lemma_scan_num_bounds(s, i + 1, nacc);
        lemma_scan_num_digits(s, i + 1, nacc);
    }
}

fn read_frac_millis(s: &str, n: usize, fs: usize, fe: usize) -> (m: u32)
    requires
        n == s@.len(),
        fs <= fe <= n,
        forall|k: int| fs <= k < fe ==> is_digit(s@[k]),
    ensures
        m as int == frac_millis(s@, fs as int, fe as int),
        m < 1000,
{
    let d0: u32 = if fe - fs > 0 {
        s.get_char(fs) as u32 - 48
    } else {
        0
    };
    let d1: u32 = if fe - fs > 1 {
        s.get_char(fs + 1) as u32 - 48
    } else {
        0
    };
    let d2: u32 = if fe - fs > 2 {
        s.get_char(fs + 2) as u32 - 48
    } else {
        0
    };
    d0 * 100 + d1 * 10 + d2
}

fn unit_props(c: char, in_time: bool) -> (r: (u8, u64))
    ensures
        r.0 as int == unit_rank(c, in_time),
        r.0 != 0 ==> r.1 as int == unit_mult(c, in_time),
{
    if !in_time {
        if c == 'W' {
            (1, 604800)
        } else if c == 'D' {
            (2, 86400)
        } else {
            (0, 0)
        }
    } else {
        if c == 'H' {
            (4, 3600)
        } else if c == 'M' {
            (5, 60)
        } else if c == 'S' {
            (6, 1)
        } else {
            (0, 0)
        }
    }
}

fn du_units(
    s: &str,
    n: usize,
    i: usize,
    in_time: bool,
    min_rank: u8,
    any: bool,
    secs: u64,
    millis: u32,
) -> (r: Option<DurationVal>)
    requires
        n == s@.len(),
        i <= n,
        millis < 1000,
    ensures
        r == spec_du_units(s@, i as int, in_time, min_rank as int, any, secs, millis),
        r matches Some(d) ==> d.wf(),
    decreases n - i,
{
    if i == n {
        if any {
            return Some(DurationVal { secs, millis });
        } else {
            return None;
        }
    }
    let c = s.get_char(i);
    if c == 'T' && !in_time {
        if i + 1 < n && is_digit_exec(s.get_char(i + 1)) {
            return du_units(s, n, i + 1, true, 4, any, secs, millis);
        } else {
            return None;
        }
    }
    if !is_digit_exec(c) {
        return None;
    }
    let (vopt, end) = scan_num(s, n, i);
    proof {
        lemma_scan_num_bounds(s@, i as int, Some(0u64));
    }
    let v = match vopt {
        Some(v) => v,
        None => {
            return None;
        },
    };
    if end == n {
        return None;
    }
    let uc = s.get_char(end);
    if uc == '.' {
        let (_fv, fend) = scan_num(s, n, end + 1);
        if !(end + 1 < fend && fend < n) {
            return None;
        }
        if s.get_char(fend) == 'S' && in_time && min_rank <= 6 {
            match v.checked_add(secs) {
                Some(nsecs) => {
                    proof {
                        lemma_scan_num_digits(s@, end as int + 1, Some(0u64));
                    }
                    let m = read_frac_millis(s, n, end + 1, fend);
                    return du_units(s, n, fend + 1, true, 7, true, nsecs, m);
                },
                None => {
                    return None;
                },
            }
        } else {
            return None;
        }
    }
    let (rank, mult) = unit_props(uc, in_time);
    if rank == 0 || rank < min_rank {
        return None;
    }
    match v.checked_mul(mult) {
        Some(t) => match t.checked_add(secs) {
            Some(nsecs) => du_units(s, n, end + 1, in_time, rank + 1, true, nsecs, millis),
            None => None,
        },
        None => None,
    }
}

/// Parses an ISO 8601 duration string; `None` means the string is not a
/// duration of the accepted grammar or does not fit in a `u64` of
/// seconds.
pub fn parse_duration(s: &str) -> (r: Option<DurationVal>)
    ensures
        r == spec_parse_duration(s@),
        r matches Some(d) ==> d.wf(),
{
    let n = s.unicode_len();
    if n == 0 {
        return None;
    }
    if s.get_char(0) != 'P' {
        return None;
    }
    du_units(s, n, 1, false, 1, false, 0, 0)
}

} // verus!
