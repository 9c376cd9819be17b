//! Character classes, run scanning and decimal-seconds conversion shared by
//! the line classifiers and the result-bundle extractor.
use crate::models::run::{EventView, TestRunEvent};
use vstd::prelude::*;

verus! {

/// Unicode `White_Space` (what `\s` denotes in a Unicode-aware pattern).
pub open spec fn is_ws(c: char) -> bool {
    let u = c as u32;
    (0x09 <= u && u <= 0x0D) || u == 0x20 || u == 0x85 || u == 0xA0 || u == 0x1680 || (0x2000 <= u
        && u <= 0x200A) || u == 0x2028 || u == 0x2029 || u == 0x202F || u == 0x205F || u == 0x3000
}

pub open spec fn is_digit(c: char) -> bool {
    '0' <= c && c <= '9'
}

/// The classes of characters that a maximal run can be made of.
#[derive(Clone, Copy, PartialEq, Eq, Structural)]
pub enum CharClass {
    NonSpace,
    Space,
    Digit,
    NonDot,
}

pub open spec fn in_class(k: CharClass, c: char) -> bool {
    match k {
        CharClass::NonSpace => !is_ws(c),
        CharClass::Space => is_ws(c),
        CharClass::Digit => is_digit(c),
        CharClass::NonDot => c != '.',
    }
}

/// The end of the maximal run of class `k` that starts at `i`.
pub open spec fn run_end(s: Seq<char>, i: int, k: CharClass) -> int
    decreases s.len() - i,
{
    if i < 0 || i >= s.len() || !in_class(k, s[i]) {
        i
    } else {
        run_end(s, i + 1, k)
    }
}

/// `lit` occurs in `s` at position `i`.
pub open spec fn occurs_at(s: Seq<char>, i: int, lit: Seq<char>) -> bool {
    0 <= i && i + lit.len() <= s.len() && s.subrange(i, i + lit.len()) == lit
}

pub open spec fn all_in_class(s: Seq<char>, k: CharClass) -> bool {
    forall|j: int| 0 <= j < s.len() ==> in_class(k, #[trigger] s[j])
}

pub open spec fn digit_value(c: char) -> nat {
    if is_digit(c) {
        (c as u32 - '0' as u32) as nat
    } else {
        0
    }
}

/// The value of a string of decimal digits.
pub open spec fn digits_value(d: Seq<char>) -> nat
    decreases d.len(),
{
    if d.len() == 0 {
        0
    } else {
        digits_value(d.drop_last()) * 10 + digit_value(d.last())
    }
}

pub open spec fn frac_digit(f: Seq<char>, k: int) -> nat {
    if k < f.len() {
        digit_value(f[k])
    } else {
        0
    }
}

/// `whole.frac` seconds in milliseconds, rounded to the nearest millisecond
/// (halves round up).
pub open spec fn rounded_millis(whole: Seq<char>, frac: Seq<char>) -> nat {
    digits_value(whole) * 1000 + frac_digit(frac, 0) * 100 + frac_digit(frac, 1) * 10 + frac_digit(
        frac,
        2,
    ) + if frac_digit(frac, 3) >= 5 {
        1nat
    } else {
        0nat
    }
}

/// A count of milliseconds held in an `i64`, saturating at its maximum.
pub open spec fn saturate_i64(n: nat) -> i64 {
    if n > i64::MAX {
        i64::MAX
    } else {
        n as i64
    }
}

pub fn is_ws_char(c: char) -> (r: bool)
    ensures
        r == is_ws(c),
{
    let u = c as u32;
    (0x09 <= u && u <= 0x0D) || u == 0x20 || u == 0x85 || u == 0xA0 || u == 0x1680 || (0x2000 <= u
        && u <= 0x200A) || u == 0x2028 || u == 0x2029 || u == 0x202F || u == 0x205F || u == 0x3000
}

pub fn char_in_class(k: CharClass, c: char) -> (r: bool)
    ensures
        r == in_class(k, c),
{
    match k {
        CharClass::NonSpace => !is_ws_char(c),
        CharClass::Space => is_ws_char(c),
        CharClass::Digit => '0' <= c && c <= '9',
        CharClass::NonDot => c != '.',
    }
}

/// The characters of `s`, in order.
pub fn chars_of(s: &str) -> (r: Vec<char>)
    ensures
        r@ == s@,
{
    let mut out: Vec<char> = Vec::new();
    let n = s.unicode_len();
    let mut i: usize = 0;
    while i < n
        invariant
            n == s@.len(),
            i <= n,
            out@ == s@.subrange(0, i as int),
        decreases n - i,
    {
        out.push(s.get_char(i));
        i = i + 1;
        assert(out@ =~= s@.subrange(0, i as int));
    }
    assert(out@ =~= s@);
    out
}

pub fn scan_run(s: &Vec<char>, i: usize, k: CharClass) -> (r: usize)
    requires
        i <= s@.len(),
    ensures
        r as int == run_end(s@, i as int, k),
        i <= r <= s@.len(),
{
    let mut j = i;
    while j < s.len() && char_in_class(k, s[j])
        invariant
            i <= j <= s@.len(),
            run_end(s@, i as int, k) == run_end(s@, j as int, k),
        decreases s@.len() - j,
    {
        j = j + 1;
    }
    j
}

pub fn literal_at(s: &Vec<char>, i: usize, lit: &str) -> (r: bool)
    ensures
        r == occurs_at(s@, i as int, lit@),
{
    let n = lit.unicode_len();
    if i > s.len() || n > s.len() - i {
        return false;
    }
    let mut k: usize = 0;
    while k < n
        invariant
            n == lit@.len(),
            i + n <= s.len(),
            k <= n,
            s@.subrange(i as int, i + k) == lit@.subrange(0, k as int),
        decreases n - k,
    {
        if s[i + k] != lit.get_char(k) {
            assert(s@.subrange(i as int, i + n)[k as int] != lit@[k as int]);
            return false;
        }
        k = k + 1;
        assert(s@.subrange(i as int, i + k) =~= lit@.subrange(0, k as int));
    }
    assert(lit@.subrange(0, n as int) =~= lit@);
    true
}

/// The texts of a list of strings.
pub open spec fn texts(v: Seq<String>) -> Seq<Seq<char>> {
    v.map_values(|s: String| s@)
}

pub open spec fn opt_str(o: Option<&str>) -> Option<Seq<char>> {
    match o {
        Some(s) => Some(s@),
        None => None,
    }
}

/// Appends `s` to `v`.
pub fn push_text(v: &mut Vec<String>, s: String)
    ensures
        texts(final(v)@) == texts(old(v)@).push(s@),
{
    v.push(s);
    assert(texts(v@) =~= texts(old(v)@).push(s@));
}

/// Whether two texts hold the same characters.
pub fn same_text(a: &str, b: &str) -> (r: bool)
    ensures
        r == (a@ == b@),
{
    let n = a.unicode_len();
    if n != b.unicode_len() {
        return false;
    }
    let mut k: usize = 0;
    while k < n
        invariant
            n == a@.len(),
            n == b@.len(),
            k <= n,
            a@.subrange(0, k as int) == b@.subrange(0, k as int),
        decreases n - k,
    {
        if a.get_char(k) != b.get_char(k) {
            return false;
        }
        k = k + 1;
        assert(a@.subrange(0, k as int) =~= a@.subrange(0, k - 1).push(a@[k - 1]));
        assert(b@.subrange(0, k as int) =~= b@.subrange(0, k - 1).push(b@[k - 1]));
    }
    assert(a@ =~= a@.subrange(0, n as int));
    assert(b@ =~= b@.subrange(0, n as int));
    true
}

/// A block of class-`k` characters from `i` to `j`, ended by the end of `s`
/// or by a character of another class, is the maximal run at `i`.
pub proof fn lemma_run_end(s: Seq<char>, i: int, j: int, k: CharClass)
    requires
        0 <= i <= j <= s.len(),
        forall|t: int| i <= t < j ==> in_class(k, #[trigger] s[t]),
        j == s.len() || !in_class(k, s[j]),
    ensures
        run_end(s, i, k) == j,
    decreases j - i,
{
    if i < j {
        lemma_run_end(s, i + 1, j, k);
    }
}

proof fn lemma_digits_value_push(d: Seq<char>, c: char)
    ensures
        digits_value(d.push(c)) == digits_value(d) * 10 + digit_value(c),
{
    assert(d.push(c).drop_last() =~= d);
}

/// Milliseconds for `s[w0..w1]` seconds and `s[f0..f1]` as the fraction,
/// rounded to the nearest and saturating at `i64::MAX`.
pub fn millis_of(s: &Vec<char>, w0: usize, w1: usize, f0: usize, f1: usize) -> (r: i64)
    requires
        w0 <= w1 <= s@.len(),
        f0 <= f1 <= s@.len(),
    ensures
        r == saturate_i64(
            rounded_millis(s@.subrange(w0 as int, w1 as int), s@.subrange(f0 as int, f1 as int)),
        ),
{
    let cap: u128 = 0x7fff_ffff_ffff_ffff;
    let mut acc: u128 = 0;
    let mut j = w0;
    while j < w1
        invariant
            w0 <= j <= w1 <= s@.len(),
            cap == i64::MAX,
            acc <= cap,
            acc < cap ==> acc == digits_value(s@.subrange(w0 as int, j as int)),
            acc == cap ==> digits_value(s@.subrange(w0 as int, j as int)) >= cap,
        decreases w1 - j,
    {
        let c = s[j];
        let dv: u128 = if '0' <= c && c <= '9' {
            (c as u32 - '0' as u32) as u128
        } else {
            0
        };
        proof {
            assert(s@.subrange(w0 as int, j + 1) =~= s@.subrange(w0 as int, j as int).push(c));
            lemma_digits_value_push(s@.subrange(w0 as int, j as int), c);
        }
        if acc < cap {
            let next = acc * 10 + dv;
            acc = if next > cap {
                cap
            } else {
                next
            };
        } else {
            assert(digits_value(s@.subrange(w0 as int, j as int)) * 10 + dv >= cap) by (nonlinear_arith)
                requires
                    digits_value(s@.subrange(w0 as int, j as int)) >= cap,
            ;
        }
        j = j + 1;
    }
    let ghost whole = s@.subrange(w0 as int, w1 as int);
    let ghost frac = s@.subrange(f0 as int, f1 as int);
    let mut fm: u128 = 0;
    let mut k: usize = 0;
    while k < 3
        invariant
            f0 <= f1 <= s@.len(),
            frac == s@.subrange(f0 as int, f1 as int),
            k <= 3,
            fm == (if k > 0 { frac_digit(frac, 0) * 100 } else { 0nat }) + (if k > 1 {
                frac_digit(frac, 1) * 10
            } else {
                0nat
            }) + (if k > 2 { frac_digit(frac, 2) } else { 0nat }),
        decreases 3 - k,
    {
        let d: u128 = if k < f1 - f0 && '0' <= s[f0 + k] && s[f0 + k] <= '9' {
            (s[f0 + k] as u32 - '0' as u32) as u128
        } else {
            0
        };
        fm = fm + if k == 0 {
            d * 100
        } else if k == 1 {
            d * 10
        } else {
            d
        };
        k = k + 1;
    }
    if 3 < f1 - f0 && '5' <= s[f0 + 3] && s[f0 + 3] <= '9' {
        fm = fm + 1;
    }
    assert(fm <= 1000);
    if acc >= cap / 1000 + 1 {
        assert(digits_value(whole) * 1000 >= (cap / 1000 + 1) * 1000) by (nonlinear_arith)
            requires
                digits_value(whole) >= cap / 1000 + 1,
        ;
        i64::MAX
    } else {
        let total = acc * 1000 + fm;
        if total > cap {
            i64::MAX
        } else {
            total as i64
        }
    }
}

/// Where the pieces of a recognised test-case line lie, as character positions.
pub struct Captured {
    pub suite_start: int,
    pub suite_end: int,
    pub name_start: int,
    pub name_end: int,
    pub passed: bool,
    pub whole_start: int,
    pub whole_end: int,
    pub frac_start: int,
    pub frac_end: int,
}

/// `Captured`, as the executable code finds it.
pub struct Captures {
    pub suite_start: usize,
    pub suite_end: usize,
    pub name_start: usize,
    pub name_end: usize,
    pub passed: bool,
    pub whole_start: usize,
    pub whole_end: usize,
    pub frac_start: usize,
    pub frac_end: usize,
}

impl View for Captures {
    type V = Captured;

    open spec fn view(&self) -> Captured {
        Captured {
            suite_start: self.suite_start as int,
            suite_end: self.suite_end as int,
            name_start: self.name_start as int,
            name_end: self.name_end as int,
            passed: self.passed,
            whole_start: self.whole_start as int,
            whole_end: self.whole_end as int,
            frac_start: self.frac_start as int,
            frac_end: self.frac_end as int,
        }
    }
}

/// ` passed (` or ` failed (` at `d`: whether it is the first.
pub open spec fn outcome_at(s: Seq<char>, d: int) -> Option<bool> {
    if occurs_at(s, d, " passed ("@) {
        Some(true)
    } else if occurs_at(s, d, " failed ("@) {
        Some(false)
    } else {
        None
    }
}

/// `<digits>.<digits>` at `e`, followed by `tail`: where the dot and the
/// second run of digits end.
pub open spec fn seconds_at(s: Seq<char>, e: int, tail: Seq<char>) -> Option<(int, int)> {
    let f = run_end(s, e, CharClass::Digit);
    if f > e && f < s.len() && s[f] == '.' {
        let g = run_end(s, f + 1, CharClass::Digit);
        if g > f + 1 && occurs_at(s, g, tail) {
            Some((f, g))
        } else {
            None
        }
    } else {
        None
    }
}

/// The rest of a test-case line from the end of the quoted name at `d`:
/// outcome, seconds and `tail`.
pub open spec fn finish_at(
    s: Seq<char>,
    d: int,
    tail: Seq<char>,
    suite_start: int,
    suite_end: int,
    name_start: int,
    name_end: int,
) -> Option<Captured> {
    match outcome_at(s, d) {
        None => None,
        Some(p) => match seconds_at(s, d + 9, tail) {
            None => None,
            Some(fg) => Some(
                Captured {
                    suite_start,
                    suite_end,
                    name_start,
                    name_end,
                    passed: p,
                    whole_start: d + 9,
                    whole_end: fg.0,
                    frac_start: fg.0 + 1,
                    frac_end: fg.1,
                },
            ),
        },
    }
}

/// The completion event that a recognised line stands for.
pub open spec fn captured_event(s: Seq<char>, m: Captured) -> EventView {
    EventView::TestCompleted {
        name: s.subrange(m.name_start, m.name_end),
        suite: s.subrange(m.suite_start, m.suite_end),
        status: if m.passed {
            "passed"@
        } else {
            "failed"@
        },
        duration_ms: saturate_i64(
            rounded_millis(
                s.subrange(m.whole_start, m.whole_end),
                s.subrange(m.frac_start, m.frac_end),
            ),
        ),
    }
}

pub fn finish_match(
    s: &Vec<char>,
    d: usize,
    tail: &str,
    suite_start: usize,
    suite_end: usize,
    name_start: usize,
    name_end: usize,
) -> (r: Option<Captures>)
    requires
        d <= s@.len(),
        suite_start <= suite_end <= d,
        name_start <= name_end <= d,
    ensures
        r matches Some(c) ==> {
            &&& c.suite_start <= c.suite_end <= s@.len()
            &&& c.name_start <= c.name_end <= s@.len()
            &&& c.whole_start <= c.whole_end <= s@.len()
            &&& c.frac_start <= c.frac_end <= s@.len()
        },
        match finish_at(
            s@,
            d as int,
            tail@,
            suite_start as int,
            suite_end as int,
            name_start as int,
            name_end as int,
        ) {
            None => r is None,
            Some(m) => r matches Some(c) && c@ == m,
        },
{
    let passed = if literal_at(s, d, " passed (") {
        true
    } else if literal_at(s, d, " failed (") {
        false
    } else {
        return None;
    };
    proof {
        reveal_strlit(" passed (");
        reveal_strlit(" failed (");
    }
    let n = s.len();
    assert(d + 9 <= n);
    let e = d + 9;
    let f = scan_run(s, e, CharClass::Digit);
    if !(f > e && f < s.len() && s[f] == '.') {
        return None;
    }
    let g = scan_run(s, f + 1, CharClass::Digit);
    if !(g > f + 1 && literal_at(s, g, tail)) {
        return None;
    }
    Some(
        Captures {
            suite_start,
            suite_end,
            name_start,
            name_end,
            passed,
            whole_start: e,
            whole_end: f,
            frac_start: f + 1,
            frac_end: g,
        },
    )
}

/// Builds the completion event for a recognised line.
pub fn event_of(line: &str, s: &Vec<char>, c: &Captures) -> (r: TestRunEvent)
    requires
        s@ == line@,
        c.suite_start <= c.suite_end <= s@.len(),
        c.name_start <= c.name_end <= s@.len(),
        c.whole_start <= c.whole_end <= s@.len(),
        c.frac_start <= c.frac_end <= s@.len(),
    ensures
        r@ == captured_event(line@, c@),
{
    let suite = String::from_str(line.substring_char(c.suite_start, c.suite_end));
    let name = String::from_str(line.substring_char(c.name_start, c.name_end));
    let status = if c.passed {
        String::from_str("passed")
    } else {
        String::from_str("failed")
    };
    let duration_ms = millis_of(s, c.whole_start, c.whole_end, c.frac_start, c.frac_end);
    TestRunEvent::TestCompleted { name, suite, status, duration_ms }
}

} // verus!
