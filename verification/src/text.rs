//! Small verified string helpers shared across the crate.

use vstd::prelude::*;
use vstd::string::StrSliceExecFns;
use vstd::string::StringExecFns;

verus! {

/// No occurrence of `c` in `s`.
pub open spec fn free_of(s: Seq<char>, c: char) -> bool {
    forall|i: int| 0 <= i < s.len() ==> s[i] != c
}

/// Character-wise string equality.
pub fn str_eq(a: &str, b: &str) -> (r: bool)
    ensures
        r == (a@ == b@),
{
    let na = a.unicode_len();
    let nb = b.unicode_len();
    if na != nb {
        proof {
            if a@ == b@ {
                assert(a@.len() == b@.len());
            }
        }
        return false;
    }
    let mut i: usize = 0;
    while i < na
        invariant
            i <= na,
            na == a@.len(),
            na == b@.len(),
            forall|j: int| 0 <= j < i ==> a@[j] == b@[j],
        decreases na - i,
    {
        if a.get_char(i) != b.get_char(i) {
            return false;
        }
        i = i + 1;
    }
    proof {
        assert(a@ =~= b@);
    }
    true
}

/// Index of the first occurrence of `c` in `s`, if any.
pub fn find_char(s: &str, c: char) -> (r: Option<usize>)
    ensures
        match r {
            Some(i) => i < s@.len() && s@[i as int] == c && forall|j: int|
                0 <= j < i ==> s@[j] != c,
            None => free_of(s@, c),
        },
{
    let n = s.unicode_len();
    let mut i: usize = 0;
    while i < n
        invariant
            i <= n,
            n == s@.len(),
            forall|j: int| 0 <= j < i ==> s@[j] != c,
        decreases n - i,
    {
        if s.get_char(i) == c {
            return Some(i);
        }
        i = i + 1;
    }
    None
}

/// A sequence splits at the first occurrence of a separator in at most one
/// way: if the parts before the separator are free of it, equal
/// concatenations have equal parts.
pub proof fn lemma_split_unique(c: char, x1: Seq<char>, y1: Seq<char>, x2: Seq<char>, y2: Seq<char>)
    requires
        free_of(x1, c),
        free_of(x2, c),
        x1 + seq![c] + y1 == x2 + seq![c] + y2,
    ensures
        x2 == x1,
        y2 == y1,
{
    let t = x1 + seq![c] + y1;
    assert(t.len() == x1.len() + 1 + y1.len());
    assert(t.len() == x2.len() + 1 + y2.len());
    if x1.len() < x2.len() {
        assert(t[x1.len() as int] == c);
        assert(t[x1.len() as int] == x2[x1.len() as int]);
        assert(false);
    }
    if x2.len() < x1.len() {
        assert(t[x2.len() as int] == c);
        assert(t[x2.len() as int] == x1[x2.len() as int]);
        assert(false);
    }
    assert(x2 =~= x1) by {
        assert(forall|k: int| 0 <= k < x1.len() ==> x1[k] == t[k] && x2[k] == t[k]);
    }
    assert(y2 =~= y1) by {
        assert(forall|k: int|
            0 <= k < y1.len() ==> y1[k] == t[x1.len() + 1 + k] && y2[k] == t[x1.len() + 1 + k]);
    }
}

/// The character of decimal digit `d`; meaningful for 0..=9 only.
pub open spec fn digit_char(d: int) -> char {
    if d == 0 {
        '0'
    } else if d == 1 {
        '1'
    } else if d == 2 {
        '2'
    } else if d == 3 {
        '3'
    } else if d == 4 {
        '4'
    } else if d == 5 {
        '5'
    } else if d == 6 {
        '6'
    } else if d == 7 {
        '7'
    } else if d == 8 {
        '8'
    } else {
        '9'
    }
}

/// The decimal value of a digit character, or -1 for any other character.
pub open spec fn digit_of(c: char) -> int {
    if c == '0' {
        0
    } else if c == '1' {
        1
    } else if c == '2' {
        2
    } else if c == '3' {
        3
    } else if c == '4' {
        4
    } else if c == '5' {
        5
    } else if c == '6' {
        6
    } else if c == '7' {
        7
    } else if c == '8' {
        8
    } else if c == '9' {
        9
    } else {
        -1
    }
}

/// Whether `c` is a decimal digit.
pub open spec fn is_digit(c: char) -> bool {
    digit_of(c) >= 0
}

/// The three-digit decimal text of `n`; meaningful for 100..=999 only.
pub open spec fn status_text(n: int) -> Seq<char> {
    seq![digit_char(n / 100), digit_char((n / 10) % 10), digit_char(n % 10)]
}

/// The status code a three-digit text denotes, if it is one in 100..=999.
pub open spec fn status_of_text(s: Seq<char>) -> Option<u16> {
    if s.len() == 3 && is_digit(s[0]) && is_digit(s[1]) && is_digit(s[2]) && digit_of(s[0]) >= 1 {
        Some((100 * digit_of(s[0]) + 10 * digit_of(s[1]) + digit_of(s[2])) as u16)
    } else {
        None
    }
}

/// A rendered status code reads back as itself.
pub proof fn lemma_status_round_trip(n: int)
    requires
        100 <= n <= 999,
    ensures
        status_of_text(status_text(n)) == Some(n as u16),
{
    assert(forall|d: int| 0 <= d <= 9 ==> digit_of(#[trigger] digit_char(d)) == d);
    assert(1 <= n / 100 <= 9);
    assert(0 <= (n / 10) % 10 <= 9);
    assert(0 <= n % 10 <= 9);
    assert(100 * (n / 100) + 10 * ((n / 10) % 10) + n % 10 == n) by {
        assert(n / 10 == 10 * (n / 100) + (n / 10) % 10);
        assert(n == 10 * (n / 10) + n % 10);
    }
}

/// The single-character string of digit `d`.
fn digit_str(d: u16) -> (r: &'static str)
    requires
        d <= 9,
    ensures
        r@ =~= seq![digit_char(d as int)],
{
    proof {
        reveal_strlit("0");
        reveal_strlit("1");
        reveal_strlit("2");
        reveal_strlit("3");
        reveal_strlit("4");
        reveal_strlit("5");
        reveal_strlit("6");
        reveal_strlit("7");
        reveal_strlit("8");
        reveal_strlit("9");
    }
    match d {
        0 => "0",
        1 => "1",
        2 => "2",
        3 => "3",
        4 => "4",
        5 => "5",
        6 => "6",
        7 => "7",
        8 => "8",
        _ => "9",
    }
}

/// Render a status code as its three decimal digits.
pub fn render_status(n: u16) -> (r: String)
    requires
        100 <= n <= 999,
    ensures
        r@ == status_text(n as int),
{
    let mut r = String::from_str(digit_str(n / 100));
    r.append(digit_str((n / 10) % 10));
    r.append(digit_str(n % 10));
    proof {
        assert(r@ =~= status_text(n as int));
    }
    r
}

/// The decimal value of a digit character, if it is one.
fn digit_exec(c: char) -> (r: Option<u16>)
    ensures
        match r {
            Some(d) => is_digit(c) && d == digit_of(c),
            None => !is_digit(c),
        },
{
    match c {
        '0' => Some(0),
        '1' => Some(1),
        '2' => Some(2),
        '3' => Some(3),
        '4' => Some(4),
        '5' => Some(5),
        '6' => Some(6),
        '7' => Some(7),
        '8' => Some(8),
        '9' => Some(9),
        _ => None,
    }
}

/// Read a three-digit status code in 100..=999; fails on any other text.
pub fn parse_status(s: &str) -> (r: Option<u16>)
    ensures
        r == status_of_text(s@),
{
    let n = s.unicode_len();
    if n != 3 {
        return None;
    }
    let d0 = digit_exec(s.get_char(0));
    let d1 = digit_exec(s.get_char(1));
    let d2 = digit_exec(s.get_char(2));
    match (d0, d1, d2) {
        (Some(a), Some(b), Some(c)) => {
            if a >= 1 {
                Some(100 * a + 10 * b + c)
            } else {
                None
            }
        },
        _ => None,
    }
}

/// Index of the last occurrence of `c` strictly before `end`, if any.
pub fn rfind_char_before(s: &str, c: char, end: usize) -> (r: Option<usize>)
    requires
        end <= s@.len(),
    ensures
        match r {
            Some(i) => i < end && s@[i as int] == c && forall|j: int|
                i < j < end ==> s@[j] != c,
            None => forall|j: int| 0 <= j < end ==> s@[j] != c,
        },
{
    let mut i: usize = end;
    while i > 0
        invariant
            i <= end,
            end <= s@.len(),
            forall|j: int| i <= j < end ==> s@[j] != c,
        decreases i,
    {
        i = i - 1;
        if s.get_char(i) == c {
            return Some(i);
        }
    }
    None
}

} // verus!
