//! Byte-sequence vocabulary shared by the digesters: substring search,
//! trimming with a set of whitespace bytes, decimal digit runs and line
//! endings, each as a spec function with an executable counterpart.
use vstd::prelude::*;

verus! {

/// `\r\n`
pub open spec fn crlf() -> Seq<u8> {
    seq![13u8, 10u8]
}

/// The bytes for which `u8::is_ascii_whitespace` holds: tab, line feed,
/// form feed, carriage return and space.
pub open spec fn ascii_whitespace() -> Seq<u8> {
    seq![9u8, 10u8, 12u8, 13u8, 32u8]
}

/// The bytes skipped by a "multispace": space, tab, carriage return, line feed.
pub open spec fn multispace() -> Seq<u8> {
    seq![32u8, 9u8, 13u8, 10u8]
}

/// Index of the first occurrence of `t` in `s` that starts at or after `i`.
pub open spec fn index_of_from(s: Seq<u8>, t: Seq<u8>, i: nat) -> Option<nat>
    decreases s.len() + 1 - i,
{
    if i + t.len() > s.len() {
        None
    } else if s.subrange(i as int, (i + t.len()) as int) == t {
        Some(i)
    } else {
        index_of_from(s, t, i + 1)
    }
}

/// Index of the first occurrence of `t` in `s`.
pub open spec fn index_of(s: Seq<u8>, t: Seq<u8>) -> Option<nat> {
    index_of_from(s, t, 0)
}

/// `t` occurs in `s` at index `i`.
pub open spec fn occurs_at(s: Seq<u8>, t: Seq<u8>, i: int) -> bool {
    0 <= i && i + t.len() <= s.len() && s.subrange(i, i + t.len()) == t
}

/// Drops the leading bytes that belong to `set`.
pub open spec fn trim_start(s: Seq<u8>, set: Seq<u8>) -> Seq<u8>
    decreases s.len(),
{
    if s.len() > 0 && set.contains(s[0]) {
        trim_start(s.drop_first(), set)
    } else {
        s
    }
}

/// Drops the trailing bytes that belong to `set`.
pub open spec fn trim_end(s: Seq<u8>, set: Seq<u8>) -> Seq<u8>
    decreases s.len(),
{
    if s.len() > 0 && set.contains(s.last()) {
        trim_end(s.drop_last(), set)
    } else {
        s
    }
}

/// Drops leading and trailing bytes that belong to `set`.
pub open spec fn trim(s: Seq<u8>, set: Seq<u8>) -> Seq<u8> {
    trim_end(trim_start(s, set), set)
}

/// Number of leading bytes of `s` that belong to `set`.
pub open spec fn lead_len(s: Seq<u8>, set: Seq<u8>) -> nat {
    (s.len() - trim_start(s, set).len()) as nat
}

pub open spec fn is_digit(b: u8) -> bool {
    48 <= b <= 57
}

/// Length of the run of ASCII digits at the start of `s`.
pub open spec fn digit_run(s: Seq<u8>) -> nat
    decreases s.len(),
{
    if s.len() > 0 && is_digit(s[0]) {
        1 + digit_run(s.drop_first())
    } else {
        0
    }
}

/// Decimal value of a sequence of ASCII digits.
pub open spec fn digits_value(d: Seq<u8>) -> nat
    decreases d.len(),
{
    if d.len() == 0 {
        0
    } else {
        digits_value(d.drop_last()) * 10 + (d.last() - 48) as nat
    }
}

/// Length of the line ending (`\n` or `\r\n`) at the start of `s`, if any.
pub open spec fn line_ending_len(s: Seq<u8>) -> Option<nat> {
    if s.len() >= 1 && s[0] == 10 {
        Some(1)
    } else if s.len() >= 2 && s[0] == 13 && s[1] == 10 {
        Some(2)
    } else {
        None
    }
}

pub proof fn lemma_index_of_from_found(s: Seq<u8>, t: Seq<u8>, i: nat)
    ensures
        index_of_from(s, t, i) matches Some(k) ==> {
            &&& i <= k
            &&& occurs_at(s, t, k as int)
            &&& forall|j: int| i <= j < k ==> !occurs_at(s, t, j)
        },
        index_of_from(s, t, i) is None ==> forall|j: int| i <= j ==> !occurs_at(s, t, j),
    decreases s.len() + 1 - i,
{
    if i + t.len() > s.len() {
    } else if s.subrange(i as int, (i + t.len()) as int) == t {
    } else {
        lemma_index_of_from_found(s, t, i + 1);
    }
}

/// `index_of` finds the first occurrence, and only finds nothing when there is none.
pub proof fn lemma_index_of(s: Seq<u8>, t: Seq<u8>)
    ensures
        index_of(s, t) matches Some(k) ==> occurs_at(s, t, k as int) && forall|j: int|
            0 <= j < k ==> !occurs_at(s, t, j),
        index_of(s, t) is None ==> forall|j: int| 0 <= j ==> !occurs_at(s, t, j),
{
    lemma_index_of_from_found(s, t, 0);
}

/// Compares the window of `s` at `i` with `t`.
pub fn eq_at(s: &[u8], i: usize, t: &[u8]) -> (r: bool)
    requires
        i + t@.len() <= s@.len(),
    ensures
        r == (s@.subrange(i as int, i + t@.len()) == t@),
{
    let n = s.len();
    let mut j: usize = 0;
    while j < t.len()
        invariant
            n == s@.len(),
            j <= t@.len(),
            i + t@.len() <= s@.len(),
            forall|k: int| 0 <= k < j ==> s@[i + k] == t@[k],
        decreases t@.len() - j,
    {
        if s[i + j] != t[j] {
            assert(s@.subrange(i as int, i + t@.len())[j as int] != t@[j as int]);
            return false;
        }
        j += 1;
    }
    assert(s@.subrange(i as int, i + t@.len()) =~= t@);
    true
}

/// Index of the first occurrence of `t` in `s`.
pub fn find(s: &[u8], t: &[u8]) -> (r: Option<usize>)
    ensures
        match r {
            Some(k) => index_of(s@, t@) == Some(k as nat),
            None => index_of(s@, t@) is None,
        },
{
    if t.len() > s.len() {
        return None;
    }
    let last = s.len() - t.len();
    let mut i: usize = 0;
    loop
        invariant
            last + t@.len() == s@.len(),
            i <= last,
            index_of(s@, t@) == index_of_from(s@, t@, i as nat),
        decreases last - i,
    {
        if eq_at(s, i, t) {
            return Some(i);
        }
        if i == last {
            assert(index_of_from(s@, t@, (i + 1) as nat) is None);
            return None;
        }
        i += 1;
    }
}

/// `b` is one of the bytes of `set`.
pub fn contains_byte(set: &[u8], b: u8) -> (r: bool)
    ensures
        r == set@.contains(b),
{
    let mut j: usize = 0;
    while j < set.len()
        invariant
            j <= set@.len(),
            forall|k: int| 0 <= k < j ==> set@[k] != b,
        decreases set@.len() - j,
    {
        if set[j] == b {
            assert(set@[j as int] == b);
            return true;
        }
        j += 1;
    }
    false
}

pub proof fn lemma_trim_start_step(s: Seq<u8>, set: Seq<u8>, i: int)
    requires
        0 <= i < s.len(),
    ensures
        set.contains(s[i]) ==> trim_start(s.subrange(i, s.len() as int), set) == trim_start(
            s.subrange(i + 1, s.len() as int),
            set,
        ),
        !set.contains(s[i]) ==> trim_start(s.subrange(i, s.len() as int), set) == s.subrange(
            i,
            s.len() as int,
        ),
{
    assert(s.subrange(i, s.len() as int).drop_first() =~= s.subrange(i + 1, s.len() as int));
}

pub proof fn lemma_trim_end_step(s: Seq<u8>, set: Seq<u8>, a: int, e: int)
    requires
        0 <= a < e <= s.len(),
    ensures
        set.contains(s[e - 1]) ==> trim_end(s.subrange(a, e), set) == trim_end(
            s.subrange(a, e - 1),
            set,
        ),
        !set.contains(s[e - 1]) ==> trim_end(s.subrange(a, e), set) == s.subrange(a, e),
{
    assert(s.subrange(a, e).drop_last() =~= s.subrange(a, e - 1));
}

/// Trimming the start never lengthens a sequence.
pub proof fn lemma_trim_start_len(s: Seq<u8>, set: Seq<u8>)
    ensures
        trim_start(s, set).len() <= s.len(),
    decreases s.len(),
{
    if s.len() > 0 {
        lemma_trim_start_len(s.drop_first(), set);
    }
}

/// Trimming the end never lengthens a sequence.
pub proof fn lemma_trim_end_len(s: Seq<u8>, set: Seq<u8>)
    ensures
        trim_end(s, set).len() <= s.len(),
    decreases s.len(),
{
    if s.len() > 0 {
        lemma_trim_end_len(s.drop_last(), set);
    }
}

/// Trimming never lengthens a sequence.
pub proof fn lemma_trim_len(s: Seq<u8>, set: Seq<u8>)
    ensures
        trim(s, set).len() <= s.len(),
{
    lemma_trim_start_len(s, set);
    lemma_trim_end_len(trim_start(s, set), set);
}

/// Number of leading bytes of `s` that belong to `set`.
pub fn leading_len(s: &[u8], set: &[u8]) -> (n: usize)
    ensures
        n <= s@.len(),
        s@.subrange(n as int, s@.len() as int) == trim_start(s@, set@),
        n == lead_len(s@, set@),
        forall|k: int| 0 <= k < n ==> set@.contains(#[trigger] s@[k]),
        n < s@.len() ==> !set@.contains(s@[n as int]),
{
    let mut i: usize = 0;
    assert(s@.subrange(0, s@.len() as int) =~= s@);
    while i < s.len() && contains_byte(set, s[i])
        invariant
            i <= s@.len(),
            trim_start(s@.subrange(i as int, s@.len() as int), set@) == trim_start(s@, set@),
            forall|k: int| 0 <= k < i ==> set@.contains(#[trigger] s@[k]),
        decreases s@.len() - i,
    {
        proof {
            lemma_trim_start_step(s@, set@, i as int);
        }
        i += 1;
    }
    proof {
        if i < s@.len() {
            lemma_trim_start_step(s@, set@, i as int);
        } else {
            assert(s@.subrange(i as int, s@.len() as int).len() == 0);
        }
    }
    i
}

/// Strips leading and trailing bytes that belong to `set`.
pub fn trim_set<'a>(s: &'a [u8], set: &[u8]) -> (r: &'a [u8])
    ensures
        r@ == trim(s@, set@),
{
    let a = leading_len(s, set);
    if a == s.len() {
        assert(trim_start(s@, set@).len() == 0);
        assert(trim(s@, set@) =~= Seq::<u8>::empty());
        return &s[a..a];
    }
    let mut e: usize = s.len();
    assert(s@.subrange(a as int, e as int) =~= trim_start(s@, set@));
    while contains_byte(set, s[e - 1])
        invariant
            a < e <= s@.len(),
            !set@.contains(s@[a as int]),
            trim_end(s@.subrange(a as int, e as int), set@) == trim(s@, set@),
        decreases e,
    {
        proof {
            lemma_trim_end_step(s@, set@, a as int, e as int);
        }
        e -= 1;
    }
    proof {
        lemma_trim_end_step(s@, set@, a as int, e as int);
    }
    &s[a..e]
}

/// Strips leading and trailing ASCII whitespace.
pub fn trim_ascii_whitespace(x: &[u8]) -> (r: &[u8])
    ensures
        r@ == trim(x@, ascii_whitespace()),
{
    let ws = [9u8, 10u8, 12u8, 13u8, 32u8];
    assert(ws@ =~= ascii_whitespace());
    trim_set(x, &ws)
}

/// Number of bytes skipped by a "multispace" at the start of `s`.
pub fn multispace_len(s: &[u8]) -> (n: usize)
    ensures
        n == lead_len(s@, multispace()),
        n <= s@.len(),
        s@.subrange(n as int, s@.len() as int) == trim_start(s@, multispace()),
{
    let ms = [32u8, 9u8, 13u8, 10u8];
    assert(ms@ =~= multispace());
    leading_len(s, &ms)
}

pub proof fn lemma_digit_run_step(s: Seq<u8>, i: int)
    requires
        0 <= i < s.len(),
    ensures
        is_digit(s[i]) ==> digit_run(s.subrange(i, s.len() as int)) == 1 + digit_run(
            s.subrange(i + 1, s.len() as int),
        ),
        !is_digit(s[i]) ==> digit_run(s.subrange(i, s.len() as int)) == 0,
{
    assert(s.subrange(i, s.len() as int).drop_first() =~= s.subrange(i + 1, s.len() as int));
}

pub proof fn lemma_digit_run(s: Seq<u8>)
    ensures
        digit_run(s) <= s.len(),
        forall|k: int| 0 <= k < digit_run(s) ==> is_digit(#[trigger] s[k]),
        digit_run(s) < s.len() ==> !is_digit(s[digit_run(s) as int]),
    decreases s.len(),
{
    if s.len() > 0 && is_digit(s[0]) {
        lemma_digit_run(s.drop_first());
        assert forall|k: int| 0 <= k < digit_run(s) implies is_digit(#[trigger] s[k]) by {
            if k > 0 {
                assert(s[k] == s.drop_first()[k - 1]);
            }
        }
    }
}

/// Length of the run of ASCII digits at the start of `s`.
pub fn digit_run_len(s: &[u8]) -> (n: usize)
    ensures
        n == digit_run(s@),
{
    let mut i: usize = 0;
    assert(s@.subrange(0, s@.len() as int) =~= s@);
    while i < s.len() && 48 <= s[i] && s[i] <= 57
        invariant
            i <= s@.len(),
            digit_run(s@) == i + digit_run(s@.subrange(i as int, s@.len() as int)),
        decreases s@.len() - i,
    {
        proof {
            lemma_digit_run_step(s@, i as int);
        }
        i += 1;
    }
    proof {
        if i < s@.len() {
            lemma_digit_run_step(s@, i as int);
        } else {
            assert(s@.subrange(i as int, s@.len() as int).len() == 0);
        }
    }
    i
}

pub proof fn lemma_digits_value_prefix_monotone(d: Seq<u8>, k: int)
    requires
        0 <= k <= d.len(),
    ensures
        digits_value(d.take(k)) <= digits_value(d),
    decreases d.len(),
{
    if k < d.len() {
        lemma_digits_value_prefix_monotone(d.drop_last(), k);
        assert(d.drop_last().take(k) =~= d.take(k));
    } else {
        assert(d.take(k) =~= d);
    }
}

/// Parses a non-empty run of ASCII digits as a `u16`, failing on overflow,
/// as `u16::from_str` does for such input.
pub fn parse_u16_digits(d: &[u8]) -> (r: Option<u16>)
    requires
        d@.len() >= 1,
        forall|k: int| 0 <= k < d@.len() ==> is_digit(#[trigger] d@[k]),
    ensures
        r == (if digits_value(d@) <= 65535 {
            Some(digits_value(d@) as u16)
        } else {
            None::<u16>
        }),
{
    let mut acc: u32 = 0;
    let mut i: usize = 0;
    assert(d@.take(0) =~= Seq::<u8>::empty());
    while i < d.len()
        invariant
            i <= d@.len(),
            acc <= 65535,
            acc == digits_value(d@.take(i as int)),
            forall|k: int| 0 <= k < d@.len() ==> is_digit(#[trigger] d@[k]),
        decreases d@.len() - i,
    {
        assert(d@.take(i + 1).drop_last() =~= d@.take(i as int));
        let digit = (d[i] - 48) as u32;
        let next = acc * 10 + digit;
        i += 1;
        if next > 65535 {
            proof {
                lemma_digits_value_prefix_monotone(d@, i as int);
            }
            return None;
        }
        acc = next;
    }
    assert(d@.take(i as int) =~= d@);
    Some(acc as u16)
}

/// Length of the line ending at the start of `s`, if any.
pub fn line_ending(s: &[u8]) -> (r: Option<usize>)
    ensures
        match r {
            Some(n) => line_ending_len(s@) == Some(n as nat),
            None => line_ending_len(s@) is None,
        },
{
    if s.len() >= 1 && s[0] == 10 {
        Some(1)
    } else if s.len() >= 2 && s[0] == 13 && s[1] == 10 {
        Some(2)
    } else {
        None
    }
}

} // verus!
