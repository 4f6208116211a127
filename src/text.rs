use vstd::prelude::*;

verus! {

/// Position of the first `c` in `s`, or the length of `s` when `c` does not occur.
pub open spec fn first_index(s: Seq<char>, c: char) -> nat
    decreases s.len(),
{
    if s.len() == 0 {
        0
    } else if s[0] == c {
        0
    } else {
        1 + first_index(s.drop_first(), c)
    }
}

/// The part of `s` before the first `c` (all of `s` when `c` does not occur).
pub open spec fn before(s: Seq<char>, c: char) -> Seq<char> {
    s.subrange(0, first_index(s, c) as int)
}

/// The part of `s` after the first `c` (empty when `c` does not occur).
pub open spec fn after(s: Seq<char>, c: char) -> Seq<char> {
    if first_index(s, c) < s.len() {
        s.subrange(first_index(s, c) as int + 1, s.len() as int)
    } else {
        Seq::empty()
    }
}

pub proof fn lemma_first_index(s: Seq<char>, c: char, i: int)
    requires
        0 <= i <= s.len(),
        forall|j: int| 0 <= j < i ==> s[j] != c,
        i < s.len() ==> s[i] == c,
    ensures
        first_index(s, c) == i,
    decreases s.len(),
{
    if s.len() > 0 && s[0] != c {
        assert(i > 0);
        assert forall|j: int| 0 <= j < i - 1 implies s.drop_first()[j] != c by {
            assert(s.drop_first()[j] == s[j + 1]);
        }
        lemma_first_index(s.drop_first(), c, i - 1);
    }
}

/// Finds the first `c` in `s`; returns the length of `s` when there is none.
pub fn find_char(s: &str, c: char) -> (i: usize)
    ensures
        i == first_index(s@, c),
        i <= s@.len(),
{
    let n = s.unicode_len();
    let mut i: usize = 0;
    while i < n
        invariant
            n == s@.len(),
            i <= n,
            forall|j: int| 0 <= j < i ==> s@[j] != c,
        decreases n - i,
    {
        if s.get_char(i) == c {
            proof {
                lemma_first_index(s@, c, i as int);
            }
            return i;
        }
        i = i + 1;
    }
    proof {
        lemma_first_index(s@, c, i as int);
    }
    i
}

/// Whether `s` starts with `p`.
pub fn starts_with(s: &str, p: &str) -> (r: bool)
    ensures
        r == p@.is_prefix_of(s@),
{
    let n = s.unicode_len();
    let m = p.unicode_len();
    if m > n {
        return false;
    }
    let mut i: usize = 0;
    while i < m
        invariant
            n == s@.len(),
            m == p@.len(),
            m <= n,
            i <= m,
            forall|j: int| 0 <= j < i ==> s@[j] == p@[j],
        decreases m - i,
    {
        if s.get_char(i) != p.get_char(i) {
            assert(s@.subrange(0, m as int)[i as int] != p@[i as int]);
            return false;
        }
        i = i + 1;
    }
    assert(p@ =~= s@.subrange(0, m as int));
    true
}

/// Whether `a` and `b` hold the same characters.
pub fn same_text(a: &str, b: &str) -> (r: bool)
    ensures
        r == (a@ == b@),
{
    if a.unicode_len() != b.unicode_len() {
        return false;
    }
    let r = starts_with(a, b);
    proof {
        if r {
            assert(a@ =~= b@);
        }
    }
    r
}

/// Decimal digits of `n`, most significant first, without leading zeros.
pub open spec fn decimal(n: nat) -> Seq<char>
    decreases n,
{
    if n < 10 {
        seq![digit_char(n)]
    } else {
        decimal(n / 10).push(digit_char(n % 10))
    }
}

pub open spec fn digit_char(d: nat) -> char {
    if d == 0 {
        '0'
    } else if d == 1 {
        '1'
    } else if d == 2 {
        '2'
    } else if d == 3 {
        '3'
    } else if d == 4 {
        '4'
    } else if d == 5 {
        '5'
    } else if d == 6 {
        '6'
    } else if d == 7 {
        '7'
    } else if d == 8 {
        '8'
    } else {
        '9'
    }
}

/// Relies on `u64`'s `Display` (through `to_string`): an unsigned integer is written
/// in decimal, with no sign and no leading zeros.
#[verifier::external_body]
pub(crate) fn u64_to_decimal(n: u64) -> (r: String)
    ensures
        r@ == decimal(n as nat),
{
    n.to_string()
}

} // verus!
