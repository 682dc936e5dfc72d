use vstd::prelude::*;

verus! {

/// A semantic version, the triple of numeric components of
/// `"major.minor.patch"`.
#[derive(Debug, PartialEq, Eq, Structural, Clone, Copy)]
pub struct Version {
    pub major: u64,
    pub minor: u64,
    pub patch: u64,
}

/// A decimal digit, by code point.
pub open spec fn is_digit(c: char) -> bool {
    48 <= c as u32 <= 57
}

/// Numeric value of a decimal digit.
pub open spec fn digit_val(c: char) -> int {
    c as u32 - 48
}

/// Numeric value of a digit sequence read left to right.
pub open spec fn digits_val(s: Seq<char>) -> int
    decreases s.len(),
{
    if s.len() == 0 {
        0
    } else {
        digits_val(s.drop_last()) * 10 + digit_val(s.last())
    }
}

pub open spec fn all_digits(s: Seq<char>) -> bool {
    forall|k: int| 0 <= k < s.len() ==> is_digit(s[k])
}

/// A version component: one to nineteen decimal digits, so that its
/// value always fits in a `u64`.
pub open spec fn valid_component(s: Seq<char>) -> bool {
    0 < s.len() <= 19 && all_digits(s)
}

/// `i` and `j` are the positions of the two dots of a well-formed
/// `"major.minor.patch"` string `s`.
pub open spec fn is_dot_split(s: Seq<char>, i: int, j: int) -> bool {
    &&& 0 <= i < j < s.len()
    &&& s[i] == '.'
    &&& s[j] == '.'
    &&& valid_component(s.subrange(0, i))
    &&& valid_component(s.subrange(i + 1, j))
    &&& valid_component(s.subrange(j + 1, s.len() as int))
}

/// A well-formed version string.
pub open spec fn valid_version(s: Seq<char>) -> bool {
    exists|i: int, j: int| is_dot_split(s, i, j)
}

/// The version a well-formed string denotes.  (Meaningful only when
/// `valid_version(s)`; the dot split is unique, see
/// `lemma_dot_split_unique`.)
pub open spec fn version_of(s: Seq<char>) -> Version {
    let (i, j) = choose|i: int, j: int| is_dot_split(s, i, j);
    Version {
        major: digits_val(s.subrange(0, i)) as u64,
        minor: digits_val(s.subrange(i + 1, j)) as u64,
        patch: digits_val(s.subrange(j + 1, s.len() as int)) as u64,
    }
}

/// Standard semantic-version ordering on the numeric triple.
pub open spec fn version_lt(a: Version, b: Version) -> bool {
    ||| a.major < b.major
    ||| (a.major == b.major && a.minor < b.minor)
    ||| (a.major == b.major && a.minor == b.minor && a.patch < b.patch)
}

pub open spec fn pow10(k: nat) -> int
    decreases k,
{
    if k == 0 {
        1
    } else {
        10 * pow10((k - 1) as nat)
    }
}

pub proof fn lemma_digits_val_bound(s: Seq<char>)
    requires
        all_digits(s),
    ensures
        0 <= digits_val(s) < pow10(s.len()),
    decreases s.len(),
{
    if s.len() > 0 {
        assert(all_digits(s.drop_last())) by {
            assert(forall|k: int| 0 <= k < s.len() - 1 ==> s.drop_last()[k] == s[k]);
        }
        lemma_digits_val_bound(s.drop_last());
    }
}

pub proof fn lemma_pow10_mono(a: nat, b: nat)
    requires
        a <= b,
    ensures
        pow10(a) <= pow10(b),
    decreases b,
{
    if a < b {
        lemma_pow10_mono(a, (b - 1) as nat);
        assert(pow10((b - 1) as nat) >= 1) by {
            lemma_pow10_mono(0, (b - 1) as nat);
        }
    }
}

/// In a well-formed version string the only dots are the two split
/// positions: the three components hold digits alone.
pub proof fn lemma_dots_only_at_split(s: Seq<char>, i: int, j: int, k: int)
    requires
        is_dot_split(s, i, j),
        0 <= k < s.len(),
        s[k] == '.',
    ensures
        k == i || k == j,
{
    if k != i && k != j {
        if k < i {
            assert(s.subrange(0, i)[k] == s[k]);
            assert(is_digit(s[k]));
        } else if k < j {
            assert(s.subrange(i + 1, j)[k - (i + 1)] == s[k]);
            assert(is_digit(s[k]));
        } else {
            assert(s.subrange(j + 1, s.len() as int)[k - (j + 1)] == s[k]);
            assert(is_digit(s[k]));
        }
        assert(!is_digit('.'));
    }
}

/// The dot split of a well-formed version string is unique.
pub proof fn lemma_dot_split_unique(s: Seq<char>, i1: int, j1: int, i2: int, j2: int)
    requires
        is_dot_split(s, i1, j1),
        is_dot_split(s, i2, j2),
    ensures
        i1 == i2,
        j1 == j2,
{
    lemma_dots_only_at_split(s, i1, j1, i2);
    lemma_dots_only_at_split(s, i1, j1, j2);
    lemma_dots_only_at_split(s, i2, j2, i1);
    lemma_dots_only_at_split(s, i2, j2, j1);
}

/// Parses the digit run `s[from..to]`.  Returns its numeric value
/// exactly when the run is a valid component.
fn parse_component(s: &str, from: usize, to: usize) -> (r: Option<u64>)
    requires
        from <= to <= s@.len(),
    ensures
        r is Some <==> valid_component(s@.subrange(from as int, to as int)),
        r is Some ==> r->0 as int == digits_val(s@.subrange(from as int, to as int)),
{
    let ghost whole = s@.subrange(from as int, to as int);
    if to == from || to - from > 19 {
        return None;
    }
    let mut acc: u64 = 0;
    let mut i: usize = from;
    while i < to
        invariant
            from <= i <= to <= s@.len(),
            to - from <= 19,
            all_digits(s@.subrange(from as int, i as int)),
            acc as int == digits_val(s@.subrange(from as int, i as int)),
        decreases to - i,
    {
        let c = s.get_char(i);
        let cv = c as u32;
        if cv < 48 || cv > 57 {
            proof {
                let sub = s@.subrange(from as int, to as int);
                let k = i as int - from as int;
                assert(sub[k] == s@[i as int]);
                assert(!is_digit(sub[k]));
                assert(!valid_component(sub));
            }
            return None;
        }
        let d = cv - 48;
        let ghost prefix = s@.subrange(from as int, i as int);
        let ghost extended = s@.subrange(from as int, (i + 1) as int);
        proof {
            assert(extended.drop_last() =~= prefix);
            assert(extended.last() == s@[i as int]);
            assert(all_digits(extended)) by {
                assert(forall|k: int| 0 <= k < extended.len() - 1 ==> extended[k] == prefix[k]);
            }
            lemma_digits_val_bound(prefix);
            lemma_pow10_mono(prefix.len(), 18);
            assert(pow10(18) == 1000000000000000000) by {
                reveal_with_fuel(pow10, 19);
            }
        }
        acc = acc * 10 + (d as u64);
        i = i + 1;
    }
    proof {
        assert(s@.subrange(from as int, i as int) =~= whole);
    }
    Some(acc)
}

/// Parses a `"major.minor.patch"` version string.  Succeeds on exactly
/// the well-formed strings and then returns the denoted triple.
pub fn parse_version(s: &str) -> (r: Option<Version>)
    ensures
        r is Some <==> valid_version(s@),
        r is Some ==> r->0 == version_of(s@),
{
    let n = s.unicode_len();
    // Scan for the dot positions; `count` saturates at 3.
    let mut count: usize = 0;
    let mut d1: usize = 0;
    let mut d2: usize = 0;
    let mut d3: usize = 0;
    let mut i: usize = 0;
    while i < n
        invariant
            0 <= i <= n == s@.len(),
            count <= 3,
            count == 0 ==> forall|k: int| 0 <= k < i ==> s@[k] != '.',
            count == 1 ==> d1 < i && s@[d1 as int] == '.' && (forall|k: int|
                0 <= k < i && k != d1 ==> s@[k] != '.'),
            count == 2 ==> d1 < d2 < i && s@[d1 as int] == '.' && s@[d2 as int] == '.' && (
            forall|k: int| 0 <= k < i && k != d1 && k != d2 ==> s@[k] != '.'),
            count == 3 ==> d1 < d2 < d3 < i && s@[d1 as int] == '.' && s@[d2 as int] == '.'
                && s@[d3 as int] == '.',
        decreases n - i,
    {
        let c = s.get_char(i);
        if c == '.' && count < 3 {
            if count == 0 {
                d1 = i;
            } else if count == 1 {
                d2 = i;
            } else {
                d3 = i;
            }
            count = count + 1;
        }
        i = i + 1;
    }
    if count != 2 {
        proof {
            if valid_version(s@) {
                let (vi, vj) = choose|i: int, j: int| is_dot_split(s@, i, j);
                assert(is_dot_split(s@, vi, vj));
                if count == 3 {
                    lemma_dots_only_at_split(s@, vi, vj, d1 as int);
                    lemma_dots_only_at_split(s@, vi, vj, d2 as int);
                    lemma_dots_only_at_split(s@, vi, vj, d3 as int);
                }
            }
        }
        return None;
    }
    let major = match parse_component(s, 0, d1) {
        Some(v) => v,
        None => {
            proof {
                if valid_version(s@) {
                    let (vi, vj) = choose|i: int, j: int| is_dot_split(s@, i, j);
                    assert(is_dot_split(s@, vi, vj));
                    lemma_dots_only_at_split(s@, vi, vj, d1 as int);
                    lemma_dots_only_at_split(s@, vi, vj, d2 as int);
                }
            }
            return None;
        },
    };
    let minor = match parse_component(s, d1 + 1, d2) {
        Some(v) => v,
        None => {
            proof {
                if valid_version(s@) {
                    let (vi, vj) = choose|i: int, j: int| is_dot_split(s@, i, j);
                    assert(is_dot_split(s@, vi, vj));
                    lemma_dots_only_at_split(s@, vi, vj, d1 as int);
                    lemma_dots_only_at_split(s@, vi, vj, d2 as int);
                }
            }
            return None;
        },
    };
    let patch = match parse_component(s, d2 + 1, n) {
        Some(v) => v,
        None => {
            proof {
                if valid_version(s@) {
                    let (vi, vj) = choose|i: int, j: int| is_dot_split(s@, i, j);
                    assert(is_dot_split(s@, vi, vj));
                    lemma_dots_only_at_split(s@, vi, vj, d1 as int);
                    lemma_dots_only_at_split(s@, vi, vj, d2 as int);
                }
            }
            return None;
        },
    };
    proof {
        assert(is_dot_split(s@, d1 as int, d2 as int));
        let (ci, cj) = choose|i: int, j: int| is_dot_split(s@, i, j);
        lemma_dot_split_unique(s@, ci, cj, d1 as int, d2 as int);
        lemma_digits_val_bound(s@.subrange(0, d1 as int));
        lemma_digits_val_bound(s@.subrange(d1 + 1, d2 as int));
        lemma_digits_val_bound(s@.subrange(d2 + 1, s@.len() as int));
    }
    Some(Version { major, minor, patch })
}

/// Whether `remote` is strictly newer than `local` in semantic-version
/// order.
pub fn newer_than(remote: &Version, local: &Version) -> (r: bool)
    ensures
        r == version_lt(*local, *remote),
{
    if local.major != remote.major {
        local.major < remote.major
    } else if local.minor != remote.minor {
        local.minor < remote.minor
    } else {
        local.patch < remote.patch
    }
}

} // verus!

