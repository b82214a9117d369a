//! Text primitives: searching a character and reading decimal numbers.
//!
//! Everything here works on the characters of a string, so the contracts are
//! stated over `Seq<char>`.

use vstd::prelude::*;

verus! {

/// Values at or above this bound are all reported as this bound by
/// [`scan_digits`]; it lies above every integer type read here.
pub const DIGIT_CAP: u64 = 0x1_0000_0000;

/// Whether `c` is one of the ten ASCII decimal digits.
pub open spec fn is_digit(c: char) -> bool {
    '0' <= c && c <= '9'
}

/// The number that the digit `c` stands for.
pub open spec fn digit_value(c: char) -> nat
    recommends
        is_digit(c),
{
    ((c as int) - ('0' as int)) as nat
}

/// Whether every character of `s` is a decimal digit.
pub open spec fn all_digits(s: Seq<char>) -> bool {
    forall|i: int| 0 <= i < s.len() ==> is_digit(#[trigger] s[i])
}

/// The number written by the digits `s`, most significant first.
pub open spec fn digits_value(s: Seq<char>) -> nat
    recommends
        all_digits(s),
    decreases s.len(),
{
    if s.len() == 0 {
        0
    } else {
        10 * digits_value(s.drop_last()) + digit_value(s.last())
    }
}

/// The number denoted by `s` when it is an optional `+` followed by at least
/// one decimal digit, and `None` for any other text.
pub open spec fn unsigned_value(s: Seq<char>) -> Option<nat> {
    let body = if s.len() > 0 && s[0] == '+' {
        s.skip(1)
    } else {
        s
    };
    if body.len() > 0 && all_digits(body) {
        Some(digits_value(body))
    } else {
        None
    }
}

/// The number denoted by `s` when it is an optional sign, `+` or `-`,
/// followed by at least one decimal digit, and `None` for any other text.
pub open spec fn signed_value(s: Seq<char>) -> Option<int> {
    if s.len() > 0 && s[0] == '-' {
        let body = s.skip(1);
        if body.len() > 0 && all_digits(body) {
            Some(-(digits_value(body) as int))
        } else {
            None
        }
    } else {
        match unsigned_value(s) {
            Some(v) => Some(v as int),
            None => None,
        }
    }
}

/// The 16-bit port that `s` denotes, if it denotes one.
pub open spec fn u16_of_text(s: Seq<char>) -> Option<u16> {
    match unsigned_value(s) {
        Some(v) => if v <= u16::MAX {
            Some(v as u16)
        } else {
            None
        },
        None => None,
    }
}

/// The 32-bit signed number that `s` denotes, if it denotes one.
pub open spec fn i32_of_text(s: Seq<char>) -> Option<i32> {
    match signed_value(s) {
        Some(v) => if i32::MIN <= v <= i32::MAX {
            Some(v as i32)
        } else {
            None
        },
        None => None,
    }
}

/// The index of the last `c` in `s`, or -1 where `s` holds none.
pub open spec fn last_index(s: Seq<char>, c: char) -> int
    decreases s.len(),
{
    if s.len() == 0 {
        -1
    } else if s.last() == c {
        s.len() - 1
    } else {
        last_index(s.drop_last(), c)
    }
}

/// The index of the first `c` in `s`, or -1 where `s` holds none.
pub open spec fn first_index(s: Seq<char>, c: char) -> int
    decreases s.len(),
{
    if s.len() == 0 {
        -1
    } else if s.first() == c {
        0
    } else {
        let rest = first_index(s.drop_first(), c);
        if rest < 0 {
            -1
        } else {
            rest + 1
        }
    }
}

/// `last_index` is the largest index that holds `c`.
pub proof fn lemma_last_index(s: Seq<char>, c: char)
    ensures
        -1 <= last_index(s, c) < s.len(),
        last_index(s, c) >= 0 ==> s[last_index(s, c)] == c,
        forall|j: int| last_index(s, c) < j < s.len() ==> s[j] != c,
    decreases s.len(),
{
    if s.len() > 0 && s.last() != c {
        let head = s.drop_last();
        lemma_last_index(head, c);
        assert forall|j: int| last_index(s, c) < j < s.len() implies s[j] != c by {
            if j < head.len() {
                assert(s[j] == head[j]);
            }
        }
    }
}

/// `first_index` is the smallest index that holds `c`.
pub proof fn lemma_first_index(s: Seq<char>, c: char)
    ensures
        -1 <= first_index(s, c) < s.len(),
        first_index(s, c) >= 0 ==> s[first_index(s, c)] == c,
        first_index(s, c) >= 0 ==> forall|j: int| 0 <= j < first_index(s, c) ==> s[j] != c,
        first_index(s, c) < 0 ==> forall|j: int| 0 <= j < s.len() ==> s[j] != c,
    decreases s.len(),
{
    if s.len() > 0 && s.first() != c {
        let rest = s.drop_first();
        lemma_first_index(rest, c);
        assert forall|j: int| 0 < j < s.len() implies s[j] == rest[j - 1] by {}
        if first_index(rest, c) >= 0 {
            assert forall|j: int| 0 <= j < first_index(s, c) implies s[j] != c by {
                if j > 0 {
                    assert(s[j] == rest[j - 1]);
                }
            }
        } else {
            assert forall|j: int| 0 <= j < s.len() implies s[j] != c by {
                if j > 0 {
                    assert(s[j] == rest[j - 1]);
                }
            }
        }
    }
}

/// A longer run of digits never denotes a smaller number than its prefix.
pub proof fn lemma_digits_value_step(s: Seq<char>)
    requires
        s.len() > 0,
        is_digit(s.last()),
    ensures
        digits_value(s) == 10 * digits_value(s.drop_last()) + digit_value(s.last()),
        digits_value(s) >= digits_value(s.drop_last()),
        digit_value(s.last()) <= 9,
{
}

/// The digit that `c` stands for, if it is a decimal digit.
pub fn digit_of(c: char) -> (d: Option<u8>)
    ensures
        d is Some <==> is_digit(c),
        d matches Some(v) ==> v == digit_value(c) && v <= 9,
{
    if c >= '0' && c <= '9' {
        Some((c as u32 - '0' as u32) as u8)
    } else {
        None
    }
}

/// Reads the characters of `s` from index `from` to the end as decimal digits.
///
/// Returns `None` unless there is at least one character there and all of
/// them are digits; otherwise the number they denote, or [`DIGIT_CAP`] where
/// that number is larger.
pub fn scan_digits(s: &str, from: usize) -> (r: Option<u64>)
    ensures
        r is Some <==> (from < s@.len() && all_digits(s@.skip(from as int))),
        r matches Some(v) ==> v == if digits_value(s@.skip(from as int)) < DIGIT_CAP {
            digits_value(s@.skip(from as int))
        } else {
            DIGIT_CAP as nat
        },
{
    let n = s.unicode_len();
    if from >= n {
        return None;
    }
    let mut acc: u64 = 0;
    let mut i: usize = from;
    while i < n
        invariant
            n == s@.len(),
            from <= i <= n,
            all_digits(s@.subrange(from as int, i as int)),
            acc <= DIGIT_CAP,
            acc == if digits_value(s@.subrange(from as int, i as int)) < DIGIT_CAP {
                digits_value(s@.subrange(from as int, i as int))
            } else {
                DIGIT_CAP as nat
            },
        decreases n - i,
    {
        let c = s.get_char(i);
        let ghost before = s@.subrange(from as int, i as int);
        let ghost after = s@.subrange(from as int, i as int + 1);
        proof {
            assert(after.drop_last() =~= before);
            assert(after.last() == c);
        }
        match digit_of(c) {
            None => {
                proof {
                    let tail = s@.skip(from as int);
                    assert(tail[i as int - from as int] == c);
                }
                return None;
            },
            Some(d) => {
                proof {
                    lemma_digits_value_step(after);
                    assert forall|j: int| 0 <= j < after.len() implies is_digit(
                        #[trigger] after[j],
                    ) by {
                        if j < before.len() {
                            assert(after[j] == before[j]);
                        }
                    }
                }
                let next: u64 = acc * 10 + d as u64;
                acc = if next < DIGIT_CAP {
                    next
                } else {
                    DIGIT_CAP
                };
                i += 1;
            },
        }
    }
    proof {
        assert(s@.subrange(from as int, n as int) =~= s@.skip(from as int));
    }
    Some(acc)
}

/// Reads `s` as a 16-bit unsigned decimal number: an optional `+`, then
/// digits only, with a value of at most 65535.
pub fn parse_u16(s: &str) -> (r: Option<u16>)
    ensures
        r == u16_of_text(s@),
{
    let n = s.unicode_len();
    let from: usize = if n > 0 && s.get_char(0) == '+' {
        1
    } else {
        0
    };
    proof {
        if from == 0 {
            assert(s@.skip(0) =~= s@);
        }
    }
    match scan_digits(s, from) {
        Some(v) => if v <= 0xffff {
            Some(v as u16)
        } else {
            None
        },
        None => None,
    }
}

/// Reads `s` as a 32-bit signed decimal number: an optional `+` or `-`, then
/// digits only, with a value that fits the type.
pub fn parse_i32(s: &str) -> (r: Option<i32>)
    ensures
        r == i32_of_text(s@),
{
    let n = s.unicode_len();
    if n > 0 && s.get_char(0) == '-' {
        match scan_digits(s, 1) {
            Some(v) => if v <= 0x8000_0000 {
                Some((0 - v as i64) as i32)
            } else {
                None
            },
            None => None,
        }
    } else {
        let from: usize = if n > 0 && s.get_char(0) == '+' {
            1
        } else {
            0
        };
        proof {
            if from == 0 {
                assert(s@.skip(0) =~= s@);
            }
        }
        match scan_digits(s, from) {
            Some(v) => if v <= 0x7fff_ffff {
                Some(v as i32)
            } else {
                None
            },
            None => None,
        }
    }
}

/// Finds the last `c` among the characters of `s`.
pub fn rfind_char(s: &str, c: char) -> (r: Option<usize>)
    ensures
        r is None <==> last_index(s@, c) < 0,
        r matches Some(i) ==> i == last_index(s@, c),
{
    let n = s.unicode_len();
    let mut i: usize = n;
    proof {
        assert(s@.take(n as int) =~= s@);
    }
    while i > 0
        invariant
            n == s@.len(),
            i <= n,
            last_index(s@, c) == last_index(s@.take(i as int), c),
        decreases i,
    {
        let ghost head = s@.take(i as int);
        proof {
            assert(head.drop_last() =~= s@.take(i as int - 1));
            assert(head.last() == s@[i as int - 1]);
        }
        if s.get_char(i - 1) == c {
            return Some(i - 1);
        }
        i -= 1;
    }
    None
}

/// Finds the first `c` among the characters of `s`.
pub fn find_char(s: &str, c: char) -> (r: Option<usize>)
    ensures
        r is None <==> first_index(s@, c) < 0,
        r matches Some(i) ==> i == first_index(s@, c),
{
    let n = s.unicode_len();
    let mut i: usize = 0;
    while i < n
        invariant
            n == s@.len(),
            i <= n,
            forall|j: int| 0 <= j < i ==> s@[j] != c,
        decreases n - i,
    {
        if s.get_char(i) == c {
            proof {
                lemma_first_index(s@, c);
            }
            return Some(i);
        }
        i += 1;
    }
    proof {
        lemma_first_index(s@, c);
    }
    None
}

/// Whether `a` and `b` hold the same characters.
pub fn str_eq(a: &str, b: &str) -> (same: bool)
    ensures
        same == (a@ == b@),
{
    let n = a.unicode_len();
    if n != b.unicode_len() {
        return false;
    }
    let mut i: usize = 0;
    while i < n
        invariant
            n == a@.len(),
            n == b@.len(),
            i <= n,
            forall|j: int| 0 <= j < i ==> a@[j] == b@[j],
        decreases n - i,
    {
        if a.get_char(i) != b.get_char(i) {
            return false;
        }
        i += 1;
    }
    proof {
        assert(a@ =~= b@);
    }
    true
}

/// The index of the first entry of `names` that is the name `name`, or the
/// length of `names` where none is. An entry without name is never it.
pub open spec fn first_named(names: Seq<Option<Seq<char>>>, name: Seq<char>) -> int
    decreases names.len(),
{
    if names.len() == 0 {
        0
    } else if names.first() == Some(name) {
        0
    } else {
        1 + first_named(names.drop_first(), name)
    }
}

/// `first_named` is the smallest index of an entry that is the name.
pub proof fn lemma_first_named(names: Seq<Option<Seq<char>>>, name: Seq<char>)
    ensures
        0 <= first_named(names, name) <= names.len(),
        first_named(names, name) < names.len() ==> names[first_named(names, name)] == Some(name),
        forall|j: int| 0 <= j < first_named(names, name) ==> #[trigger] names[j] != Some(name),
    decreases names.len(),
{
    if names.len() > 0 && names.first() != Some(name) {
        let rest = names.drop_first();
        lemma_first_named(rest, name);
        assert forall|j: int| 0 <= j < first_named(names, name) implies #[trigger] names[j]
            != Some(name) by {
            if j > 0 {
                assert(names[j] == rest[j - 1]);
            }
        }
    }
}

/// An index is `first_named` if it is the smallest one of an entry that is
/// the name, or the length where there is no such entry.
pub proof fn lemma_first_named_is(names: Seq<Option<Seq<char>>>, name: Seq<char>, i: int)
    requires
        0 <= i <= names.len(),
        i < names.len() ==> names[i] == Some(name),
        forall|j: int| 0 <= j < i ==> #[trigger] names[j] != Some(name),
    ensures
        first_named(names, name) == i,
{
    lemma_first_named(names, name);
    let k = first_named(names, name);
    if k < i {
        assert(names[k] != Some(name));
    }
}

} // verus!
