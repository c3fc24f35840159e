use vstd::prelude::*;

verus! {

/// The characters that `char::is_whitespace` accepts (Unicode `White_Space`).
pub open spec fn is_space(c: char) -> bool {
    let u = c as u32;
    (0x09 <= u && u <= 0x0d) || u == 0x20 || u == 0x85 || u == 0xa0 || u == 0x1680 || (0x2000
        <= u && u <= 0x200a) || u == 0x2028 || u == 0x2029 || u == 0x202f || u == 0x205f || u
        == 0x3000
}

/// `s` without its leading white space.
pub open spec fn trim_start(s: Seq<char>) -> Seq<char>
    decreases s.len(),
{
    if s.len() > 0 && is_space(s[0]) {
        trim_start(s.drop_first())
    } else {
        s
    }
}

/// `s` without its trailing white space.
pub open spec fn trim_end(s: Seq<char>) -> Seq<char>
    decreases s.len(),
{
    if s.len() > 0 && is_space(s.last()) {
        trim_end(s.drop_last())
    } else {
        s
    }
}

/// `s` without white space at either end.
pub open spec fn trimmed(s: Seq<char>) -> Seq<char> {
    trim_end(trim_start(s))
}

pub open spec fn is_digit(c: char) -> bool {
    '0' <= c && c <= '9'
}

/// A non-empty run of decimal digits.
pub open spec fn all_digits(d: Seq<char>) -> bool {
    d.len() > 0 && forall|i: int| 0 <= i < d.len() ==> is_digit(#[trigger] d[i])
}

/// The number that the decimal digits `d` write, most significant first.
pub open spec fn digits_value(d: Seq<char>) -> nat
    decreases d.len(),
{
    if d.len() == 0 {
        0
    } else {
        digits_value(d.drop_last()) * 10 + (d.last() as nat - '0' as nat) as nat
    }
}

/// The signed integer that `t` writes: an optional `-`, then decimal digits.
pub open spec fn signed_value(t: Seq<char>) -> Option<int> {
    if t.len() > 0 && t[0] == '-' {
        if all_digits(t.drop_first()) {
            Some(-digits_value(t.drop_first()))
        } else {
            None
        }
    } else if all_digits(t) {
        Some(digits_value(t) as int)
    } else {
        None
    }
}

/// The value of a request's number: a signed integer that fits in 32 bits,
/// with white space around it allowed.
pub open spec fn parse_signed(s: Seq<char>) -> Option<int> {
    match signed_value(trimmed(s)) {
        Some(v) => if i32::MIN <= v <= i32::MAX {
            Some(v)
        } else {
            None
        },
        None => None,
    }
}

/// The value of a device attribute: an unsigned integer that fits in 32 bits,
/// with white space around it allowed.
pub open spec fn parse_unsigned(s: Seq<char>) -> Option<nat> {
    let t = trimmed(s);
    if all_digits(t) && digits_value(t) <= u32::MAX {
        Some(digits_value(t))
    } else {
        None
    }
}

fn is_space_char(c: char) -> (r: bool)
    ensures
        r == is_space(c),
{
    let u = c as u32;
    (0x09 <= u && u <= 0x0d) || u == 0x20 || u == 0x85 || u == 0xa0 || u == 0x1680 || (0x2000
        <= u && u <= 0x200a) || u == 0x2028 || u == 0x2029 || u == 0x202f || u == 0x205f || u
        == 0x3000
}

/// The bounds `(i, j)` of the trimmed part of `s`, counted in characters.
fn trim_bounds(s: &str) -> (r: (usize, usize))
    ensures
        r.0 <= r.1 <= s@.len(),
        trimmed(s@) == s@.subrange(r.0 as int, r.1 as int),
{
    let n = s.unicode_len();
    let mut i: usize = 0;
    assert(s@.subrange(0, n as int) =~= s@);
    while i < n && is_space_char(s.get_char(i))
        invariant
            n == s@.len(),
            i <= n,
            trim_start(s@) == trim_start(s@.subrange(i as int, n as int)),
        decreases n - i,
    {
        assert(s@.subrange(i as int, n as int).drop_first() =~= s@.subrange(i + 1, n as int));
        i = i + 1;
    }
    assert(trim_start(s@.subrange(i as int, n as int)) == s@.subrange(i as int, n as int));
    let mut j: usize = n;
    while j > i && is_space_char(s.get_char(j - 1))
        invariant
            n == s@.len(),
            i <= j <= n,
            trimmed(s@) == trim_end(s@.subrange(i as int, j as int)),
        decreases j - i,
    {
        assert(s@.subrange(i as int, j as int).drop_last() =~= s@.subrange(i as int, j - 1));
        j = j - 1;
    }
    (i, j)
}

/// Reads the digits of `s` between `from` and `to`: `None` unless they are a
/// non-empty run of digits, else their value, or `cap` where that is smaller.
fn digits_capped(s: &str, from: usize, to: usize, cap: u64) -> (r: Option<u64>)
    requires
        from <= to <= s@.len(),
        cap <= u32::MAX as u64 + 1,
    ensures
        r is Some <==> all_digits(s@.subrange(from as int, to as int)),
        r matches Some(v) ==> v == if digits_value(s@.subrange(from as int, to as int)) <= cap {
            digits_value(s@.subrange(from as int, to as int))
        } else {
            cap as nat
        },
{
    if from == to {
        return None;
    }
    let mut acc: u64 = 0;
    let mut k: usize = from;
    while k < to
        invariant
            from <= k <= to <= s@.len(),
            cap <= u32::MAX as u64 + 1,
            forall|m: int| from <= m < k ==> is_digit(#[trigger] s@[m]),
            acc == if digits_value(s@.subrange(from as int, k as int)) <= cap {
                digits_value(s@.subrange(from as int, k as int))
            } else {
                cap as nat
            },
        decreases to - k,
    {
        let c = s.get_char(k);
        if !('0' <= c && c <= '9') {
            assert(!is_digit(s@.subrange(from as int, to as int)[k - from]));
            return None;
        }
        let d: u64 = (c as u32 - '0' as u32) as u64;
        let ghost prev = digits_value(s@.subrange(from as int, k as int));
        assert(s@.subrange(from as int, k + 1).drop_last() =~= s@.subrange(from as int, k as int));
        let ghost next = digits_value(s@.subrange(from as int, k + 1));
        assert(next == prev * 10 + d);
        assert(prev <= prev * 10 + d) by (nonlinear_arith)
            requires
                d >= 0,
        ;
        let t = acc * 10 + d;
        acc = if t <= cap {
            t
        } else {
            cap
        };
        k = k + 1;
    }
    assert(s@.subrange(from as int, to as int) =~= s@.subrange(from as int, k as int));
    Some(acc)
}

/// Reads a signed 32-bit integer, with white space around it allowed.
pub fn parse_signed_text(s: &str) -> (r: Option<i32>)
    ensures
        r matches Some(v) ==> parse_signed(s@) == Some(v as int),
        r is None ==> parse_signed(s@) is None,
{
    let (i, j) = trim_bounds(s);
    let ghost t = s@.subrange(i as int, j as int);
    if i < j && s.get_char(i) == '-' {
        assert(t.drop_first() =~= s@.subrange(i + 1, j as int));
        match digits_capped(s, i + 1, j, 0x8000_0001) {
            Some(v) => if v <= 0x8000_0000 {
                let w: i64 = -(v as i64);
                Some(w as i32)
            } else {
                None
            },
            None => None,
        }
    } else {
        match digits_capped(s, i, j, 0x8000_0000) {
            Some(v) => if v <= 0x7fff_ffff {
                Some(v as i32)
            } else {
                None
            },
            None => None,
        }
    }
}

/// Reads an unsigned 32-bit integer, with white space around it allowed.
pub fn parse_unsigned_text(s: &str) -> (r: Option<u32>)
    ensures
        r matches Some(v) ==> parse_unsigned(s@) == Some(v as nat),
        r is None ==> parse_unsigned(s@) is None,
{
    let (i, j) = trim_bounds(s);
    match digits_capped(s, i, j, 0x1_0000_0000) {
        Some(v) => if v <= 0xffff_ffff {
            Some(v as u32)
        } else {
            None
        },
        None => None,
    }
}

} // verus!
