use vstd::prelude::*;
use crate::error::QueryError;

verus! {

pub open spec fn is_digit(b: u8) -> bool {
    48 <= b && b <= 57
}

pub open spec fn all_digits(s: Seq<u8>) -> bool {
    forall|i: int| 0 <= i < s.len() ==> is_digit(#[trigger] s[i])
}

/// The value of a string of decimal digits.
pub open spec fn digits_value(s: Seq<u8>) -> int
    decreases s.len(),
{
    if s.len() == 0 {
        0
    } else {
        10 * digits_value(s.drop_last()) + (s.last() - 48)
    }
}

/// An integer in the form that Rust's `parse` reads: an optional sign, then one or more
/// digits, nothing else.
pub open spec fn signed_value(s: Seq<u8>) -> Option<int> {
    if s.len() > 0 && all_digits(s) {
        Some(digits_value(s))
    } else if s.len() > 1 && s[0] == 43 && all_digits(s.drop_first()) {
        Some(digits_value(s.drop_first()))
    } else if s.len() > 1 && s[0] == 45 && all_digits(s.drop_first()) {
        Some(-digits_value(s.drop_first()))
    } else {
        None
    }
}

/// What `str::parse::<isize>` accepts, and its value.
pub open spec fn isize_value(s: Seq<u8>) -> Option<int> {
    match signed_value(s) {
        Some(v) => if isize::MIN <= v && v <= isize::MAX {
            Some(v)
        } else {
            None
        },
        None => None,
    }
}

/// What `str::parse::<usize>` accepts, and its value: no minus sign.
pub open spec fn usize_value(s: Seq<u8>) -> Option<int> {
    if s.len() > 0 && s[0] == 45 {
        None
    } else {
        match signed_value(s) {
            Some(v) => if v <= usize::MAX {
                Some(v)
            } else {
                None
            },
            None => None,
        }
    }
}

/// The first index in `[from, end)` that holds `b`, or `end` if none does.
pub open spec fn find(s: Seq<u8>, b: u8, from: int, end: int) -> int
    decreases end - from,
{
    if from >= end {
        end
    } else if s[from] == b {
        from
    } else {
        find(s, b, from + 1, end)
    }
}

/// Searching a prefix `v[0..end]` finds what searching `v` up to `end` finds.
proof fn lemma_find_prefix(v: Seq<u8>, b: u8, from: int, end: int)
    requires
        0 <= from <= end <= v.len(),
    ensures
        find(v.subrange(0, end), b, from, end) == find(v, b, from, end),
    decreases end - from,
{
    if from < end {
        lemma_find_prefix(v, b, from + 1, end);
    }
}

fn find_byte(s: &[u8], b: u8, from: usize, end: usize) -> (r: usize)
    requires
        from <= end <= s@.len(),
    ensures
        r == find(s@, b, from as int, end as int),
        from <= r <= end,
{
    let mut i = from;
    while i < end && s[i] != b
        invariant
            from <= i <= end <= s@.len(),
            find(s@, b, from as int, end as int) == find(s@, b, i as int, end as int),
        decreases end - i,
    {
        i += 1;
    }
    i
}

/// Reads the digits of `s[start..end]`; `None` where one is no digit, where there is none,
/// or where the value passes `u64::MAX`.
fn digits_in(s: &[u8], start: usize, end: usize) -> (r: Option<u64>)
    requires
        start <= end <= s@.len(),
    ensures
        ({
            let sub = s@.subrange(start as int, end as int);
            match r {
                Some(v) => sub.len() > 0 && all_digits(sub) && v == digits_value(sub),
                None => !(sub.len() > 0 && all_digits(sub) && digits_value(sub) <= u64::MAX),
            }
        }),
{
    if start == end {
        return None;
    }
    let ghost sub = s@.subrange(start as int, end as int);
    let mut acc: u128 = 0;
    let mut over = false;
    let mut i = start;
    while i < end
        invariant
            start <= i <= end <= s@.len(),
            sub == s@.subrange(start as int, end as int),
            all_digits(sub.take(i - start)),
            over ==> digits_value(sub.take(i - start)) > u64::MAX,
            !over ==> acc == digits_value(sub.take(i - start)) && acc <= u64::MAX,
            over ==> acc == 0,
        decreases end - i,
    {
        let b = s[i];
        if b < 48 || b > 57 {
            assert(sub[i - start] == b);
            return None;
        }
        assert(sub.take(i - start + 1).drop_last() =~= sub.take(i - start));
        assert(sub.take(i - start + 1).last() == b);
        if !over {
            acc = acc * 10 + (b - 48) as u128;
            if acc > u64::MAX as u128 {
                over = true;
                acc = 0;
            }
        }
        i += 1;
    }
    assert(sub.take(i - start) =~= sub);
    if over {
        None
    } else {
        Some(acc as u64)
    }
}

/// Reads `s[start..end]` as `str::parse::<isize>` does.
pub fn parse_isize(s: &[u8], start: usize, end: usize) -> (r: Option<isize>)
    requires
        start <= end <= s@.len(),
    ensures
        match isize_value(s@.subrange(start as int, end as int)) {
            Some(v) => r == Some(v as isize),
            None => r is None,
        },
{
    let ghost sub = s@.subrange(start as int, end as int);
    if start < end && (s[start] == 43 || s[start] == 45) {
        let d = digits_in(s, start + 1, end);
        assert(sub.drop_first() =~= s@.subrange(start + 1, end as int));
        assert(sub[0] == s@[start as int]);
        assert(!all_digits(sub));
        match d {
            Some(v) => {
                if s[start] == 43 {
                    if v <= isize::MAX as u64 {
                        Some(v as isize)
                    } else {
                        None
                    }
                } else {
                    if v <= isize::MAX as u64 + 1 {
                        Some((0 - v as i128) as isize)
                    } else {
                        None
                    }
                }
            },
            None => None,
        }
    } else {
        let d = digits_in(s, start, end);
        match d {
            Some(v) => {
                if v <= isize::MAX as u64 {
                    Some(v as isize)
                } else {
                    None
                }
            },
            None => None,
        }
    }
}

/// Reads `s[start..end]` as `str::parse::<usize>` does.
pub fn parse_usize(s: &[u8], start: usize, end: usize) -> (r: Option<usize>)
    requires
        start <= end <= s@.len(),
    ensures
        match usize_value(s@.subrange(start as int, end as int)) {
            Some(v) => r == Some(v as usize),
            None => r is None,
        },
{
    let ghost sub = s@.subrange(start as int, end as int);
    if start < end && s[start] == 45 {
        return None;
    }
    let d = if start < end && s[start] == 43 {
        assert(sub.drop_first() =~= s@.subrange(start + 1, end as int));
        assert(sub[0] == s@[start as int]);
        assert(!all_digits(sub));
        digits_in(s, start + 1, end)
    } else {
        digits_in(s, start, end)
    };
    match d {
        Some(v) => {
            if v as u128 <= usize::MAX as u128 {
                Some(v as usize)
            } else {
                None
            }
        },
        None => None,
    }
}

/// The range part of a `content-range` value: what stands before its first `/`.
pub open spec fn range_part(v: Seq<u8>) -> Seq<u8> {
    v.subrange(0, find(v, 47, 0, v.len() as int))
}

/// The number of items that a `content-range` value `<from>-<to>/<total>` reports: the
/// range part splits at its first `-` into `<from>` and `<to>`, and the count is
/// `to - from + 1` where both read as integers and that count is a `usize`, else 0.
pub open spec fn item_count_of(v: Seq<u8>) -> int {
    let r = range_part(v);
    let dash = find(r, 45, 0, r.len() as int);
    if dash >= r.len() {
        0
    } else {
        match (isize_value(r.subrange(0, dash)), isize_value(r.subrange(dash + 1, r.len() as int))) {
            (Some(from), Some(to)) => if 0 <= to - from + 1 && to - from + 1 <= usize::MAX {
                to - from + 1
            } else {
                0
            },
            _ => 0,
        }
    }
}

/// The total that a `content-range` value reports: all that follows its first `/`, where
/// that reads as a `usize`.
pub open spec fn total_of(v: Seq<u8>) -> Option<int> {
    let slash = find(v, 47, 0, v.len() as int);
    if slash >= v.len() {
        None
    } else {
        usize_value(v.subrange(slash + 1, v.len() as int))
    }
}

/// Reads the item count, and the total where a count mode was requested, from the value
/// of a `content-range` header. Without the header both are absent (0 and `None`); a
/// requested total that does not read as a number is an error.
pub fn parse_content_range(value: Option<&[u8]>, count_requested: bool) -> (r: Result<
    (usize, Option<usize>),
    QueryError,
>)
    ensures
        match value {
            None => r matches Ok((0, None)),
            Some(v) => if count_requested && total_of(v@) is None {
                r matches Err(QueryError::InvalidContentRange)
            } else {
                r matches Ok((n, t)) && n == item_count_of(v@) && t == (if count_requested {
                    Some(total_of(v@)->0 as usize)
                } else {
                    None
                })
            },
        },
{
    match value {
        None => Ok((0, None)),
        Some(v) => {
            let len = v.len();
            let slash = find_byte(v, 47, 0, len);
            let dash = find_byte(v, 45, 0, slash);
            let ghost r = range_part(v@);
            proof {
                lemma_find_prefix(v@, 45, 0, slash as int);
                assert(r.subrange(0, dash as int) =~= v@.subrange(0, dash as int));
                if dash < slash {
                    assert(r.subrange(dash + 1, r.len() as int) =~= v@.subrange(
                        dash + 1,
                        slash as int,
                    ));
                }
            }
            let mut item_count: usize = 0;
            if dash < slash {
                let from = parse_isize(v, 0, dash);
                let to = parse_isize(v, dash + 1, slash);
                if let (Some(f), Some(t)) = (from, to) {
                    let n: i128 = t as i128 - f as i128 + 1;
                    if 0 <= n && n <= usize::MAX as i128 {
                        item_count = n as usize;
                    }
                }
            }
            if !count_requested {
                return Ok((item_count, None));
            }
            if slash >= len {
                return Err(QueryError::InvalidContentRange);
            }
            match parse_usize(v, slash + 1, len) {
                Some(total) => Ok((item_count, Some(total))),
                None => Err(QueryError::InvalidContentRange),
            }
        },
    }
}

} // verus!
