use vstd::prelude::*;

verus! {

/// A selected rectangle, as a selection tool prints it: `x,y wxh`.
#[derive(Clone, Copy, Debug, PartialEq, Eq, Structural)]
pub struct Geometry {
    pub x: i32,
    pub y: i32,
    pub width: i32,
    pub height: i32,
}

pub open spec fn is_digit(c: char) -> bool {
    '0' <= c && c <= '9'
}

pub open spec fn all_digits(s: Seq<char>) -> bool {
    &&& s.len() > 0
    &&& forall|i: int| 0 <= i < s.len() ==> is_digit(#[trigger] s[i])
}

/// The number that a string of decimal digits denotes.
pub open spec fn digits_value(s: Seq<char>) -> int
    decreases s.len(),
{
    if s.len() == 0 {
        0
    } else {
        digits_value(s.drop_last()) * 10 + (s.last() as u32 - '0' as u32)
    }
}

/// The integer that `s` denotes in Rust's decimal syntax for `i32`: an
/// optional `+` or `-` and one or more digits, within the type's range.
pub open spec fn i32_of(s: Seq<char>) -> Option<i32> {
    let v = if s.len() > 0 && s[0] == '-' && all_digits(s.drop_first()) {
        Some(-digits_value(s.drop_first()))
    } else if s.len() > 0 && s[0] == '+' && all_digits(s.drop_first()) {
        Some(digits_value(s.drop_first()))
    } else if all_digits(s) {
        Some(digits_value(s))
    } else {
        None
    };
    match v {
        Some(n) => if i32::MIN <= n <= i32::MAX {
            Some(n as i32)
        } else {
            None
        },
        None => None,
    }
}

proof fn lemma_digits_prefix_le(t: Seq<char>, k: int)
    requires
        forall|i: int| 0 <= i < t.len() ==> is_digit(#[trigger] t[i]),
        0 <= k <= t.len(),
    ensures
        0 <= digits_value(t.subrange(0, k)) <= digits_value(t),
    decreases t.len(),
{
    if k == t.len() {
        assert(t.subrange(0, k) =~= t);
        lemma_digits_nonneg(t);
    } else {
        let d = t.drop_last();
        assert(forall|i: int| 0 <= i < d.len() ==> is_digit(#[trigger] d[i]) ) by {
            assert(forall|i: int| 0 <= i < d.len() ==> d[i] == t[i]);
        }
        lemma_digits_prefix_le(d, k);
        assert(d.subrange(0, k) =~= t.subrange(0, k));
        lemma_digits_nonneg(d);
        assert(is_digit(t[t.len() - 1]));
    }
}

proof fn lemma_digits_nonneg(t: Seq<char>)
    requires
        forall|i: int| 0 <= i < t.len() ==> is_digit(#[trigger] t[i]),
    ensures
        digits_value(t) >= 0,
    decreases t.len(),
{
    if t.len() > 0 {
        let d = t.drop_last();
        assert(forall|i: int| 0 <= i < d.len() ==> d[i] == t[i]);
        lemma_digits_nonneg(d);
        assert(is_digit(t[t.len() - 1]));
    }
}

/// The value of the digits at `from..to` of `s`, where they are one or
/// more digits and denote at most `limit`.
fn parse_digits(s: &str, from: usize, to: usize, limit: u64) -> (r: Option<u64>)
    requires
        from <= to <= s@.len(),
        limit <= 0x1_0000_0000,
    ensures
        r is Some <==> all_digits(s@.subrange(from as int, to as int)) && digits_value(
            s@.subrange(from as int, to as int),
        ) <= limit,
        r matches Some(v) ==> v == digits_value(s@.subrange(from as int, to as int)),
{
    let ghost t = s@.subrange(from as int, to as int);
    if from == to {
        return None;
    }
    let mut acc: u64 = 0;
    let mut i: usize = from;
    while i < to
        invariant
            from <= i <= to <= s@.len(),
            t == s@.subrange(from as int, to as int),
            limit <= 0x1_0000_0000,
            forall|j: int| from <= j < i ==> is_digit(#[trigger] s@[j]),
            acc == digits_value(s@.subrange(from as int, i as int)),
            acc <= limit,
        decreases to - i,
    {
        let c = s.get_char(i);
        if c < '0' || c > '9' {
            proof {
                assert(t[i - from] == c);
            }
            return None;
        }
        let d: u64 = (c as u32 - '0' as u32) as u64;
        proof {
            let p = s@.subrange(from as int, i + 1);
            assert(p.drop_last() =~= s@.subrange(from as int, i as int));
            assert(p.last() == c);
        }
        let next: u64 = acc * 10 + d;
        if next > limit {
            proof {
                assert forall|j: int| 0 <= j < i + 1 - from implies is_digit(
                    #[trigger] s@.subrange(from as int, i + 1)[j],
                ) by {
                    assert(s@.subrange(from as int, i + 1)[j] == s@[from + j]);
                }
                if all_digits(t) {
                    lemma_digits_prefix_le(t, i + 1 - from);
                    assert(t.subrange(0, i + 1 - from) =~= s@.subrange(from as int, i + 1));
                }
            }
            return None;
        }
        acc = next;
        i = i + 1;
    }
    proof {
        assert(s@.subrange(from as int, i as int) =~= t);
        assert forall|j: int| 0 <= j < t.len() implies is_digit(#[trigger] t[j]) by {
            assert(t[j] == s@[from + j]);
        }
    }
    Some(acc)
}

/// The `i32` that the characters at `from..to` of `s` denote.
pub fn parse_i32(s: &str, from: usize, to: usize) -> (r: Option<i32>)
    requires
        from <= to <= s@.len(),
    ensures
        r == i32_of(s@.subrange(from as int, to as int)),
{
    let ghost t = s@.subrange(from as int, to as int);
    if from < to {
        let c = s.get_char(from);
        proof {
            assert(t[0] == c);
            assert(t.drop_first() =~= s@.subrange(from + 1, to as int));
        }
        if c == '-' {
            return match parse_digits(s, from + 1, to, 0x8000_0000) {
                Some(m) => Some((0 - m as i64) as i32),
                None => None,
            };
        }
        if c == '+' {
            return match parse_digits(s, from + 1, to, 0x7fff_ffff) {
                Some(m) => Some(m as i32),
                None => None,
            };
        }
    }
    match parse_digits(s, from, to, 0x7fff_ffff) {
        Some(m) => Some(m as i32),
        None => None,
    }
}

/// `p` is the only position of `c` in `s`.
pub open spec fn is_sole(s: Seq<char>, c: char, p: int) -> bool {
    &&& 0 <= p < s.len()
    &&& s[p] == c
    &&& forall|j: int| 0 <= j < s.len() && j != p ==> s[j] != c
}

/// The position of `c` in `s`, where `c` occurs exactly once.
pub open spec fn sole_index(s: Seq<char>, c: char) -> Option<int> {
    if exists|p: int| is_sole(s, c, p) {
        Some(choose|p: int| is_sole(s, c, p))
    } else {
        None
    }
}

proof fn lemma_sole_unique(s: Seq<char>, c: char, p: int)
    requires
        is_sole(s, c, p),
    ensures
        sole_index(s, c) == Some(p),
{
    let q = choose|q: int| is_sole(s, c, q);
    assert(is_sole(s, c, q));
    if q != p {
        assert(s[q] != c);
    }
}

/// The position, counted from the start of `s`, of the only `c` at
/// `from..to`; none where `c` occurs there zero times or more than once.
fn find_sole(s: &str, from: usize, to: usize, c: char) -> (r: Option<usize>)
    requires
        from <= to <= s@.len(),
    ensures
        r matches Some(p) ==> from <= p < to && sole_index(s@.subrange(from as int, to as int), c)
            == Some(p - from),
        r is None ==> sole_index(s@.subrange(from as int, to as int), c) is None,
{
    let ghost t = s@.subrange(from as int, to as int);
    let mut found: Option<usize> = None;
    let mut i: usize = from;
    while i < to
        invariant
            from <= i <= to <= s@.len(),
            t == s@.subrange(from as int, to as int),
            found matches Some(p) ==> from <= p < i && s@[p as int] == c,
            forall|j: int| from <= j < i && (found matches Some(p) ==> j != p) ==> s@[j] != c,
        decreases to - i,
    {
        if s.get_char(i) == c {
            match found {
                Some(p) => {
                    proof {
                        assert(t[p - from] == c);
                        assert(t[i - from] == c);
                        if exists|q: int| is_sole(t, c, q) {
                            let q = choose|q: int| is_sole(t, c, q);
                            assert(q == p - from || t[p - from] != c);
                            assert(q == i - from || t[i - from] != c);
                        }
                    }
                    return None;
                },
                None => {
                    found = Some(i);
                },
            }
        }
        i = i + 1;
    }
    match found {
        Some(p) => {
            proof {
                assert forall|j: int| 0 <= j < t.len() && j != p - from implies t[j] != c by {
                    assert(t[j] == s@[from + j]);
                }
                lemma_sole_unique(t, c, p - from);
            }
            Some(p)
        },
        None => {
            proof {
                if exists|q: int| is_sole(t, c, q) {
                    let q = choose|q: int| is_sole(t, c, q);
                    assert(t[q] == s@[from + q]);
                }
            }
            None
        },
    }
}

/// The four fields of `x,y wxh`: the text splits at its only space into a
/// part with one comma and a part with one `x`.
pub open spec fn fields_of(s: Seq<char>) -> Option<(Seq<char>, Seq<char>, Seq<char>, Seq<char>)> {
    match sole_index(s, ' ') {
        Some(sp) => {
            let left = s.subrange(0, sp);
            let right = s.subrange(sp + 1, s.len() as int);
            match (sole_index(left, ','), sole_index(right, 'x')) {
                (Some(c), Some(x)) => Some(
                    (
                        left.subrange(0, c),
                        left.subrange(c + 1, left.len() as int),
                        right.subrange(0, x),
                        right.subrange(x + 1, right.len() as int),
                    ),
                ),
                _ => None,
            }
        },
        None => None,
    }
}

/// The rectangle that a text `x,y wxh` describes, each field an `i32`.
pub open spec fn geometry_of(s: Seq<char>) -> Option<Geometry> {
    match fields_of(s) {
        Some((a, b, c, d)) => match (i32_of(a), i32_of(b), i32_of(c), i32_of(d)) {
            (Some(x), Some(y), Some(width), Some(height)) => Some(Geometry { x, y, width, height }),
            _ => None,
        },
        None => None,
    }
}

/// Reads a geometry written `x,y wxh`.
pub fn parse_geometry(s: &str) -> (r: Option<Geometry>)
    ensures
        r == geometry_of(s@),
{
    let n = s.unicode_len();
    proof {
        assert(s@.subrange(0, n as int) =~= s@);
    }
    let sp = match find_sole(s, 0, n, ' ') {
        Some(p) => p,
        None => return None,
    };
    let ghost left = s@.subrange(0, sp as int);
    let ghost right = s@.subrange(sp + 1, n as int);
    let comma = match find_sole(s, 0, sp, ',') {
        Some(p) => p,
        None => return None,
    };
    let cross = match find_sole(s, sp + 1, n, 'x') {
        Some(p) => p,
        None => return None,
    };
    proof {
        assert(left.subrange(0, comma as int) =~= s@.subrange(0, comma as int));
        assert(left.subrange(comma + 1, left.len() as int) =~= s@.subrange(comma + 1, sp as int));
        assert(right.subrange(0, cross - sp - 1) =~= s@.subrange(sp + 1, cross as int));
        assert(right.subrange(cross - sp, right.len() as int) =~= s@.subrange(
            cross + 1,
            n as int,
        ));
    }
    let x = parse_i32(s, 0, comma);
    let y = parse_i32(s, comma + 1, sp);
    let width = parse_i32(s, sp + 1, cross);
    let height = parse_i32(s, cross + 1, n);
    match (x, y, width, height) {
        (Some(x), Some(y), Some(width), Some(height)) => Some(Geometry { x, y, width, height }),
        _ => None,
    }
}

} // verus!
