use vstd::prelude::*;
use vstd::string::*;

verus! {

/// A decimal digit.
pub open spec fn is_digit(c: char) -> bool {
    '0' <= c && c <= '9'
}

pub open spec fn digit_value(c: char) -> nat {
    (c as int - '0' as int) as nat
}

pub open spec fn all_digits(s: Seq<char>) -> bool {
    forall|i: int| 0 <= i < s.len() ==> is_digit(#[trigger] s[i])
}

/// The value of a string of decimal digits, most significant first.
pub open spec fn decimal_value(s: Seq<char>) -> nat
    decreases s.len(),
{
    if s.len() == 0 {
        0
    } else {
        10 * decimal_value(s.drop_last()) + digit_value(s.last())
    }
}

/// The value of `s` read as an unsigned decimal numeral no larger than `max`;
/// `None` when `s` is empty, holds anything but digits, or is too large.
pub open spec fn numeral(s: Seq<char>, max: nat) -> Option<nat> {
    if s.len() > 0 && all_digits(s) && decimal_value(s) <= max {
        Some(decimal_value(s))
    } else {
        None
    }
}

/// The pieces of `s` between occurrences of `sep`, in order. There is always
/// at least one piece; two adjacent separators give an empty piece.
pub open spec fn split_on(s: Seq<char>, sep: char) -> Seq<Seq<char>>
    decreases s.len(),
{
    if s.len() == 0 {
        seq![Seq::empty()]
    } else {
        let pieces = split_on(s.drop_last(), sep);
        if s.last() == sep {
            pieces.push(Seq::empty())
        } else {
            pieces.update(pieces.len() - 1, pieces.last().push(s.last()))
        }
    }
}

/// The characters of `s`, in order.
pub fn chars_of(s: &str) -> (r: Vec<char>)
    ensures
        r@ == s@,
{
    let n = s.unicode_len();
    let mut r: Vec<char> = Vec::new();
    let mut i: usize = 0;
    while i < n
        invariant
            n == s@.len(),
            i <= n,
            r@ == s@.take(i as int),
        decreases n - i,
    {
        r.push(s.get_char(i));
        i = i + 1;
        assert(r@ =~= s@.take(i as int));
    }
    assert(r@ =~= s@);
    r
}

/// Whether the characters of `p` begin `s`.
pub fn has_prefix(s: &Vec<char>, p: &str) -> (r: bool)
    ensures
        r == p@.is_prefix_of(s@),
{
    let n = p.unicode_len();
    if n > s.len() {
        return false;
    }
    let mut i: usize = 0;
    while i < n
        invariant
            n == p@.len(),
            n <= s@.len(),
            i <= n,
            p@.take(i as int) =~= s@.take(i as int),
        decreases n - i,
    {
        if p.get_char(i) != s[i] {
            return false;
        }
        i = i + 1;
        assert(p@.take(i as int) =~= s@.take(i as int));
    }
    assert(p@ =~= s@.subrange(0, n as int));
    true
}

/// Whether `s` holds exactly the characters of `p`.
pub fn is_word(s: &Vec<char>, p: &str) -> (r: bool)
    ensures
        r == (s@ == p@),
{
    let prefix = has_prefix(s, p);
    let same_len = s.len() == p.unicode_len();
    proof {
        if prefix && same_len {
            assert(s@ =~= p@);
        }
    }
    prefix && same_len
}

/// The characters of `s` from position `start` on.
pub fn suffix_from(s: &Vec<char>, start: usize) -> (r: Vec<char>)
    requires
        start <= s.len(),
    ensures
        r@ == s@.skip(start as int),
{
    let mut r: Vec<char> = Vec::new();
    let mut i: usize = start;
    while i < s.len()
        invariant
            start <= i <= s.len(),
            r@ == s@.subrange(start as int, i as int),
        decreases s.len() - i,
    {
        r.push(s[i]);
        i = i + 1;
        assert(r@ =~= s@.subrange(start as int, i as int));
    }
    assert(r@ =~= s@.skip(start as int));
    r
}

/// The pieces of `s` between occurrences of `sep`.
pub fn split_chars(s: &Vec<char>, sep: char) -> (r: Vec<Vec<char>>)
    ensures
        r.len() == split_on(s@, sep).len(),
        forall|k: int| 0 <= k < r.len() ==> (#[trigger] r[k])@ == split_on(s@, sep)[k],
{
    let mut done: Vec<Vec<char>> = Vec::new();
    let mut cur: Vec<char> = Vec::new();
    let mut i: usize = 0;
    proof {
        assert(s@.take(0) =~= Seq::<char>::empty());
    }
    while i < s.len()
        invariant
            i <= s.len(),
            split_on(s@.take(i as int), sep).len() == done.len() + 1,
            forall|k: int|
                0 <= k < done.len() ==> (#[trigger] done[k])@ == split_on(
                    s@.take(i as int),
                    sep,
                )[k],
            split_on(s@.take(i as int), sep).last() == cur@,
        decreases s.len() - i,
    {
        let c = s[i];
        proof {
            assert(s@.take(i + 1).drop_last() =~= s@.take(i as int));
            assert(s@.take(i + 1).last() == c);
        }
        if c == sep {
            done.push(cur);
            cur = Vec::new();
        } else {
            cur.push(c);
        }
        i = i + 1;
    }
    proof {
        assert(s@.take(s.len() as int) =~= s@);
    }
    done.push(cur);
    done
}

/// Reads `t` as an unsigned decimal numeral no larger than `max`.
pub fn read_numeral(t: &Vec<char>, max: u32) -> (r: Option<u32>)
    requires
        max <= 65535,
    ensures
        match r {
            Some(v) => numeral(t@, max as nat) == Some(v as nat),
            None => numeral(t@, max as nat) is None,
        },
{
    if t.len() == 0 {
        return None;
    }
    let mut v: u32 = 0;
    let mut i: usize = 0;
    proof {
        assert(t@.take(0) =~= Seq::<char>::empty());
    }
    while i < t.len()
        invariant
            max <= 65535,
            i <= t.len(),
            all_digits(t@.take(i as int)),
            v as nat == if decimal_value(t@.take(i as int)) <= max {
                decimal_value(t@.take(i as int))
            } else {
                max as nat + 1
            },
        decreases t.len() - i,
    {
        let c = t[i];
        if !('0' <= c && c <= '9') {
            assert(!all_digits(t@));
            return None;
        }
        let d = (c as u32) - ('0' as u32);
        let next = 10 * v + d;
        proof {
            assert(t@.take(i + 1).drop_last() =~= t@.take(i as int));
            assert(t@.take(i + 1).last() == c);
        }
        v = if next <= max {
            next
        } else {
            max + 1
        };
        i = i + 1;
        assert(all_digits(t@.take(i as int)));
    }
    proof {
        assert(t@.take(t.len() as int) =~= t@);
    }
    if v <= max {
        Some(v)
    } else {
        None
    }
}

} // verus!
