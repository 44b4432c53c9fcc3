//! Character and string helpers shared by the rest of the library.
//!
//! Strings are processed as vectors of characters so that every
//! transformation can carry an exact contract over `Seq<char>`.

use vstd::prelude::*;
use vstd::string::StrSliceExecFns;

verus! {

// ---------------------------------------------------------------------------
// Trusted character classification and string primitives
// ---------------------------------------------------------------------------

/// The value of `char::is_uppercase` on a character.
pub uninterp spec fn is_upper_char(c: char) -> bool;

/// The value of `char::is_whitespace` on a character.
pub uninterp spec fn is_space_char(c: char) -> bool;

/// Relies on `char::is_uppercase`: the Unicode uppercase property of a
/// character, a function of the character alone.
pub assume_specification[ char::is_uppercase ](c: char) -> (r: bool)
    ensures
        r == is_upper_char(c),
;

/// Relies on `char::is_whitespace`: the Unicode whitespace property of a
/// character, a function of the character alone.
pub assume_specification[ char::is_whitespace ](c: char) -> (r: bool)
    ensures
        r == is_space_char(c),
;

/// Relies on `String::push`: appends exactly one character at the end.
pub assume_specification[ String::push ](s: &mut String, c: char)
    ensures
        final(s)@ == old(s)@.push(c),
;

/// The sequence of characters that `str::to_lowercase` produces for a string,
/// a function of the characters alone.
pub uninterp spec fn lower_of(s: Seq<char>) -> Seq<char>;

/// Relies on `str::to_lowercase`: the Unicode lowercase conversion of a
/// string, a function of its characters alone.
#[verifier::external_body]
pub fn to_lowercase(s: &str) -> (r: String)
    ensures
        r@ == lower_of(s@),
{
    s.to_lowercase()
}

// ---------------------------------------------------------------------------
// Conversions between `&str` and `Vec<char>`
// ---------------------------------------------------------------------------

/// Collects the characters of a string slice.
pub fn str_chars(s: &str) -> (r: Vec<char>)
    ensures
        r@ == s@,
{
    let n = s.unicode_len();
    let mut v: Vec<char> = Vec::new();
    let mut i: usize = 0;
    while i < n
        invariant
            i <= n,
            n == s@.len(),
            v@ == s@.take(i as int),
        decreases n - i,
    {
        let c = s.get_char(i);
        v.push(c);
        proof {
            assert(s@.take(i + 1 as int) =~= s@.take(i as int).push(s@[i as int]));
        }
        i += 1;
    }
    proof {
        assert(s@.take(n as int) =~= s@);
    }
    v
}

/// Builds a `String` out of a sequence of characters.
pub fn chars_to_string(v: &Vec<char>) -> (r: String)
    ensures
        r@ == v@,
{
    let mut s = String::new();
    let mut i: usize = 0;
    while i < v.len()
        invariant
            i <= v.len(),
            s@ == v@.take(i as int),
        decreases v.len() - i,
    {
        s.push(v[i]);
        proof {
            assert(v@.take(i + 1 as int) =~= v@.take(i as int).push(v@[i as int]));
        }
        i += 1;
    }
    proof {
        assert(v@.take(v.len() as int) =~= v@);
    }
    s
}

/// Appends every character of `s` to `v`.
pub fn push_str_chars(v: &mut Vec<char>, s: &str)
    ensures
        final(v)@ == old(v)@ + s@,
{
    let n = s.unicode_len();
    let mut i: usize = 0;
    while i < n
        invariant
            i <= n,
            n == s@.len(),
            v@ == old(v)@ + s@.take(i as int),
        decreases n - i,
    {
        let c = s.get_char(i);
        v.push(c);
        proof {
            assert(old(v)@ + s@.take(i + 1 as int) =~= (old(v)@ + s@.take(i as int)).push(
                s@[i as int],
            ));
        }
        i += 1;
    }
    proof {
        assert(old(v)@ + s@.take(n as int) =~= old(v)@ + s@);
    }
}

// ---------------------------------------------------------------------------
// Decimal formatting
// ---------------------------------------------------------------------------

/// The character for one decimal digit.
pub open spec fn digit_char(d: int) -> char
    recommends
        0 <= d < 10,
{
    if d == 0 {
        '0'
    } else if d == 1 {
        '1'
    } else if d == 2 {
        '2'
    } else if d == 3 {
        '3'
    } else if d == 4 {
        '4'
    } else if d == 5 {
        '5'
    } else if d == 6 {
        '6'
    } else if d == 7 {
        '7'
    } else if d == 8 {
        '8'
    } else {
        '9'
    }
}

/// The usual decimal notation of a natural number, most significant digit
/// first, without leading zeroes (except for zero itself).
pub open spec fn dec_digits(n: nat) -> Seq<char>
    decreases n,
{
    if n < 10 {
        seq![digit_char(n as int)]
    } else {
        dec_digits(n / 10).push(digit_char((n % 10) as int))
    }
}

fn digit_to_char(d: u64) -> (c: char)
    requires
        d < 10,
    ensures
        c == digit_char(d as int),
{
    if d == 0 {
        '0'
    } else if d == 1 {
        '1'
    } else if d == 2 {
        '2'
    } else if d == 3 {
        '3'
    } else if d == 4 {
        '4'
    } else if d == 5 {
        '5'
    } else if d == 6 {
        '6'
    } else if d == 7 {
        '7'
    } else if d == 8 {
        '8'
    } else {
        '9'
    }
}

/// Writes a natural number in decimal.
pub fn u64_to_dec_chars(n: u64) -> (r: Vec<char>)
    ensures
        r@ == dec_digits(n as nat),
{
    if n == 0 {
        let mut r: Vec<char> = Vec::new();
        r.push('0');
        proof {
            assert(r@ =~= dec_digits(0));
        }
        return r;
    }
    let mut digits: Vec<char> = Vec::new();
    let mut m: u64 = n;
    while m > 0
        invariant
            n > 0,
            m > 0 ==> dec_digits(n as nat) == dec_digits(m as nat) + digits@.reverse(),
            m == 0 ==> dec_digits(n as nat) == digits@.reverse(),
        decreases m,
    {
        let ghost prev = digits@;
        let d = m % 10;
        digits.push(digit_to_char(d));
        proof {
            assert(digits@.reverse() =~= seq![digit_char(d as int)] + prev.reverse());
            if m >= 10 {
                assert(dec_digits(m as nat) == dec_digits((m / 10) as nat).push(
                    digit_char((m % 10) as int),
                ));
                assert(dec_digits((m / 10) as nat).push(digit_char(d as int)) + prev.reverse()
                    =~= dec_digits((m / 10) as nat) + digits@.reverse());
            } else {
                assert(dec_digits(m as nat) == seq![digit_char(m as int)]);
                assert(seq![digit_char(d as int)] + prev.reverse() =~= digits@.reverse());
            }
        }
        m = m / 10;
    }
    // reverse the digit buffer
    let mut r: Vec<char> = Vec::new();
    let mut i = digits.len();
    while i > 0
        invariant
            i <= digits.len(),
            r@ == digits@.skip(i as int).reverse(),
        decreases i,
    {
        i -= 1;
        r.push(digits[i]);
        proof {
            assert(digits@.skip(i as int).reverse() =~= digits@.skip(i + 1 as int).reverse().push(
                digits@[i as int],
            ));
        }
    }
    proof {
        assert(digits@.skip(0) =~= digits@);
        assert(r@ == digits@.reverse());
        assert(dec_digits(n as nat) =~= digits@.reverse());
    }
    r
}

/// The usual decimal notation of an integer, with a leading minus sign when
/// it is negative.
pub open spec fn dec_int(n: int) -> Seq<char> {
    if n < 0 {
        seq!['-'] + dec_digits((-n) as nat)
    } else {
        dec_digits(n as nat)
    }
}

/// Writes an integer in decimal.
pub fn i64_to_dec_chars(n: i64) -> (r: Vec<char>)
    ensures
        r@ == dec_int(n as int),
{
    if n >= 0 {
        u64_to_dec_chars(n as u64)
    } else {
        let m: u64 = if n == i64::MIN {
            9223372036854775808u64
        } else {
            (-n) as u64
        };
        proof {
            assert(m as int == -(n as int));
        }
        let mut r: Vec<char> = Vec::new();
        r.push('-');
        let mut d = u64_to_dec_chars(m);
        r.append(&mut d);
        proof {
            assert(r@ =~= dec_int(n as int));
        }
        r
    }
}

/// Decimal notation of `n` left-padded with zeroes to at least four
/// characters, as the download scheduler names media files.
pub open spec fn dec_pad4(n: nat) -> Seq<char> {
    let d = dec_digits(n);
    if d.len() >= 4 {
        d
    } else {
        Seq::new((4 - d.len()) as nat, |i: int| digit_char(0)) + d
    }
}

/// Writes a natural number in decimal, zero-padded to at least four digits.
pub fn u64_to_dec_pad4_chars(n: u64) -> (r: Vec<char>)
    ensures
        r@ == dec_pad4(n as nat),
{
    let d = u64_to_dec_chars(n);
    if d.len() >= 4 {
        proof {
            assert(d@ =~= dec_pad4(n as nat));
        }
        d
    } else {
        let mut r: Vec<char> = Vec::new();
        let mut i = d.len();
        while i < 4
            invariant
                d.len() < 4,
                d.len() <= i <= 4,
                r@ =~= Seq::new((i - d.len()) as nat, |k: int| digit_char(0)),
            decreases 4 - i,
        {
            r.push('0');
            proof {
                assert(r@ =~= Seq::new((i + 1 - d.len()) as nat, |k: int| digit_char(0)));
            }
            i += 1;
        }
        let mut d = d;
        r.append(&mut d);
        proof {
            assert(r@ =~= dec_pad4(n as nat));
        }
        r
    }
}

// ---------------------------------------------------------------------------
// Whitespace splitting and joining
// ---------------------------------------------------------------------------

/// The words of `s` after `cur`, where `cur` is a word under construction:
/// maximal runs of non-whitespace characters, in order.
pub open spec fn words_acc(cur: Seq<char>, s: Seq<char>) -> Seq<Seq<char>>
    decreases s.len(),
{
    if s.len() == 0 {
        if cur.len() == 0 {
            Seq::empty()
        } else {
            seq![cur]
        }
    } else if is_space_char(s[0]) {
        if cur.len() == 0 {
            words_acc(cur, s.drop_first())
        } else {
            seq![cur] + words_acc(Seq::empty(), s.drop_first())
        }
    } else {
        words_acc(cur.push(s[0]), s.drop_first())
    }
}

/// The whitespace-separated words of `s`, as `str::split_whitespace` yields
/// them.
pub open spec fn words_of(s: Seq<char>) -> Seq<Seq<char>> {
    words_acc(Seq::empty(), s)
}

/// Splits a character sequence into its whitespace-separated words.
pub fn split_whitespace_chars(s: &Vec<char>) -> (r: Vec<Vec<char>>)
    ensures
        r.deep_view() == words_of(s@),
{
    let mut r: Vec<Vec<char>> = Vec::new();
    let mut cur: Vec<char> = Vec::new();
    let mut i: usize = 0;
    proof {
        assert(s@.skip(0) =~= s@);
        assert(r.deep_view() + words_acc(cur@, s@) =~~= words_acc(Seq::<char>::empty(), s@));
    }
    while i < s.len()
        invariant
            i <= s.len(),
            words_of(s@) == r.deep_view() + words_acc(cur@, s@.skip(i as int)),
        decreases s.len() - i,
    {
        let c = s[i];
        proof {
            assert(s@.skip(i as int).drop_first() =~= s@.skip(i + 1 as int));
            assert(s@.skip(i as int)[0] == s@[i as int]);
        }
        if c.is_whitespace() {
            if cur.len() > 0 {
                let ghost old_r = r.deep_view();
                let w = cur;
                r.push(w);
                cur = Vec::new();
                proof {
                    assert(r.deep_view() =~~= old_r.push(w@));
                    assert(old_r + (seq![w@] + words_acc(Seq::<char>::empty(), s@.skip(i + 1 as int)))
                        =~= r.deep_view() + words_acc(cur@, s@.skip(i + 1 as int)));
                }
            }
        } else {
            cur.push(c);
        }
        i += 1;
    }
    proof {
        assert(s@.skip(s@.len() as int) =~= Seq::<char>::empty());
    }
    if cur.len() > 0 {
        let ghost old_r = r.deep_view();
        let w = cur;
        r.push(w);
        proof {
            assert(r.deep_view() =~~= old_r.push(w@));
            assert(old_r + seq![w@] =~= old_r.push(w@));
        }
    } else {
        proof {
            assert(r.deep_view() + Seq::<Seq<char>>::empty() =~= r.deep_view());
        }
    }
    r
}

/// Whether a word contains an uppercase character.
pub open spec fn has_upper(w: Seq<char>) -> bool {
    exists|j: int| 0 <= j < w.len() && is_upper_char(w[j])
}

/// The words joined by a single separator character.
pub open spec fn join_with(ws: Seq<Seq<char>>, sep: char) -> Seq<char>
    decreases ws.len(),
{
    if ws.len() == 0 {
        Seq::empty()
    } else if ws.len() == 1 {
        ws[0]
    } else {
        join_with(ws.drop_last(), sep).push(sep) + ws.last()
    }
}

/// Joins the words of `ws[from..to]` with a single separator character
/// between them.
pub fn join_chars(ws: &Vec<Vec<char>>, from: usize, to: usize, sep: char) -> (r: Vec<char>)
    requires
        from <= to <= ws@.len(),
    ensures
        r@ == join_with(ws.deep_view().subrange(from as int, to as int), sep),
{
    let ghost sub = ws.deep_view().subrange(from as int, to as int);
    let mut r: Vec<char> = Vec::new();
    let mut i: usize = from;
    while i < to
        invariant
            from <= i <= to <= ws@.len(),
            sub == ws.deep_view().subrange(from as int, to as int),
            r@ == join_with(sub.take(i - from), sep),
        decreases to - i,
    {
        if i > from {
            r.push(sep);
        }
        let mut w = ws[i].clone();
        proof {
            assert(w@ == ws.deep_view()[i as int]);
        }
        r.append(&mut w);
        proof {
            let t1 = sub.take(i + 1 - from);
            assert(t1.drop_last() =~= sub.take(i - from));
            assert(t1.last() == ws.deep_view()[i as int]);
        }
        i += 1;
    }
    proof {
        assert(sub.take(to - from) =~= sub);
    }
    r
}

} // verus!
