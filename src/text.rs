//! Character-level helpers for reading player input: whitespace splitting,
//! ASCII case-insensitive keyword matching and small decimal numbers.
use vstd::prelude::*;

verus! {

/// The characters that carry the Unicode `White_Space` property.
pub open spec fn is_space(c: char) -> bool {
    let u = c as u32;
    (0x09 <= u && u <= 0x0D) || u == 0x20 || u == 0x85 || u == 0xA0 || u == 0x1680 || (0x2000
        <= u && u <= 0x200A) || u == 0x2028 || u == 0x2029 || u == 0x202F || u == 0x205F || u
        == 0x3000
}

/// Whether `c` is whitespace, as `char::is_whitespace` tells.
pub fn is_space_char(c: char) -> (r: bool)
    ensures
        r == is_space(c),
{
    let u = c as u32;
    (0x09 <= u && u <= 0x0D) || u == 0x20 || u == 0x85 || u == 0xA0 || u == 0x1680 || (0x2000
        <= u && u <= 0x200A) || u == 0x2028 || u == 0x2029 || u == 0x202F || u == 0x205F || u
        == 0x3000
}

/// Reading `s` from the left: the words already closed, and the word being read.
pub open spec fn split_state(s: Seq<char>) -> (Seq<Seq<char>>, Seq<char>)
    decreases s.len(),
{
    if s.len() == 0 {
        (Seq::empty(), Seq::empty())
    } else {
        let (done, cur) = split_state(s.drop_last());
        if is_space(s.last()) {
            if cur.len() > 0 {
                (done.push(cur), Seq::empty())
            } else {
                (done, cur)
            }
        } else {
            (done, cur.push(s.last()))
        }
    }
}

/// The maximal runs of non-whitespace characters of `s`, in order.
pub open spec fn words(s: Seq<char>) -> Seq<Seq<char>> {
    let (done, cur) = split_state(s);
    if cur.len() > 0 {
        done.push(cur)
    } else {
        done
    }
}

pub open spec fn views_of(ts: Seq<&str>) -> Seq<Seq<char>> {
    ts.map_values(|t: &str| t@)
}

/// Splits `line` at whitespace, as `str::split_whitespace` does.
pub fn split_words<'a>(line: &'a str) -> (r: Vec<&'a str>)
    ensures
        views_of(r@) == words(line@),
{
    let n = line.unicode_len();
    let mut out: Vec<&'a str> = Vec::new();
    let mut start: usize = 0;
    let mut i: usize = 0;
    while i < n
        invariant
            n == line@.len(),
            start <= i <= n,
            split_state(line@.subrange(0, i as int)) == (views_of(out@), line@.subrange(
                start as int,
                i as int,
            )),
        decreases n - i,
    {
        let c = line.get_char(i);
        assert(line@.subrange(0, i + 1).drop_last() =~= line@.subrange(0, i as int));
        if is_space_char(c) {
            if start < i {
                let w = line.substring_char(start, i);
                let ghost before = out@;
                out.push(w);
                assert(views_of(out@) =~= views_of(before).push(w@));
            }
            start = i + 1;
            assert(line@.subrange(start as int, start as int) =~= Seq::<char>::empty());
        } else {
            assert(line@.subrange(start as int, i + 1) =~= line@.subrange(
                start as int,
                i as int,
            ).push(c));
        }
        i = i + 1;
    }
    assert(line@.subrange(0, n as int) =~= line@);
    if start < n {
        let w = line.substring_char(start, n);
        let ghost before = out@;
        out.push(w);
        assert(views_of(out@) =~= views_of(before).push(w@));
    }
    out
}

/// `t` stands for the lower-case ASCII letter or other character `k`.
pub open spec fn char_matches(t: char, k: char) -> bool {
    t == k || ('a' <= k && k <= 'z' && t as u32 == k as u32 - 32)
}

/// `w` spells the lower-case keyword `kw`, ignoring ASCII case.
pub open spec fn same_word(w: Seq<char>, kw: Seq<char>) -> bool {
    w.len() == kw.len() && forall|i: int| 0 <= i < w.len() ==> char_matches(#[trigger] w[i], kw[i])
}

/// Whether `w` spells the lower-case keyword `kw`, ignoring ASCII case.
pub fn word_is(w: &str, kw: &str) -> (r: bool)
    ensures
        r == same_word(w@, kw@),
{
    let n = w.unicode_len();
    if n != kw.unicode_len() {
        return false;
    }
    let mut i: usize = 0;
    while i < n
        invariant
            n == w@.len(),
            n == kw@.len(),
            i <= n,
            forall|j: int| 0 <= j < i ==> char_matches(#[trigger] w@[j], kw@[j]),
        decreases n - i,
    {
        let t = w.get_char(i);
        let k = kw.get_char(i);
        let ok = t == k || ('a' <= k && k <= 'z' && t as u32 == k as u32 - 32);
        if !ok {
            return false;
        }
        i = i + 1;
    }
    true
}

/// Whether the two strings hold the same characters.
pub fn same_text(a: &str, b: &str) -> (r: bool)
    ensures
        r == (a@ == b@),
{
    let n = a.unicode_len();
    if n != b.unicode_len() {
        return false;
    }
    let mut i: usize = 0;
    while i < n
        invariant
            n == a@.len(),
            n == b@.len(),
            i <= n,
            a@.take(i as int) == b@.take(i as int),
        decreases n - i,
    {
        if a.get_char(i) != b.get_char(i) {
            return false;
        }
        assert(a@.take(i + 1) =~= a@.take(i as int).push(a@[i as int]));
        assert(b@.take(i + 1) =~= b@.take(i as int).push(b@[i as int]));
        i = i + 1;
    }
    assert(a@.take(n as int) =~= a@);
    assert(b@.take(n as int) =~= b@);
    true
}

pub open spec fn is_digit(c: char) -> bool {
    '0' <= c && c <= '9'
}

/// The value of a string of decimal digits.
pub open spec fn digits_value(s: Seq<char>) -> nat
    decreases s.len(),
{
    if s.len() == 0 {
        0
    } else {
        digits_value(s.drop_last()) * 10 + (s.last() as u32 - '0' as u32) as nat
    }
}

/// The digits of a number written with an optional leading `+`.
pub open spec fn unsigned_digits(w: Seq<char>) -> Seq<char> {
    if w.len() > 0 && w[0] == '+' {
        w.drop_first()
    } else {
        w
    }
}

/// `w` reads as an integer from 0 to 255: decimal digits, with an optional leading `+`.
pub open spec fn byte_number(w: Seq<char>) -> Option<u8> {
    let d = unsigned_digits(w);
    if d.len() > 0 && (forall|i: int| 0 <= i < d.len() ==> is_digit(#[trigger] d[i]))
        && digits_value(d) <= 255 {
        Some(digits_value(d) as u8)
    } else {
        None
    }
}

proof fn lemma_digits_value_grows(s: Seq<char>, c: char)
    requires
        is_digit(c),
    ensures
        digits_value(s.push(c)) >= digits_value(s),
        digits_value(s.push(c)) == digits_value(s) * 10 + (c as u32 - '0' as u32) as nat,
{
    assert(s.push(c).drop_last() =~= s);
}

/// The integer from 0 to 255 that `w` writes, if it writes one.
pub fn parse_byte(w: &str) -> (r: Option<u8>)
    ensures
        r == byte_number(w@),
{
    let n = w.unicode_len();
    let mut i: usize = 0;
    if n > 0 && w.get_char(0) == '+' {
        i = 1;
    }
    let ghost d = unsigned_digits(w@);
    assert(d =~= w@.subrange(i as int, n as int));
    if i == n {
        return None;
    }
    // `v` is the value read so far, held at 256 once it passes 255.
    let mut v: u32 = 0;
    let start = i;
    while i < n
        invariant
            n == w@.len(),
            start <= i <= n,
            d == unsigned_digits(w@),
            d =~= w@.subrange(start as int, n as int),
            forall|j: int| start <= j < i ==> is_digit(#[trigger] w@[j]),
            v <= 256,
            v < 256 ==> v == digits_value(w@.subrange(start as int, i as int)),
            v == 256 ==> digits_value(w@.subrange(start as int, i as int)) > 255,
        decreases n - i,
    {
        let c = w.get_char(i);
        if !('0' <= c && c <= '9') {
            assert(d[i - start] == c);
            assert(!is_digit(d[i - start]));
            assert(byte_number(w@).is_none());
            return None;
        }
        let ghost prev = w@.subrange(start as int, i as int);
        proof {
            assert(w@.subrange(start as int, i + 1) =~= prev.push(c));
            lemma_digits_value_grows(prev, c);
        }
        if v < 256 {
            let next = v * 10 + (c as u32 - '0' as u32);
            v = if next > 255 {
                256
            } else {
                next
            };
        }
        i = i + 1;
    }
    assert(w@.subrange(start as int, n as int) =~= d);
    if v < 256 {
        Some(v as u8)
    } else {
        None
    }
}

} // verus!
