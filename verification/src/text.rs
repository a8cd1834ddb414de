//! Text building blocks shared by the rest of the library.

use vstd::prelude::*;

verus! {

/// The parts joined with `sep` between each neighbouring pair.
pub open spec fn join(parts: Seq<Seq<char>>, sep: Seq<char>) -> Seq<char>
    decreases parts.len(),
{
    if parts.len() == 0 {
        Seq::empty()
    } else if parts.len() == 1 {
        parts[0]
    } else {
        join(parts.drop_last(), sep) + sep + parts.last()
    }
}

/// The views of a vector of strings.
pub open spec fn string_views(v: Seq<String>) -> Seq<Seq<char>> {
    v.map_values(|s: String| s@)
}

/// Joins the strings with `sep` between each neighbouring pair.
pub fn join_strings(parts: &Vec<String>, sep: &str) -> (res: String)
    ensures
        res@ == join(string_views(parts@), sep@),
{
    let ghost views = string_views(parts@);
    let mut res = String::new();
    let mut i: usize = 0;
    while i < parts.len()
        invariant
            i <= parts.len(),
            views == string_views(parts@),
            res@ == join(views.take(i as int), sep@),
        decreases parts.len() - i,
    {
        proof {
            assert(views.take(i + 1).drop_last() =~= views.take(i as int));
        }
        if i > 0 {
            res.append(sep);
        }
        res.append(parts[i].as_str());
        i = i + 1;
    }
    proof {
        assert(views.take(parts.len() as int) =~= views);
    }
    res
}

/// Whether two texts are the same sequence of characters, decided byte by
/// byte on their UTF-8 encodings.
pub fn text_equals(a: &str, b: &str) -> (res: bool)
    ensures
        res == (a@ == b@),
{
    broadcast use vstd::utf8::group_utf8_lib;

    let ab = a.as_bytes();
    let bb = b.as_bytes();
    proof {
        vstd::utf8::encode_utf8_decode_utf8(a@);
        vstd::utf8::encode_utf8_decode_utf8(b@);
    }
    if ab.len() != bb.len() {
        return false;
    }
    let mut i: usize = 0;
    while i < ab.len()
        invariant
            i <= ab@.len(),
            ab@.len() == bb@.len(),
            ab@ == vstd::utf8::encode_utf8(a@),
            bb@ == vstd::utf8::encode_utf8(b@),
            forall|j: int| 0 <= j < i ==> ab@[j] == bb@[j],
        decreases ab@.len() - i,
    {
        if ab[i] != bb[i] {
            return false;
        }
        i = i + 1;
    }
    assert(ab@ =~= bb@);
    true
}

/// The decimal digit character of `d`.
pub open spec fn digit_char(d: nat) -> char {
    seq!['0', '1', '2', '3', '4', '5', '6', '7', '8', '9'][d as int]
}

/// The decimal notation of `n`, without sign or leading zeros.
pub open spec fn decimal(n: nat) -> Seq<char>
    decreases n,
{
    if n < 10 {
        seq![digit_char(n)]
    } else {
        decimal(n / 10).push(digit_char(n % 10))
    }
}

/// Writes `n` in decimal notation.
pub fn decimal_text(n: usize) -> (res: String)
    ensures
        res@ == decimal(n as nat),
    decreases n,
{
    let digits = "0123456789";
    proof {
        reveal_strlit("0123456789");
    }
    let d: usize = n % 10;
    let digit = digits.substring_char(d, d + 1);
    assert(digit@ =~= seq![digit_char(d as nat)]);
    if n < 10 {
        digit.to_owned()
    } else {
        let mut res = decimal_text(n / 10);
        res.append(digit);
        res
    }
}

/// The first `n` characters of `s`, or all of them where `s` is shorter.
pub open spec fn first_chars(s: Seq<char>, n: nat) -> Seq<char> {
    if s.len() <= n {
        s
    } else {
        s.take(n as int)
    }
}

/// Copies the first `n` characters of `s`.
pub fn first_chars_text(s: &str, n: usize) -> (res: String)
    ensures
        res@ == first_chars(s@, n as nat),
{
    let len = s.unicode_len();
    let end = if len <= n { len } else { n };
    let head = s.substring_char(0, end);
    proof {
        if len <= n {
            assert(s@.subrange(0, end as int) =~= s@);
        }
    }
    head.to_owned()
}

} // verus!
