//! Text helpers shared by the other modules: comparison, decimal numbers,
//! joining and trimming, each with an exact description over `Seq<char>`.

use vstd::prelude::*;
use vstd::string::*;

verus! {

/// Whether two strings hold the same characters. Both are copied for the
/// comparison: equality is specified for `String`, not for `str`.
pub fn same_text(a: &str, b: &str) -> (same: bool)
    ensures
        same == (a@ == b@),
{
    let left = a.to_owned();
    let right = b.to_owned();
    left == right
}

/// The character that writes the decimal digit `d`.
pub open spec fn digit_char(d: nat) -> char {
    if d == 0 {
        '0'
    } else if d == 1 {
        '1'
    } else if d == 2 {
        '2'
    } else if d == 3 {
        '3'
    } else if d == 4 {
        '4'
    } else if d == 5 {
        '5'
    } else if d == 6 {
        '6'
    } else if d == 7 {
        '7'
    } else if d == 8 {
        '8'
    } else {
        '9'
    }
}

/// The decimal numeral of `n`, most significant digit first, without
/// leading zeros; zero is written `0`.
pub open spec fn decimal(n: nat) -> Seq<char>
    decreases n,
{
    if n < 10 {
        seq![digit_char(n)]
    } else {
        decimal(n / 10).push(digit_char(n % 10))
    }
}

/// The one-character text of a decimal digit.
fn digit_text(d: u64) -> (text: &'static str)
    requires
        d < 10,
    ensures
        text@ == seq![digit_char(d as nat)],
{
    proof {
        reveal_strlit("0");
        reveal_strlit("1");
        reveal_strlit("2");
        reveal_strlit("3");
        reveal_strlit("4");
        reveal_strlit("5");
        reveal_strlit("6");
        reveal_strlit("7");
        reveal_strlit("8");
        reveal_strlit("9");
    }
    let text = if d == 0 {
        "0"
    } else if d == 1 {
        "1"
    } else if d == 2 {
        "2"
    } else if d == 3 {
        "3"
    } else if d == 4 {
        "4"
    } else if d == 5 {
        "5"
    } else if d == 6 {
        "6"
    } else if d == 7 {
        "7"
    } else if d == 8 {
        "8"
    } else {
        "9"
    };
    assert(text@ =~= seq![digit_char(d as nat)]);
    text
}

/// Appends the decimal numeral of `n` to `out`.
pub fn push_decimal(out: String, n: u64) -> (extended: String)
    ensures
        extended@ == out@ + decimal(n as nat),
    decreases n,
{
    if n < 10 {
        let extended = out.concat(digit_text(n));
        extended
    } else {
        let head = push_decimal(out, n / 10);
        let extended = head.concat(digit_text(n % 10));
        assert(extended@ =~= out@ + decimal(n as nat));
        extended
    }
}

/// The decimal numeral of `n` as a string.
pub fn decimal_text(n: u64) -> (text: String)
    ensures
        text@ == decimal(n as nat),
{
    let text = push_decimal(String::new(), n);
    assert(text@ =~= decimal(n as nat));
    text
}

/// The texts of a sequence of strings.
pub open spec fn texts(strings: Seq<String>) -> Seq<Seq<char>> {
    strings.map_values(|s: String| s@)
}

/// The texts of the first `i + 1` strings are those of the first `i` and
/// the text of the next one.
pub proof fn lemma_texts_take_next(strings: Seq<String>, i: int)
    requires
        0 <= i < strings.len(),
    ensures
        texts(strings.take(i + 1)) == texts(strings.take(i)).push(strings[i]@),
        texts(strings.take(i + 1)).to_set() == texts(strings.take(i)).to_set().insert(strings[i]@),
{
    assert(strings.take(i + 1) =~= strings.take(i).push(strings[i]));
    assert(texts(strings.take(i).push(strings[i])) =~= texts(strings.take(i)).push(strings[i]@));
    texts(strings.take(i)).lemma_push_to_set_commute(strings[i]@);
}

/// The parts written one after another, with `sep` between neighbours.
pub open spec fn joined(parts: Seq<Seq<char>>, sep: Seq<char>) -> Seq<char>
    decreases parts.len(),
{
    if parts.len() == 0 {
        Seq::empty()
    } else if parts.len() == 1 {
        parts[0]
    } else {
        joined(parts.drop_last(), sep) + sep + parts.last()
    }
}

/// Joining one more part: it follows the separator, unless it is the first.
pub proof fn lemma_joined_push(parts: Seq<Seq<char>>, sep: Seq<char>, part: Seq<char>)
    ensures
        joined(parts.push(part), sep) == if parts.len() == 0 {
            part
        } else {
            joined(parts, sep) + sep + part
        },
{
    let all = parts.push(part);
    assert(all.drop_last() =~= parts);
    assert(all.last() == part);
}

/// `s` without the run of `c` that it starts with.
pub open spec fn trim_start(s: Seq<char>, c: char) -> Seq<char>
    decreases s.len(),
{
    if s.len() > 0 && s[0] == c {
        trim_start(s.drop_first(), c)
    } else {
        s
    }
}

/// Copies `s` without the run of `c` that it starts with.
pub fn trim_leading(s: &str, c: char) -> (rest: String)
    ensures
        rest@ == trim_start(s@, c),
{
    let n = s.unicode_len();
    let mut k: usize = 0;
    assert(s@.skip(0) =~= s@);
    while k < n && s.get_char(k) == c
        invariant
            k <= n,
            n == s@.len(),
            trim_start(s@, c) == trim_start(s@.skip(k as int), c),
        decreases n - k,
    {
        assert(s@.skip(k as int).drop_first() =~= s@.skip(k + 1));
        k += 1;
    }
    assert(s@.skip(k as int) =~= s@.subrange(k as int, n as int));
    s.substring_char(k, n).to_owned()
}

} // verus!
