//! The order in which names are listed: character by character, by code
//! point, a shorter text before its extensions.

use vstd::prelude::*;
use vstd::string::*;
use crate::search::chars_of;
use crate::text::texts;

verus! {

/// Whether `a` comes before `b`.
pub open spec fn text_less(a: Seq<char>, b: Seq<char>) -> bool
    decreases a.len(),
{
    if b.len() == 0 {
        false
    } else if a.len() == 0 {
        true
    } else if a[0] != b[0] {
        (a[0] as int) < (b[0] as int)
    } else {
        text_less(a.drop_first(), b.drop_first())
    }
}

/// No text comes before itself.
pub proof fn lemma_text_less_irreflexive(a: Seq<char>)
    ensures
        !text_less(a, a),
    decreases a.len(),
{
    if a.len() > 0 {
        lemma_text_less_irreflexive(a.drop_first());
    }
}

/// Of two different texts one comes before the other.
pub proof fn lemma_text_less_total(a: Seq<char>, b: Seq<char>)
    ensures
        text_less(a, b) || text_less(b, a) || a == b,
        !(text_less(a, b) && text_less(b, a)),
    decreases a.len(),
{
    if a.len() > 0 && b.len() > 0 {
        if a[0] == b[0] {
            lemma_text_less_total(a.drop_first(), b.drop_first());
            if a.drop_first() == b.drop_first() {
                assert(a =~= seq![a[0]] + a.drop_first());
                assert(b =~= seq![b[0]] + b.drop_first());
                assert(a =~= b);
            }
        } else {
            assert((a[0] as int) != (b[0] as int));
        }
    } else if a.len() == 0 && b.len() == 0 {
        assert(a =~= b);
    }
}

/// What comes before something that comes before `c` comes before `c`.
pub proof fn lemma_text_less_transitive(a: Seq<char>, b: Seq<char>, c: Seq<char>)
    requires
        text_less(a, b),
        text_less(b, c),
    ensures
        text_less(a, c),
    decreases a.len(),
{
    if a.len() > 0 {
        if a[0] == b[0] && b[0] == c[0] {
            lemma_text_less_transitive(a.drop_first(), b.drop_first(), c.drop_first());
        }
    }
}

/// Whether the texts are listed in order, each before the next, so that
/// none occurs twice.
pub open spec fn in_order(names: Seq<Seq<char>>) -> bool {
    forall|i: int, j: int| 0 <= i < j < names.len() ==> text_less(names[i], names[j])
}

/// Whether `a` comes before `b`.
pub fn comes_before(a: &Vec<char>, b: &Vec<char>) -> (before: bool)
    ensures
        before == text_less(a@, b@),
{
    let mut i: usize = 0;
    assert(a@.skip(0) =~= a@ && b@.skip(0) =~= b@);
    while i < a.len() && i < b.len()
        invariant
            i <= a.len(),
            i <= b.len(),
            text_less(a@, b@) == text_less(a@.skip(i as int), b@.skip(i as int)),
        decreases a.len() - i,
    {
        let left = a[i];
        let right = b[i];
        if left != right {
            return left < right;
        }
        assert(a@.skip(i as int).drop_first() =~= a@.skip(i + 1));
        assert(b@.skip(i as int).drop_first() =~= b@.skip(i + 1));
        i += 1;
    }
    i < b.len()
}

/// Enters `name` among the names at its place in the order, unless it is
/// there already.
pub(crate) fn insert_in_order(names: &mut Vec<String>, name: String)
    requires
        in_order(texts(old(names)@)),
    ensures
        in_order(texts(final(names)@)),
        texts(final(names)@).to_set() == texts(old(names)@).to_set().insert(name@),
{
    let wanted = chars_of(name.as_str());
    let mut at: usize = 0;
    while at < names.len() && comes_before(&chars_of(names[at].as_str()), &wanted)
        invariant
            at <= names.len(),
            names@ == old(names)@,
            wanted@ == name@,
            forall|i: int| 0 <= i < at ==> text_less(#[trigger] texts(names@)[i], name@),
        decreases names.len() - at,
    {
        at += 1;
    }
    let ghost before = texts(names@);
    assert(at < names.len() ==> !text_less(before[at as int], name@));
    let present = at < names.len() && !comes_before(
        &wanted,
        &chars_of(names[at].as_str()),
    );
    if present {
        proof {
            lemma_text_less_total(before[at as int], name@);
            assert(before[at as int] == name@);
            assert(before.to_set().insert(name@) =~= before.to_set());
        }
    } else {
        names.insert(at, name);
        proof {
            let after = texts(names@);
            assert(after =~= before.insert(at as int, name@));
            assert forall|i: int, j: int| 0 <= i < j < after.len() implies text_less(
                after[i],
                after[j],
            ) by {
                if j == at {
                    assert(after[i] == before[i]);
                } else if i == at {
                    assert(after[j] == before[j - 1]);
                    assert(text_less(name@, before[at as int]));
                    if j - 1 > at {
                        lemma_text_less_transitive(name@, before[at as int], before[j - 1]);
                    }
                } else {
                    let from = if i < at { i } else { i - 1 };
                    let to = if j < at { j } else { j - 1 };
                    assert(after[i] == before[from] && after[j] == before[to]);
                }
            }
            assert forall|text: Seq<char>|
                after.to_set().contains(text) <==> before.to_set().insert(name@).contains(
                    text,
                ) by {
                if after.to_set().contains(text) {
                    let k = choose|k: int| 0 <= k < after.len() && after[k] == text;
                    if k < at {
                        assert(before[k] == text);
                    } else if k > at {
                        assert(before[k - 1] == text);
                    }
                }
                if before.to_set().contains(text) {
                    let k = choose|k: int| 0 <= k < before.len() && before[k] == text;
                    if k < at {
                        assert(after[k] == text);
                    } else {
                        assert(after[k + 1] == text);
                    }
                }
                if text == name@ {
                    assert(after[at as int] == text);
                }
            }
            assert(after.to_set() =~= before.to_set().insert(name@));
        }
    }
}

} // verus!
