//! Lists of texts that hold each text at most once.

use crate::text::text_eq;
use vstd::prelude::*;
use vstd::string::*;

verus! {

/// The text is in the list.
pub open spec fn has_text(texts: Seq<String>, text: Seq<char>) -> bool {
    exists|i: int| 0 <= i < texts.len() && (#[trigger] texts[i])@ == text
}

/// The texts in a list.
pub open spec fn listed(texts: Seq<String>) -> Set<Seq<char>> {
    Set::new(|text: Seq<char>| has_text(texts, text))
}

/// No text is in the list twice.
pub open spec fn distinct_texts(texts: Seq<String>) -> bool {
    forall|i: int, j: int|
        0 <= i < j < texts.len() ==> (#[trigger] texts[i])@ != (#[trigger] texts[j])@
}

/// Whether a text is in the list.
pub fn holds_text(texts: &Vec<String>, text: &str) -> (r: bool)
    ensures
        r == has_text(texts@, text@),
        r == listed(texts@).contains(text@),
{
    let mut i: usize = 0;
    while i < texts.len()
        invariant
            i <= texts.len(),
            forall|k: int| 0 <= k < i ==> (#[trigger] texts@[k])@ != text@,
        decreases texts.len() - i,
    {
        if text_eq(texts[i].as_str(), text) {
            assert(texts@[i as int]@ == text@);
            return true;
        }
        i = i + 1;
    }
    false
}

/// Puts a text into a list that does not hold it yet.
pub fn add_text(texts: &mut Vec<String>, text: String)
    requires
        distinct_texts(old(texts)@),
        !has_text(old(texts)@, text@),
    ensures
        distinct_texts(final(texts)@),
        final(texts)@ == old(texts)@.push(text),
        listed(final(texts)@) == listed(old(texts)@).insert(text@),
{
    let ghost before = texts@;
    texts.push(text);
    proof {
        assert forall|t: Seq<char>| has_text(texts@, t) <==> has_text(before, t) || t == text@ by {
            if has_text(before, t) {
                let i = choose|i: int| 0 <= i < before.len() && (#[trigger] before[i])@ == t;
                assert(texts@[i]@ == t);
            }
            if has_text(texts@, t) && t != text@ {
                let i = choose|i: int| 0 <= i < texts@.len() && (#[trigger] texts@[i])@ == t;
                assert(before[i]@ == t);
            }
            assert(texts@[before.len() as int]@ == text@);
        }
        assert(listed(texts@) =~= listed(before).insert(text@));
    }
}

/// Takes a text out of a list, if it is there.
pub fn remove_text(texts: &mut Vec<String>, text: &str)
    requires
        distinct_texts(old(texts)@),
    ensures
        distinct_texts(final(texts)@),
        listed(final(texts)@) == listed(old(texts)@).remove(text@),
        final(texts)@.len() <= old(texts)@.len(),
{
    let ghost before = texts@;
    let mut i: usize = 0;
    while i < texts.len()
        invariant
            i <= texts.len(),
            texts@ == before,
            distinct_texts(before),
            before == old(texts)@,
            forall|k: int| 0 <= k < i ==> (#[trigger] before[k])@ != text@,
        decreases texts.len() - i,
    {
        if text_eq(texts[i].as_str(), text) {
            texts.remove(i);
            proof {
                let gone = i as int;
                assert(texts@ =~= before.remove(gone));
                assert forall|t: Seq<char>| has_text(texts@, t) <==> has_text(before, t) && t
                    != text@ by {
                    if has_text(texts@, t) {
                        let k = choose|k: int| 0 <= k < texts@.len() && (#[trigger] texts@[k])@ == t;
                        let at = if k < gone { k } else { k + 1 };
                        assert(before[at]@ == t);
                        assert(before[gone]@ != before[at]@);
                    }
                    if has_text(before, t) && t != text@ {
                        let k = choose|k: int| 0 <= k < before.len() && (#[trigger] before[k])@ == t;
                        let at = if k < gone { k } else { k - 1 };
                        assert(texts@[at]@ == t);
                    }
                }
                assert(listed(texts@) =~= listed(before).remove(text@));
            }
            return;
        }
        i = i + 1;
    }
    assert(listed(texts@) =~= listed(before).remove(text@));
}

} // verus!
