//! Laws of the engine, stated over the normalized text that the resolver
//! works on and proved once for all inputs.

use crate::tables::{composite_spelling, is_digraph_starter, latin_to_cyrillic};
use crate::transcoder::{grapheme_of, peek_model, run_spec, step_spec, ItemModel};
use crate::unicode::nfc_of;
use vstd::prelude::*;

verus! {

/// Law: a single-letter key of the Lookup Table, transliterated alone (no
/// lookahead available), yields exactly the mapped Cyrillic letter, and the
/// original spelling is the input itself.
pub proof fn lemma_single_letter_key(s: Seq<char>)
    requires
        s.len() == 1,
        latin_to_cyrillic(s) is Some,
    ensures
        step_spec(s, None) == (s, seq![latin_to_cyrillic(s).unwrap()], false),
{
    assert(composite_spelling(s) is None);
}

/// Law: a digraph-opening letter followed by a folded second letter that
/// together form a digraph key of the Lookup Table consumes both graphemes
/// and yields the single mapped Cyrillic letter; the original spelling is
/// the digraph itself (first letter as written, second letter as folded),
/// so it equals the input wherever the second letter was already lower
/// case.
pub proof fn lemma_digraph_key(first: Seq<char>, folded: Seq<char>)
    requires
        first.len() == 1,
        folded.len() == 1,
        latin_to_cyrillic(first + folded) is Some,
    ensures
        step_spec(first, Some(folded)) == (
            first + folded,
            seq![latin_to_cyrillic(first + folded).unwrap()],
            true,
        ),
{
    let digraph = first + folded;
    assert(digraph.len() == 2);
    assert(digraph[0] == first[0] && digraph[1] == folded[0]);
    assert(is_digraph_starter(first));
    assert(composite_spelling(first) is None);
    assert(digraph != seq!['D', 'j'] && digraph != seq!['d', 'j']) by {
        if digraph == seq!['D', 'j'] || digraph == seq!['d', 'j'] {
            assert(digraph[0] == 'D' || digraph[0] == 'd');
            assert(digraph[1] == 'j');
        }
    }
}

/// A normalized grapheme that the engine passes through unchanged: it is
/// neither a key of the Lookup Table nor of the Composite Map, and it
/// cannot open a digraph.
pub open spec fn passes_through(g: Seq<char>) -> bool {
    &&& composite_spelling(g) is None
    &&& latin_to_cyrillic(g) is None
    &&& !is_digraph_starter(g)
}

/// Law: a source whose graphemes all normalize to spellings outside the
/// Lookup Table and the Composite Map — already-Cyrillic text, digits,
/// punctuation, whitespace — is passed through unchanged: the run reports
/// no failure and emits one pair per grapheme, each the normalized
/// grapheme twice.
pub proof fn lemma_cyrillic_passes_through(items: Seq<ItemModel>)
    requires
        forall|i: int|
            0 <= i < items.len() ==> items[i] is Grapheme && passes_through(
                nfc_of(grapheme_of(items[i])),
            ),
    ensures
        run_spec(items).1 == false,
        run_spec(items).0.len() == items.len(),
        forall|i: int|
            0 <= i < items.len() ==> run_spec(items).0[i] == (
                nfc_of(grapheme_of(items[i])),
                nfc_of(grapheme_of(items[i])),
            ),
    decreases items.len(),
{
    if items.len() > 0 {
        let g = grapheme_of(items[0]);
        let latin = nfc_of(g);
        assert(step_spec(latin, peek_model(items)) == (latin, latin, false));
        let rest = items.skip(1);
        assert(forall|i: int|
            0 <= i < rest.len() ==> rest[i] is Grapheme && passes_through(
                nfc_of(grapheme_of(rest[i])),
            ));
        lemma_cyrillic_passes_through(rest);
        assert(run_spec(items).0 == seq![(latin, latin)] + run_spec(rest).0);
        assert(forall|i: int|
            0 <= i < items.len() ==> run_spec(items).0[i] == (
                nfc_of(grapheme_of(items[i])),
                nfc_of(grapheme_of(items[i])),
            ));
    }
}

} // verus!
