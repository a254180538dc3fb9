//! The transcoding engine: a pull-based pass over a sequence of grapheme
//! clusters that resolves digraphs with one grapheme of lookahead, decodes
//! precomposed digraph codepoints, applies the legacy "dj" spelling of "đ",
//! and emits for each logical letter the pair of its original spelling and
//! its Cyrillic transliteration.

use crate::tables::{
    composite_spelling, cyrillic_of_digraph, cyrillic_of_single, expansion_of_composite,
    is_digraph_starter, latin_to_cyrillic,
};
use crate::unicode::{char_to_string, lower_of, lowercase, nfc_of, nfc_str};
use vstd::prelude::*;
use vstd::string::StrSliceExecFns;
use vstd::string::StringExecFns;

verus! {

/// One element handed to the engine by the grapheme source: either a
/// grapheme cluster, or the place where the source failed to read.
pub enum SourceItem {
    Grapheme(String),
    Failure,
}

/// The mathematical model of a source element.
pub enum ItemModel {
    Grapheme(Seq<char>),
    Failure,
}

impl View for SourceItem {
    type V = ItemModel;

    open spec fn view(&self) -> ItemModel {
        match self {
            SourceItem::Grapheme(s) => ItemModel::Grapheme(s@),
            SourceItem::Failure => ItemModel::Failure,
        }
    }
}

/// The grapheme carried by a source element; the empty sequence for a failure.
pub open spec fn grapheme_of(item: ItemModel) -> Seq<char> {
    match item {
        ItemModel::Grapheme(g) => g,
        ItemModel::Failure => Seq::empty(),
    }
}

/// The models of a sequence of source elements.
pub open spec fn models(items: Seq<SourceItem>) -> Seq<ItemModel> {
    items.map_values(|item: SourceItem| item@)
}

/// The error the engine reports where the source failed: exactly one kind
/// exists. The platform error stays with the caller that owns the source.
#[derive(Debug)]
pub struct SourceFailure {}

/// Resolution of one step, on already normalized text: `latin` is the
/// current grapheme in NFC, `peek` the next grapheme in NFC and lower-cased
/// (`None` where the source is exhausted or the lookahead read failed).
/// Yields the original spelling, the spelling to look up, and whether the
/// peeked grapheme was consumed.
pub open spec fn resolve_spec(latin: Seq<char>, peek: Option<Seq<char>>) -> (Seq<char>, Seq<
    char,
>, bool) {
    match composite_spelling(latin) {
        Some(expansion) => (latin, expansion, false),
        None => {
            if is_digraph_starter(latin) && peek is Some {
                let digraph = latin + peek.unwrap();
                if digraph == seq!['D', 'j'] {
                    (digraph, seq!['Đ'], true)
                } else if digraph == seq!['d', 'j'] {
                    (digraph, seq!['đ'], true)
                } else if latin_to_cyrillic(digraph) is Some {
                    (digraph, digraph, true)
                } else {
                    (latin, latin, false)
                }
            } else {
                (latin, latin, false)
            }
        },
    }
}

/// The final table lookup of one step: a spelling that is a key of the
/// Lookup Table becomes its Cyrillic letter, anything else passes through.
pub open spec fn emit_spec(modified: Seq<char>) -> Seq<char> {
    match latin_to_cyrillic(modified) {
        Some(c) => seq![c],
        None => modified,
    }
}

/// One whole step of the engine on normalized text: resolution followed by
/// the final lookup.
pub open spec fn step_spec(latin: Seq<char>, peek: Option<Seq<char>>) -> (Seq<char>, Seq<
    char,
>, bool) {
    let (original, modified, consumed) = resolve_spec(latin, peek);
    (original, emit_spec(modified), consumed)
}

/// The lookahead the engine sees over the remaining source elements: the
/// next grapheme, normalized and lower-cased; `None` where there is none or
/// where reading it failed.
pub open spec fn peek_model(items: Seq<ItemModel>) -> Option<Seq<char>> {
    if items.len() >= 2 {
        match items[1] {
            ItemModel::Grapheme(g) => Some(lower_of(nfc_of(g))),
            ItemModel::Failure => None,
        }
    } else {
        None
    }
}

/// The whole run of the engine over the remaining source elements: the
/// emitted pairs (original spelling, transliteration), and whether the run
/// ends in a source failure. A failure terminates the run.
pub open spec fn run_spec(items: Seq<ItemModel>) -> (Seq<(Seq<char>, Seq<char>)>, bool)
    decreases items.len(),
{
    if items.len() == 0 {
        (Seq::empty(), false)
    } else {
        match items[0] {
            ItemModel::Failure => (Seq::empty(), true),
            ItemModel::Grapheme(g) => {
                let (original, translit, consumed) = step_spec(nfc_of(g), peek_model(items));
                let rest = run_spec(items.skip(if consumed { 2int } else { 1int }));
                (seq![(original, translit)] + rest.0, rest.1)
            },
        }
    }
}

/// The view of an `Option<&str>` argument.
pub open spec fn peek_view(peek: Option<&str>) -> Option<Seq<char>> {
    match peek {
        Some(p) => Some(p@),
        None => None,
    }
}

/// Verified lookup of a whole spelling in the Lookup Table.
pub fn lookup_spelling(s: &str) -> (r: Option<char>)
    ensures
        r == latin_to_cyrillic(s@),
{
    let n = s.unicode_len();
    if n == 1 {
        cyrillic_of_single(s.get_char(0))
    } else if n == 2 {
        cyrillic_of_digraph(s.get_char(0), s.get_char(1))
    } else {
        None
    }
}

/// Whether a normalized grapheme is exactly one of the letters that may
/// open a digraph.
pub fn is_starter(s: &str) -> (r: bool)
    ensures
        r == is_digraph_starter(s@),
{
    if s.unicode_len() == 1 {
        let c = s.get_char(0);
        c == 'D' || c == 'd' || c == 'L' || c == 'l' || c == 'N' || c == 'n'
    } else {
        false
    }
}

/// The resolution of one step on normalized text, executably: see
/// `resolve_spec`.
fn resolve_part(latin: &str, peek: Option<&str>) -> (r: (String, String, bool))
    ensures
        (r.0@, r.1@, r.2) == resolve_spec(latin@, peek_view(peek)),
{
    if latin.unicode_len() == 1 {
        if let Some(pair) = expansion_of_composite(latin.get_char(0)) {
            let first = char_to_string(pair.0);
            let second = char_to_string(pair.1);
            let expansion = first.concat(second.as_str());
            proof {
                assert(expansion@ =~= seq![pair.0, pair.1]);
            }
            return (String::from_str(latin), expansion, false);
        }
    }
    if is_starter(latin) {
        if let Some(p) = peek {
            let digraph = String::from_str(latin).concat(p);
            let n = digraph.as_str().unicode_len();
            if n == 2 {
                let a = digraph.as_str().get_char(0);
                let b = digraph.as_str().get_char(1);
                if a == 'D' && b == 'j' {
                    proof {
                        assert(digraph@ =~= seq!['D', 'j']);
                    }
                    return (digraph, char_to_string('Đ'), true);
                }
                if a == 'd' && b == 'j' {
                    proof {
                        assert(digraph@ =~= seq!['d', 'j']);
                    }
                    return (digraph, char_to_string('đ'), true);
                }
            }
            proof {
                assert(digraph@ != seq!['D', 'j'] && digraph@ != seq!['d', 'j']) by {
                    if digraph@ == seq!['D', 'j'] || digraph@ == seq!['d', 'j'] {
                        assert(digraph@.len() == 2);
                        assert(digraph@[0] == 'D' || digraph@[0] == 'd');
                        assert(digraph@[1] == 'j');
                    }
                }
            }
            match lookup_spelling(digraph.as_str()) {
                Some(_) => {
                    return (digraph.clone(), digraph, true);
                },
                None => {
                    return (String::from_str(latin), String::from_str(latin), false);
                },
            }
        }
    }
    (String::from_str(latin), String::from_str(latin), false)
}

/// One whole step of the engine on normalized text: `latin` is the current
/// grapheme in NFC, `peek` the lookahead grapheme in NFC and lower-cased.
/// Returns the original spelling, its transliteration, and whether the
/// lookahead grapheme was consumed.
pub fn resolve_step(latin: &str, peek: Option<&str>) -> (r: (String, String, bool))
    ensures
        (r.0@, r.1@, r.2) == step_spec(latin@, peek_view(peek)),
{
    let (original, modified, consumed) = resolve_part(latin, peek);
    match lookup_spelling(modified.as_str()) {
        Some(c) => (original, char_to_string(c), consumed),
        None => (original, modified, consumed),
    }
}

/// The transcoding engine: one pass over a sequence of source elements,
/// pulled one transliterated unit at a time. Its view is the sequence of
/// models of the elements not yet consumed; after a failure is reported
/// the view is empty and no further unit is produced.
pub struct Transcoder {
    items: Vec<SourceItem>,
    pos: usize,
    done: bool,
}

impl View for Transcoder {
    type V = Seq<ItemModel>;

    closed spec fn view(&self) -> Seq<ItemModel> {
        if self.done {
            Seq::empty()
        } else {
            models(self.items@).skip(self.pos as int)
        }
    }
}

impl Transcoder {
    #[verifier::type_invariant]
    closed spec fn type_inv(self) -> bool {
        self.pos <= self.items@.len()
    }

    /// An engine over the given source elements, its cursor at the first.
    pub fn from(items: Vec<SourceItem>) -> (t: Transcoder)
        ensures
            t@ == models(items@),
    {
        let t = Transcoder { items, pos: 0, done: false };
        proof {
            assert(t@ =~= models(t.items@));
        }
        t
    }

    /// Whether another pull will produce a unit.
    pub fn has_next(&self) -> (r: bool)
        ensures
            r == (self@.len() > 0),
    {
        proof {
            use_type_invariant(&*self);
        }
        !self.done && self.pos < self.items.len()
    }

    /// Produce the next transliterated unit: the pair of original spelling
    /// and transliteration, a failure where the source failed, or `None`
    /// where the sequence is exhausted. The pairs of a whole run and its
    /// failure are `run_spec` of the remaining elements; one pull splits
    /// off the first pair.
    pub fn next(&mut self) -> (r: Option<Result<(String, String), SourceFailure>>)
        ensures
            r is None <==> old(self)@.len() == 0,
            r is None ==> final(self)@ == old(self)@,
            (match r {
                None => true,
                Some(Ok(p)) => {
                    &&& old(self)@[0] is Grapheme
                    &&& run_spec(old(self)@).0 == seq![(p.0@, p.1@)] + run_spec(final(self)@).0
                    &&& run_spec(old(self)@).1 == run_spec(final(self)@).1
                    &&& final(self)@.len() < old(self)@.len()
                },
                Some(Err(_)) => {
                    &&& old(self)@[0] is Failure
                    &&& run_spec(old(self)@).0.len() == 0
                    &&& run_spec(old(self)@).1 == true
                    &&& final(self)@.len() == 0
                },
            }),
    {
        proof {
            use_type_invariant(&*self);
        }
        if self.done || self.pos >= self.items.len() {
            proof {
                assert(self@.len() == 0);
            }
            return None;
        }
        let ghost prev = self@;
        proof {
            assert(prev[0] == self.items@[self.pos as int]@);
        }
        let g: String = match &self.items[self.pos] {
            SourceItem::Failure => {
                self.done = true;
                return Some(Err(SourceFailure {}));
            },
            SourceItem::Grapheme(s) => s.clone(),
        };
        let latin = nfc_str(g.as_str());
        let next_pos = self.pos + 1;
        let peek_folded: Option<String> = if next_pos < self.items.len() {
            proof {
                assert(prev[1] == self.items@[next_pos as int]@);
            }
            match &self.items[next_pos] {
                SourceItem::Grapheme(p) => {
                    let normalized = nfc_str(p.as_str());
                    Some(lowercase(normalized.as_str()))
                },
                SourceItem::Failure => None,
            }
        } else {
            None
        };
        proof {
            assert(peek_model(prev) == (match peek_folded {
                Some(f) => Some(f@),
                None => None,
            }));
        }
        let step = match &peek_folded {
            Some(f) => resolve_step(latin.as_str(), Some(f.as_str())),
            None => resolve_step(latin.as_str(), None),
        };
        let consumed = step.2;
        if consumed {
            self.pos = self.pos + 2;
        } else {
            self.pos = self.pos + 1;
        }
        proof {
            let k: int = if consumed { 2 } else { 1 };
            assert(self@ =~= prev.skip(k));
        }
        Some(Ok((step.0, step.1)))
    }
}

/// The models of a sequence of emitted pairs.
pub open spec fn pair_models(pairs: Seq<(String, String)>) -> Seq<(Seq<char>, Seq<char>)> {
    pairs.map_values(|p: (String, String)| (p.0@, p.1@))
}

/// The concatenation of the original spellings of a sequence of pairs.
pub open spec fn originals_of(pairs: Seq<(Seq<char>, Seq<char>)>) -> Seq<char>
    decreases pairs.len(),
{
    if pairs.len() == 0 {
        Seq::empty()
    } else {
        pairs[0].0 + originals_of(pairs.skip(1))
    }
}

/// The concatenation of the transliterations of a sequence of pairs.
pub open spec fn translits_of(pairs: Seq<(Seq<char>, Seq<char>)>) -> Seq<char>
    decreases pairs.len(),
{
    if pairs.len() == 0 {
        Seq::empty()
    } else {
        pairs[0].1 + translits_of(pairs.skip(1))
    }
}

/// Drain a whole source into the sequence of emitted pairs, stopping at
/// the first source failure, which is reported, never discarded.
pub fn transcode_pairs(items: Vec<SourceItem>) -> (r: Result<Vec<(String, String)>, SourceFailure>)
    ensures
        (match r {
            Ok(pairs) => {
                &&& run_spec(models(items@)).1 == false
                &&& pair_models(pairs@) == run_spec(models(items@)).0
            },
            Err(_) => run_spec(models(items@)).1 == true,
        }),
{
    let ghost full = models(items@);
    let mut engine = Transcoder::from(items);
    let mut pairs: Vec<(String, String)> = Vec::new();
    while engine.has_next()
        invariant
            full == models(items@),
            pair_models(pairs@) + run_spec(engine@).0 == run_spec(full).0,
            run_spec(engine@).1 == run_spec(full).1,
        decreases engine@.len(),
    {
        let ghost before = pairs@;
        match engine.next() {
            Some(Ok(p)) => {
                let ghost pv = (p.0@, p.1@);
                pairs.push(p);
                proof {
                    assert(pair_models(pairs@) =~= pair_models(before) + seq![pv]);
                    assert(pair_models(pairs@) + run_spec(engine@).0 =~= pair_models(before) + (
                    seq![pv] + run_spec(engine@).0));
                }
            },
            Some(Err(failure)) => {
                return Err(failure);
            },
            None => {
                proof {
                    assert(false);
                }
                return Err(SourceFailure {});
            },
        }
    }
    proof {
        assert(pair_models(pairs@) + run_spec(engine@).0 =~= pair_models(pairs@));
    }
    Ok(pairs)
}

/// Drain a whole source into two strings: every original spelling
/// concatenated, and every transliteration concatenated, stopping at the
/// first source failure, which is reported, never discarded.
pub fn transcode_to_strings(items: Vec<SourceItem>) -> (r: Result<(String, String), SourceFailure>)
    ensures
        (match r {
            Ok(out) => {
                &&& run_spec(models(items@)).1 == false
                &&& out.0@ == originals_of(run_spec(models(items@)).0)
                &&& out.1@ == translits_of(run_spec(models(items@)).0)
            },
            Err(_) => run_spec(models(items@)).1 == true,
        }),
{
    let ghost full = models(items@);
    let pairs: Vec<(String, String)> = match transcode_pairs(items) {
        Ok(pairs) => pairs,
        Err(failure) => {
            return Err(failure);
        },
    };
    let ghost emitted = pair_models(pairs@);
    let mut originals = String::new();
    let mut translits = String::new();
    let mut i: usize = 0;
    proof {
        assert(emitted.skip(0) =~= emitted);
        assert(Seq::<char>::empty() + originals_of(emitted) =~= originals_of(emitted));
        assert(Seq::<char>::empty() + translits_of(emitted) =~= translits_of(emitted));
    }
    while i < pairs.len()
        invariant
            i <= pairs.len(),
            emitted == pair_models(pairs@),
            emitted == run_spec(full).0,
            originals@ + originals_of(emitted.skip(i as int)) == originals_of(emitted),
            translits@ + translits_of(emitted.skip(i as int)) == translits_of(emitted),
        decreases pairs.len() - i,
    {
        let ghost before_o = originals@;
        let ghost before_t = translits@;
        originals.append(pairs[i].0.as_str());
        translits.append(pairs[i].1.as_str());
        proof {
            let rest = emitted.skip(i as int);
            assert(rest[0] == emitted[i as int]);
            assert(rest.skip(1) =~= emitted.skip(i + 1));
            assert(originals@ + originals_of(emitted.skip(i + 1)) =~= before_o + (rest[0].0
                + originals_of(rest.skip(1))));
            assert(translits@ + translits_of(emitted.skip(i + 1)) =~= before_t + (rest[0].1
                + translits_of(rest.skip(1))));
        }
        i = i + 1;
    }
    proof {
        assert(emitted.skip(pairs@.len() as int) =~= Seq::<(Seq<char>, Seq<char>)>::empty());
        assert(originals@ + originals_of(emitted.skip(pairs@.len() as int)) =~= originals@);
        assert(translits@ + translits_of(emitted.skip(pairs@.len() as int)) =~= translits@);
    }
    Ok((originals, translits))
}

} // verus!
