//! The lookup table of the Serbian alphabet and the map of precomposed
//! digraph codepoints, as specification functions over characters, with
//! verified executable lookups beside them.
//!
//! Keys and values are stated here in Unicode Normalization Form C: every
//! key is either a single precomposed codepoint or a two-codepoint digraph
//! of precomposed letters, so a normalized grapheme can be compared against
//! them character by character.

use vstd::prelude::*;

verus! {

/// The Cyrillic letter for a single-letter key of the Lookup Table,
/// or `None` when the character is not a key.
pub open spec fn single_to_cyrillic(c: char) -> Option<char> {
    if c == 'A' {
        Some('А')
    } else if c == 'a' {
        Some('а')
    } else if c == 'B' {
        Some('Б')
    } else if c == 'b' {
        Some('б')
    } else if c == 'V' {
        Some('В')
    } else if c == 'v' {
        Some('в')
    } else if c == 'G' {
        Some('Г')
    } else if c == 'g' {
        Some('г')
    } else if c == 'D' {
        Some('Д')
    } else if c == 'd' {
        Some('д')
    } else if c == 'Đ' {
        Some('Ђ')
    } else if c == 'đ' {
        Some('ђ')
    } else if c == 'E' {
        Some('Е')
    } else if c == 'e' {
        Some('е')
    } else if c == 'Ž' {
        Some('Ж')
    } else if c == 'ž' {
        Some('ж')
    } else if c == 'Z' {
        Some('З')
    } else if c == 'z' {
        Some('з')
    } else if c == 'I' {
        Some('И')
    } else if c == 'i' {
        Some('и')
    } else if c == 'J' {
        Some('Ј')
    } else if c == 'j' {
        Some('ј')
    } else if c == 'K' {
        Some('К')
    } else if c == 'k' {
        Some('к')
    } else if c == 'L' {
        Some('Л')
    } else if c == 'l' {
        Some('л')
    } else if c == 'M' {
        Some('М')
    } else if c == 'm' {
        Some('м')
    } else if c == 'N' {
        Some('Н')
    } else if c == 'n' {
        Some('н')
    } else if c == 'O' {
        Some('О')
    } else if c == 'o' {
        Some('о')
    } else if c == 'P' {
        Some('П')
    } else if c == 'p' {
        Some('п')
    } else if c == 'R' {
        Some('Р')
    } else if c == 'r' {
        Some('р')
    } else if c == 'S' {
        Some('С')
    } else if c == 's' {
        Some('с')
    } else if c == 'T' {
        Some('Т')
    } else if c == 't' {
        Some('т')
    } else if c == 'Ć' {
        Some('Ћ')
    } else if c == 'ć' {
        Some('ћ')
    } else if c == 'U' {
        Some('У')
    } else if c == 'u' {
        Some('у')
    } else if c == 'F' {
        Some('Ф')
    } else if c == 'f' {
        Some('ф')
    } else if c == 'H' {
        Some('Х')
    } else if c == 'h' {
        Some('х')
    } else if c == 'C' {
        Some('Ц')
    } else if c == 'c' {
        Some('ц')
    } else if c == 'Č' {
        Some('Ч')
    } else if c == 'č' {
        Some('ч')
    } else if c == 'Š' {
        Some('Ш')
    } else if c == 'š' {
        Some('ш')
    } else {
        None
    }
}

/// The Cyrillic letter for a two-letter digraph key of the Lookup Table,
/// or `None` when the pair is not a key.
pub open spec fn digraph_to_cyrillic(a: char, b: char) -> Option<char> {
    if a == 'L' && b == 'j' {
        Some('Љ')
    } else if a == 'l' && b == 'j' {
        Some('љ')
    } else if a == 'N' && b == 'j' {
        Some('Њ')
    } else if a == 'n' && b == 'j' {
        Some('њ')
    } else if a == 'D' && b == 'ž' {
        Some('Џ')
    } else if a == 'd' && b == 'ž' {
        Some('џ')
    } else {
        None
    }
}

/// The Lookup Table over whole spellings: the Cyrillic letter for a
/// canonical Latin spelling (single letter or digraph), `None` otherwise.
pub open spec fn latin_to_cyrillic(s: Seq<char>) -> Option<char> {
    if s.len() == 1 {
        single_to_cyrillic(s[0])
    } else if s.len() == 2 {
        digraph_to_cyrillic(s[0], s[1])
    } else {
        None
    }
}

/// The Composite Map: the two-letter digraph spelling of a precomposed
/// digraph codepoint, or `None` when the character is not such a codepoint.
pub open spec fn composite_expansion(c: char) -> Option<(char, char)> {
    if c == 'Ǆ' {
        Some(('D', 'ž'))
    } else if c == 'ǅ' {
        Some(('D', 'ž'))
    } else if c == 'ǆ' {
        Some(('d', 'ž'))
    } else if c == 'Ǉ' {
        Some(('L', 'j'))
    } else if c == 'ǈ' {
        Some(('L', 'j'))
    } else if c == 'ǉ' {
        Some(('l', 'j'))
    } else if c == 'Ǌ' {
        Some(('N', 'j'))
    } else if c == 'ǋ' {
        Some(('N', 'j'))
    } else if c == 'ǌ' {
        Some(('n', 'j'))
    } else {
        None
    }
}

/// The Composite Map over whole graphemes: only a grapheme that is exactly
/// one precomposed digraph codepoint has an expansion.
pub open spec fn composite_spelling(s: Seq<char>) -> Option<Seq<char>> {
    if s.len() == 1 {
        match composite_expansion(s[0]) {
            Some(p) => Some(seq![p.0, p.1]),
            None => None,
        }
    } else {
        None
    }
}

/// A normalized grapheme that may open a digraph: exactly one of the
/// letters D, d, L, l, N, n.
pub open spec fn is_digraph_starter(s: Seq<char>) -> bool {
    s.len() == 1 && (s[0] == 'D' || s[0] == 'd' || s[0] == 'L' || s[0] == 'l' || s[0] == 'N'
        || s[0] == 'n')
}

/// Verified lookup of a single-letter key.
pub fn cyrillic_of_single(c: char) -> (r: Option<char>)
    ensures
        r == single_to_cyrillic(c),
{
    match c {
        'A' => Some('А'),
        'a' => Some('а'),
        'B' => Some('Б'),
        'b' => Some('б'),
        'V' => Some('В'),
        'v' => Some('в'),
        'G' => Some('Г'),
        'g' => Some('г'),
        'D' => Some('Д'),
        'd' => Some('д'),
        'Đ' => Some('Ђ'),
        'đ' => Some('ђ'),
        'E' => Some('Е'),
        'e' => Some('е'),
        'Ž' => Some('Ж'),
        'ž' => Some('ж'),
        'Z' => Some('З'),
        'z' => Some('з'),
        'I' => Some('И'),
        'i' => Some('и'),
        'J' => Some('Ј'),
        'j' => Some('ј'),
        'K' => Some('К'),
        'k' => Some('к'),
        'L' => Some('Л'),
        'l' => Some('л'),
        'M' => Some('М'),
        'm' => Some('м'),
        'N' => Some('Н'),
        'n' => Some('н'),
        'O' => Some('О'),
        'o' => Some('о'),
        'P' => Some('П'),
        'p' => Some('п'),
        'R' => Some('Р'),
        'r' => Some('р'),
        'S' => Some('С'),
        's' => Some('с'),
        'T' => Some('Т'),
        't' => Some('т'),
        'Ć' => Some('Ћ'),
        'ć' => Some('ћ'),
        'U' => Some('У'),
        'u' => Some('у'),
        'F' => Some('Ф'),
        'f' => Some('ф'),
        'H' => Some('Х'),
        'h' => Some('х'),
        'C' => Some('Ц'),
        'c' => Some('ц'),
        'Č' => Some('Ч'),
        'č' => Some('ч'),
        'Š' => Some('Ш'),
        'š' => Some('ш'),
        _ => None,
    }
}

/// Verified lookup of a two-letter digraph key.
pub fn cyrillic_of_digraph(a: char, b: char) -> (r: Option<char>)
    ensures
        r == digraph_to_cyrillic(a, b),
{
    if b == 'j' {
        match a {
            'L' => Some('Љ'),
            'l' => Some('љ'),
            'N' => Some('Њ'),
            'n' => Some('њ'),
            _ => None,
        }
    } else if b == 'ž' {
        match a {
            'D' => Some('Џ'),
            'd' => Some('џ'),
            _ => None,
        }
    } else {
        None
    }
}

/// Verified lookup in the Composite Map.
pub fn expansion_of_composite(c: char) -> (r: Option<(char, char)>)
    ensures
        r == composite_expansion(c),
{
    match c {
        'Ǆ' => Some(('D', 'ž')),
        'ǅ' => Some(('D', 'ž')),
        'ǆ' => Some(('d', 'ž')),
        'Ǉ' => Some(('L', 'j')),
        'ǈ' => Some(('L', 'j')),
        'ǉ' => Some(('l', 'j')),
        'Ǌ' => Some(('N', 'j')),
        'ǋ' => Some(('N', 'j')),
        'ǌ' => Some(('n', 'j')),
        _ => None,
    }
}

} // verus!
