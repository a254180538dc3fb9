//! Transliteration of Serbian Latin text into Serbian Cyrillic.
//!
//! The engine consumes a sequence of Unicode grapheme clusters, resolves
//! two-letter digraphs (lj, nj, dž) with one grapheme of lookahead, decodes
//! precomposed digraph codepoints (ǉ, ǌ, ǆ, ...), applies the legacy
//! "dj" spelling of "đ", and emits for each logical letter a pair of the
//! original spelling and its Cyrillic transliteration.

pub mod laws;
pub mod tables;
pub mod transcoder;
pub mod unicode;
