use vstd::prelude::*;
use vstd::string::*;

verus! {

/// Whether `c` has the Unicode `White_Space` property.
pub open spec fn is_white_space(c: char) -> bool {
    ||| ('\u{9}' <= c <= '\u{d}')
    ||| c == ' '
    ||| c == '\u{85}'
    ||| c == '\u{a0}'
    ||| c == '\u{1680}'
    ||| ('\u{2000}' <= c <= '\u{200a}')
    ||| c == '\u{2028}'
    ||| c == '\u{2029}'
    ||| c == '\u{202f}'
    ||| c == '\u{205f}'
    ||| c == '\u{3000}'
}

/// Returns whether `c` has the Unicode `White_Space` property.
pub fn white_space(c: char) -> (ws: bool)
    ensures
        ws == is_white_space(c),
{
    ('\u{9}' <= c && c <= '\u{d}') || c == ' ' || c == '\u{85}' || c == '\u{a0}' || c == '\u{1680}'
        || ('\u{2000}' <= c && c <= '\u{200a}') || c == '\u{2028}' || c == '\u{2029}'
        || c == '\u{202f}' || c == '\u{205f}' || c == '\u{3000}'
}

/// Whether every character of `s` is white space, so that trimming leaves nothing.
pub open spec fn is_blank(s: Seq<char>) -> bool {
    forall|i: int| 0 <= i < s.len() ==> is_white_space(#[trigger] s[i])
}

/// Whether trimming white space from both ends leaves `s` unchanged.
pub open spec fn is_trimmed(s: Seq<char>) -> bool {
    s.len() == 0 || (!is_white_space(s[0]) && !is_white_space(s.last()))
}

/// Returns whether every character of `s` is white space.
pub fn blank(s: &str) -> (result: bool)
    ensures
        result == is_blank(s@),
{
    let n = s.unicode_len();
    let mut i: usize = 0;
    while i < n
        invariant
            n == s@.len(),
            i <= n,
            forall|j: int| 0 <= j < i ==> is_white_space(#[trigger] s@[j]),
        decreases n - i,
    {
        if !white_space(s.get_char(i)) {
            return false;
        }
        i = i + 1;
    }
    true
}

/// Returns whether trimming white space from both ends leaves `s` unchanged.
pub fn trimmed(s: &str) -> (result: bool)
    ensures
        result == is_trimmed(s@),
{
    let n = s.unicode_len();
    if n == 0 {
        return true;
    }
    !white_space(s.get_char(0)) && !white_space(s.get_char(n - 1))
}

/// Whether a byte is an ASCII control character.
pub open spec fn is_ascii_control(b: u8) -> bool {
    b <= 0x1f || b == 0x7f
}

/// Returns whether any byte of the UTF-8 encoding of `s` is an ASCII control character.
pub fn has_ascii_control(s: &str) -> (result: bool)
    ensures
        result == exists|i: int| 0 <= i < s.spec_bytes().len() && is_ascii_control(#[trigger] s.spec_bytes()[i]),
{
    let bytes = s.as_bytes();
    let mut i: usize = 0;
    while i < bytes.len()
        invariant
            bytes@ == s.spec_bytes(),
            i <= bytes@.len(),
            forall|j: int| 0 <= j < i ==> !is_ascii_control(#[trigger] bytes@[j]),
        decreases bytes@.len() - i,
    {
        if bytes[i] <= 0x1f || bytes[i] == 0x7f {
            assert(is_ascii_control(bytes@[i as int]));
            return true;
        }
        i = i + 1;
    }
    false
}

/// The pieces of `s` between occurrences of `separator`, in order; a string without
/// the separator is one piece, and adjacent separators produce empty pieces.
pub open spec fn split_on(s: Seq<char>, separator: char) -> Seq<Seq<char>>
    decreases s.len(),
{
    if s.len() == 0 {
        seq![Seq::empty()]
    } else {
        let pieces = split_on(s.drop_last(), separator);
        if s.last() == separator {
            pieces.push(Seq::empty())
        } else {
            pieces.update(pieces.len() - 1, pieces.last().push(s.last()))
        }
    }
}

/// Splitting always yields at least one piece.
pub proof fn lemma_split_nonempty(s: Seq<char>, separator: char)
    ensures
        split_on(s, separator).len() >= 1,
    decreases s.len(),
{
    if s.len() > 0 {
        lemma_split_nonempty(s.drop_last(), separator);
    }
}

/// Splits `s` at every `separator`.
pub fn split(s: &str, separator: char) -> (pieces: Vec<String>)
    ensures
        pieces@.map_values(|p: String| p@) == split_on(s@, separator),
{
    let n = s.unicode_len();
    let mut pieces: Vec<String> = Vec::new();
    let mut start: usize = 0;
    let mut i: usize = 0;
    proof {
        assert(s@.subrange(0, 0) =~= Seq::<char>::empty());
        assert(pieces@.map_values(|p: String| p@).push(s@.subrange(0, 0)) =~= seq![Seq::<char>::empty()]);
    }
    while i < n
        invariant
            n == s@.len(),
            start <= i <= n,
            split_on(s@.subrange(0, i as int), separator)
                == pieces@.map_values(|p: String| p@).push(s@.subrange(start as int, i as int)),
        decreases n - i,
    {
        proof {
            lemma_split_nonempty(s@.subrange(0, i as int), separator);
            assert(s@.subrange(0, i + 1).drop_last() =~= s@.subrange(0, i as int));
        }
        let c = s.get_char(i);
        if c == separator {
            let piece = s.substring_char(start, i).to_owned();
            let ghost before = pieces@.map_values(|p: String| p@);
            pieces.push(piece);
            proof {
                assert(pieces@.map_values(|p: String| p@) =~= before.push(s@.subrange(start as int, i as int)));
                assert(s@.subrange((i + 1) as int, (i + 1) as int) =~= Seq::<char>::empty());
            }
            start = i + 1;
        } else {
            proof {
                assert(s@.subrange(start as int, i + 1) =~= s@.subrange(start as int, i as int).push(c));
            }
        }
        i = i + 1;
    }
    let last = s.substring_char(start, n).to_owned();
    let ghost before = pieces@.map_values(|p: String| p@);
    pieces.push(last);
    proof {
        assert(s@.subrange(0, n as int) =~= s@);
        assert(pieces@.map_values(|p: String| p@) =~= before.push(s@.subrange(start as int, n as int)));
    }
    pieces
}

} // verus!
