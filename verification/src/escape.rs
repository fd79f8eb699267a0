//! HTML entity encoding, done by the `htmlescape` crate, with what it
//! returns stated character by character.

use vstd::prelude::*;

verus! {

/// What the minimal encoding writes for one character: an entity for the
/// five characters `"`, `&`, `'`, `<` and `>`, the character itself for
/// every other.
pub open spec fn minimal_entity(c: char) -> Seq<char> {
    if c == '"' {
        seq!['&', 'q', 'u', 'o', 't', ';']
    } else if c == '&' {
        seq!['&', 'a', 'm', 'p', ';']
    } else if c == '\'' {
        seq!['&', '#', 'x', '2', '7', ';']
    } else if c == '<' {
        seq!['&', 'l', 't', ';']
    } else if c == '>' {
        seq!['&', 'g', 't', ';']
    } else {
        seq![c]
    }
}

/// The minimal encoding of a text: the encodings of its characters, in
/// order.
pub open spec fn minimal_escaped(s: Seq<char>) -> Seq<char>
    decreases s.len(),
{
    if s.len() == 0 {
        Seq::empty()
    } else {
        minimal_escaped(s.drop_last()) + minimal_entity(s.last())
    }
}

/// The upper-case hexadecimal digit of a value below 16.
pub open spec fn hex_digit(d: int) -> char {
    if d == 0 {
        '0'
    } else if d == 1 {
        '1'
    } else if d == 2 {
        '2'
    } else if d == 3 {
        '3'
    } else if d == 4 {
        '4'
    } else if d == 5 {
        '5'
    } else if d == 6 {
        '6'
    } else if d == 7 {
        '7'
    } else if d == 8 {
        '8'
    } else if d == 9 {
        '9'
    } else if d == 10 {
        'A'
    } else if d == 11 {
        'B'
    } else if d == 12 {
        'C'
    } else if d == 13 {
        'D'
    } else if d == 14 {
        'E'
    } else {
        'F'
    }
}

/// The character is an ASCII letter or digit.
pub open spec fn is_ascii_alnum(c: char) -> bool {
    ('a' <= c && c <= 'z') || ('A' <= c && c <= 'Z') || ('0' <= c && c <= '9')
}

/// What the attribute encoding writes for one character: the entity of the
/// minimal encoding where there is one; a two-digit hexadecimal character
/// reference for every other character below 256 that is not an ASCII letter
/// or digit; the character itself otherwise.
pub open spec fn attribute_entity(c: char) -> Seq<char> {
    if c == '"' || c == '&' || c == '\'' || c == '<' || c == '>' {
        minimal_entity(c)
    } else if (c as u32) < 256 && ((c as u32) > 127 || !is_ascii_alnum(c)) {
        seq!['&', '#', 'x', hex_digit((c as u32) as int / 16), hex_digit((c as u32) as int % 16), ';']
    } else {
        seq![c]
    }
}

/// The attribute encoding of a text: the encodings of its characters, in
/// order.
pub open spec fn attribute_escaped(s: Seq<char>) -> Seq<char>
    decreases s.len(),
{
    if s.len() == 0 {
        Seq::empty()
    } else {
        attribute_escaped(s.drop_last()) + attribute_entity(s.last())
    }
}

/// Encodes a text for use as HTML content.
///
/// Trusted: calls `htmlescape::encode_minimal`, which walks the characters
/// of its argument and writes for each the entity that its table of five
/// entries gives, or the character itself.
#[verifier::external_body]
pub(crate) fn encode_minimal(s: &str) -> (out: String)
    ensures
        out@ == minimal_escaped(s@),
{
    htmlescape::encode_minimal(s)
}

/// Encodes a text for use as the value of an HTML attribute.
///
/// Trusted: calls `htmlescape::encode_attribute`, which walks the characters
/// of its argument and writes for each the entity of the minimal table, or a
/// hexadecimal reference `&#xHH;` where the character is below 256 and no
/// ASCII letter or digit, or the character itself.
#[verifier::external_body]
pub(crate) fn encode_attribute(s: &str) -> (out: String)
    ensures
        out@ == attribute_escaped(s@),
{
    htmlescape::encode_attribute(s)
}

/// The minimal encoding of a text that holds none of the five special
/// characters is the text itself.
pub proof fn lemma_plain_text_unchanged(s: Seq<char>)
    requires
        forall|i: int|
            0 <= i < s.len() ==> s[i] != '"' && s[i] != '&' && s[i] != '\'' && s[i] != '<' && s[i]
                != '>',
    ensures
        minimal_escaped(s) == s,
    decreases s.len(),
{
    if s.len() > 0 {
        lemma_plain_text_unchanged(s.drop_last());
        assert(minimal_escaped(s) =~= s.drop_last().push(s.last()));
        assert(s.drop_last().push(s.last()) =~= s);
    }
}

} // verus!
