//! Text as sequences of characters.

use vstd::prelude::*;

verus! {

/// `String::push` appends one character.
pub assume_specification[ String::push ](string: &mut String, ch: char)
    ensures
        final(string)@ == old(string)@.push(ch),
;

/// The characters of a text, in order.
pub fn chars_of(text: &str) -> (chars: Vec<char>)
    ensures
        chars@ == text@,
{
    let mut chars: Vec<char> = Vec::new();
    for c in walk: text.chars()
        invariant
            walk.seq() == text@,
            chars@ == text@.take(walk.index()),
    {
        proof {
            assert(text@.take(walk.index() + 1) =~= text@.take(walk.index()).push(text@[walk.index()]));
        }
        chars.push(c);
    }
    proof {
        assert(text@.take(text@.len() as int) =~= text@);
    }
    chars
}

/// The text between two positions of a character list.
pub fn text_between(chars: &Vec<char>, from: usize, to: usize) -> (text: String)
    requires
        from <= to <= chars@.len(),
    ensures
        text@ == chars@.subrange(from as int, to as int),
{
    let mut text = String::new();
    let mut at: usize = from;
    while at < to
        invariant
            from <= at <= to <= chars@.len(),
            text@ == chars@.subrange(from as int, at as int),
        decreases to - at,
    {
        proof {
            assert(chars@.subrange(from as int, at + 1) =~= chars@.subrange(from as int, at as int).push(chars@[at as int]));
        }
        text.push(chars[at]);
        at = at + 1;
    }
    text
}

/// Whether two texts hold the same characters.
pub fn same_text(left: &str, right: &str) -> (same: bool)
    ensures
        same == (left@ == right@),
{
    left.to_owned() == right.to_owned()
}

/// Whether a character list starts with the given text.
pub fn starts_with(chars: &Vec<char>, prefix: &str) -> (found: bool)
    ensures
        found == prefix@.is_prefix_of(chars@),
{
    let expected = chars_of(prefix);
    if chars.len() < expected.len() {
        return false;
    }
    let mut at: usize = 0;
    while at < expected.len()
        invariant
            at <= expected@.len() <= chars@.len(),
            expected@ == prefix@,
            forall|i: int| 0 <= i < at ==> expected@[i] == chars@[i],
        decreases expected@.len() - at,
    {
        if chars[at] != expected[at] {
            assert(chars@.subrange(0, prefix@.len() as int)[at as int] != prefix@[at as int]);
            return false;
        }
        at = at + 1;
    }
    assert(prefix@ =~= chars@.subrange(0, prefix@.len() as int));
    true
}

/// The position of the first occurrence of a character, or the length of the
/// sequence where it does not occur.
pub open spec fn first_index(chars: Seq<char>, wanted: char) -> int
    decreases chars.len(),
{
    if chars.len() == 0 || chars[0] == wanted {
        0
    } else {
        1 + first_index(chars.skip(1), wanted)
    }
}

/// No earlier position holds the character, and the position found does.
pub proof fn lemma_first_index(chars: Seq<char>, wanted: char)
    ensures
        0 <= first_index(chars, wanted) <= chars.len(),
        forall|i: int| 0 <= i < first_index(chars, wanted) ==> chars[i] != wanted,
        first_index(chars, wanted) < chars.len() ==> chars[first_index(chars, wanted)] == wanted,
    decreases chars.len(),
{
    if chars.len() != 0 && chars[0] != wanted {
        let rest = chars.skip(1);
        lemma_first_index(rest, wanted);
        assert forall|i: int| 0 <= i < first_index(chars, wanted) implies chars[i] != wanted by {
            if i > 0 {
                assert(rest[i - 1] == chars[i]);
            }
        }
    }
}

/// A position that holds the character, with none before it that does, is the first.
pub proof fn lemma_first_index_unique(chars: Seq<char>, wanted: char, at: int)
    requires
        0 <= at <= chars.len(),
        forall|i: int| 0 <= i < at ==> chars[i] != wanted,
        at < chars.len() ==> chars[at] == wanted,
    ensures
        first_index(chars, wanted) == at,
{
    lemma_first_index(chars, wanted);
}

/// Finds the first occurrence of a character between two positions.
pub fn find_char(chars: &Vec<char>, wanted: char, from: usize, to: usize) -> (found: usize)
    requires
        from <= to <= chars@.len(),
    ensures
        from <= found <= to,
        found == from + first_index(chars@.subrange(from as int, to as int), wanted),
{
    let mut at: usize = from;
    while at < to && chars[at] != wanted
        invariant
            from <= at <= to <= chars@.len(),
            forall|i: int| from <= i < at ==> chars@[i] != wanted,
        decreases to - at,
    {
        at = at + 1;
    }
    proof {
        lemma_first_index_unique(chars@.subrange(from as int, to as int), wanted, at - from);
    }
    at
}

/// A decimal digit.
pub open spec fn digit(value: int) -> char {
    (0x30 + value) as char
}

/// A number in decimal notation.
pub open spec fn decimal(number: nat) -> Seq<char>
    decreases number,
{
    if number < 10 {
        seq![digit(number as int)]
    } else {
        decimal(number / 10).push(digit((number % 10) as int))
    }
}

/// Writes a number in decimal notation.
pub fn decimal_text(number: u32) -> (written: String)
    ensures
        written@ == decimal(number as nat),
    decreases number,
{
    let mut written = if number < 10 {
        String::new()
    } else {
        decimal_text(number / 10)
    };
    let last: u8 = (number % 10) as u8;
    written.push((0x30u8 + last) as char);
    assert(number < 10 ==> written@ =~= seq![digit(number as int)]);
    written
}

/// A character with upper case ASCII letters made lower case.
pub open spec fn lower(c: char) -> char {
    if 'A' <= c <= 'Z' {
        (c as u32 + 32) as char
    } else {
        c
    }
}

/// A text with upper case ASCII letters made lower case.
pub open spec fn lowercase(chars: Seq<char>) -> Seq<char> {
    chars.map_values(|c: char| lower(c))
}

/// Makes upper case ASCII letters lower case.
pub fn ascii_lowercase(text: &str) -> (lowered: String)
    ensures
        lowered@ == lowercase(text@),
{
    let chars = chars_of(text);
    let mut lowered = String::new();
    let mut at: usize = 0;
    while at < chars.len()
        invariant
            at <= chars@.len(),
            chars@ == text@,
            lowered@ == lowercase(text@.take(at as int)),
        decreases chars@.len() - at,
    {
        let c = chars[at];
        if 'A' <= c && c <= 'Z' {
            lowered.push((c as u8 + 32) as char);
        } else {
            lowered.push(c);
        }
        assert(lowered@ =~= lowercase(text@.take(at + 1)));
        at = at + 1;
    }
    assert(text@.take(at as int) =~= text@);
    lowered
}

/// Whether one text is the other with its upper case ASCII letters made lower case, and
/// all else as it was.
pub open spec fn is_lowercase_of(lowered: Seq<char>, chars: Seq<char>) -> bool {
    &&& lowered.len() == chars.len()
    &&& forall|i: int|
        0 <= i < chars.len() ==> if 'A' <= chars[i] && chars[i] <= 'Z' {
            (#[trigger] lowered[i]) as u32 == chars[i] as u32 + 32
        } else {
            lowered[i] == chars[i]
        }
}

/// Lower case is taken letter by letter, and taking it twice changes nothing.
pub proof fn lemma_lowercase(chars: Seq<char>)
    ensures
        is_lowercase_of(lowercase(chars), chars),
        lowercase(lowercase(chars)) == lowercase(chars),
{
    assert(lowercase(lowercase(chars)) =~= lowercase(chars));
}

/// The number that decimal digits spell.
pub open spec fn number_of(digits: Seq<char>) -> int
    decreases digits.len(),
{
    if digits.len() == 0 {
        0
    } else {
        number_of(digits.drop_last()) * 10 + (digits.last() as int - '0' as int)
    }
}

/// A number in decimal notation consists of digits that spell the number, the first of
/// which is no zero unless it stands for the number zero alone.
pub proof fn lemma_decimal_spells_the_number(number: nat)
    ensures
        number_of(decimal(number)) == number,
        decimal(number).len() > 0,
        forall|i: int|
            0 <= i < decimal(number).len() ==> '0' <= #[trigger] decimal(number)[i]
                && decimal(number)[i] <= '9',
        number > 0 ==> decimal(number)[0] != '0',
        number == 0 ==> decimal(number).len() == 1,
    decreases number,
{
    let digits = decimal(number);
    if number < 10 {
        assert(digits.drop_last() =~= Seq::empty());
        assert(number_of(Seq::<char>::empty()) == 0);
    } else {
        lemma_decimal_spells_the_number(number / 10);
        assert(digits.drop_last() =~= decimal(number / 10));
        assert(digits[0] == decimal(number / 10)[0]);
    }
}

} // verus!
