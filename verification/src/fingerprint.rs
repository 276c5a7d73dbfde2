//! Fingerprints of configuration.
//!
//! A value is written as a stream of bytes in which every part says where it ends, so
//! that different values have different streams. The fingerprint is the hash of the
//! stream.

use std::collections::hash_map::DefaultHasher;
use std::hash::Hasher;
use vstd::prelude::*;
use vstd::std_specs::hash::DefaultHasherAdditionalSpecFns;
use vstd::utf8::*;

verus! {

/// The code of a count or of the choice between alternatives.
pub open spec fn count_code(count: nat) -> Seq<u8> {
    vstd::bytes::spec_u64_to_le_bytes(count as u64)
}

/// The code of a number.
pub open spec fn number_code(number: u32) -> Seq<u8> {
    vstd::bytes::spec_u32_to_le_bytes(number)
}

/// The code of a text: its UTF-8 bytes and a byte that no UTF-8 text contains.
pub open spec fn text_code(text: Seq<char>) -> Seq<u8> {
    encode_utf8(text).push(0xff)
}

/// The codes of all items, one after the other.
pub open spec fn codes<T>(items: Seq<T>, code: spec_fn(T) -> Seq<u8>) -> Seq<u8>
    decreases items.len(),
{
    if items.len() == 0 {
        Seq::empty()
    } else {
        codes(items.drop_last(), code) + code(items.last())
    }
}

/// The code of a list: the number of its items and their codes.
pub open spec fn list_code<T>(items: Seq<T>, code: spec_fn(T) -> Seq<u8>) -> Seq<u8> {
    count_code(items.len()) + codes(items, code)
}

/// The code of an optional value.
pub open spec fn optional_code<T>(value: Option<T>, code: spec_fn(T) -> Seq<u8>) -> Seq<u8> {
    match value {
        None => count_code(0),
        Some(value) => count_code(1) + code(value),
    }
}

/// The code of a list of texts.
pub open spec fn texts_code(texts: Seq<Seq<char>>) -> Seq<u8> {
    list_code(texts, |text: Seq<char>| text_code(text))
}

/// The code of an optional text.
pub open spec fn optional_text_code(value: Option<Seq<char>>) -> Seq<u8> {
    optional_code(value, |text: Seq<char>| text_code(text))
}

/// The hash of a stream.
pub open spec fn hash_of(stream: Seq<u8>) -> u64 {
    DefaultHasher::spec_finish(seq![stream])
}

/// Whether the code of a value can be told apart from that of another value, whatever
/// follows. Only values that fit are considered.
pub open spec fn self_delimiting<T>(
    code: spec_fn(T) -> Seq<u8>,
    fits: spec_fn(T) -> bool,
) -> bool {
    forall|left: T, right: T, after: Seq<u8>, behind: Seq<u8>|
        fits(left) && fits(right) && #[trigger] (code(left) + after) == #[trigger] (code(right)
            + behind) ==> left == right && after == behind
}

/// Two equal sequences that start with parts of the same length have equal parts.
pub proof fn lemma_split(left: Seq<u8>, after: Seq<u8>, right: Seq<u8>, behind: Seq<u8>)
    requires
        left + after == right + behind,
        left.len() == right.len(),
    ensures
        left == right,
        after == behind,
{
    let whole = left + after;
    assert(left =~= whole.take(left.len() as int));
    assert(right =~= whole.take(left.len() as int));
    assert(after =~= whole.skip(left.len() as int));
    assert(behind =~= whole.skip(left.len() as int));
}

/// Counts are told apart.
pub proof fn lemma_count_code(left: nat, right: nat, after: Seq<u8>, behind: Seq<u8>)
    requires
        left <= u64::MAX,
        right <= u64::MAX,
        count_code(left) + after == count_code(right) + behind,
    ensures
        left == right,
        after == behind,
{
    vstd::bytes::lemma_auto_spec_u64_to_from_le_bytes();
    lemma_split(count_code(left), after, count_code(right), behind);
    assert(left as u64 == right as u64);
}

/// Numbers are told apart.
pub proof fn lemma_number_code(left: u32, right: u32, after: Seq<u8>, behind: Seq<u8>)
    requires
        number_code(left) + after == number_code(right) + behind,
    ensures
        left == right,
        after == behind,
{
    vstd::bytes::lemma_auto_spec_u32_to_from_le_bytes();
    lemma_split(number_code(left), after, number_code(right), behind);
}

/// The byte that ends a text is no byte of a character.
proof fn lemma_scalar_bytes(scalar: u32)
    by (bit_vector)
    ensures
        leading_byte_width_1(scalar) != 0xff,
        leading_byte_width_2(scalar) != 0xff,
        leading_byte_width_3(scalar) != 0xff,
        leading_byte_width_4(scalar) != 0xff,
        last_continuation_byte(scalar) != 0xff,
        second_last_continuation_byte(scalar) != 0xff,
        third_last_continuation_byte(scalar) != 0xff,
{
}

/// The byte that ends a text does not occur in it.
proof fn lemma_text_bytes(text: Seq<char>)
    ensures
        forall|i: int| 0 <= i < encode_utf8(text).len() ==> encode_utf8(text)[i] != 0xff,
    decreases text.len(),
{
    if text.len() > 0 {
        lemma_scalar_bytes(text[0] as u32);
        lemma_text_bytes(text.drop_first());
        let head = encode_scalar(text[0] as u32);
        let tail = encode_utf8(text.drop_first());
        assert forall|i: int| 0 <= i < encode_utf8(text).len() implies encode_utf8(text)[i] != 0xff by {
            if i >= head.len() {
                assert(encode_utf8(text)[i] == tail[i - head.len()]);
            } else {
                assert(encode_utf8(text)[i] == head[i]);
            }
        }
    }
}

/// Texts are told apart.
pub proof fn lemma_text_code(
    left: Seq<char>,
    right: Seq<char>,
    after: Seq<u8>,
    behind: Seq<u8>,
)
    requires
        text_code(left) + after == text_code(right) + behind,
    ensures
        left == right,
        after == behind,
{
    let first = encode_utf8(left);
    let second = encode_utf8(right);
    lemma_text_bytes(left);
    lemma_text_bytes(right);
    let whole = text_code(left) + after;
    assert(whole[first.len() as int] == 0xff);
    assert((text_code(right) + behind)[second.len() as int] == 0xff);
    if first.len() < second.len() {
        assert((text_code(right) + behind)[first.len() as int] == second[first.len() as int]);
    }
    if second.len() < first.len() {
        assert(whole[second.len() as int] == first[second.len() as int]);
    }
    lemma_split(text_code(left), after, text_code(right), behind);
    assert(first =~= text_code(left).drop_last());
    assert(second =~= text_code(right).drop_last());
    encode_utf8_decode_utf8(left);
    encode_utf8_decode_utf8(right);
}

/// Texts are told apart.
pub proof fn lemma_texts_are_told_apart()
    ensures
        self_delimiting(|text: Seq<char>| text_code(text), |text: Seq<char>| true),
{
    let code = |text: Seq<char>| text_code(text);
    assert forall|left: Seq<char>, right: Seq<char>, after: Seq<u8>, behind: Seq<u8>| #[trigger]
        (code(left) + after) == #[trigger] (code(right) + behind) implies left == right && after
        == behind by {
        lemma_text_code(left, right, after, behind);
    }
}

/// The code of a list starts with that of its first item.
proof fn lemma_codes_front<T>(items: Seq<T>, code: spec_fn(T) -> Seq<u8>)
    requires
        items.len() > 0,
    ensures
        codes(items, code) == code(items[0]) + codes(items.skip(1), code),
    decreases items.len(),
{
    let shorter = items.drop_last();
    if shorter.len() == 0 {
        assert(items.skip(1) =~= shorter);
        assert(codes(shorter, code) == Seq::<u8>::empty());
        assert(codes(items, code) =~= code(items[0]) + codes(items.skip(1), code));
    } else {
        lemma_codes_front(shorter, code);
        assert(items.skip(1).drop_last() =~= shorter.skip(1));
        assert(codes(items, code) =~= code(items[0]) + codes(items.skip(1), code));
    }
}

/// Lists of the same length are told apart item by item.
proof fn lemma_codes<T>(
    left: Seq<T>,
    right: Seq<T>,
    after: Seq<u8>,
    behind: Seq<u8>,
    code: spec_fn(T) -> Seq<u8>,
    fits: spec_fn(T) -> bool,
)
    requires
        self_delimiting(code, fits),
        left.len() == right.len(),
        forall|i: int| 0 <= i < left.len() ==> fits(#[trigger] left[i]),
        forall|i: int| 0 <= i < right.len() ==> fits(#[trigger] right[i]),
        codes(left, code) + after == codes(right, code) + behind,
    ensures
        left == right,
        after == behind,
    decreases left.len(),
{
    if left.len() == 0 {
        assert(left =~= right);
        assert(codes(left, code) + after =~= after);
        assert(codes(right, code) + behind =~= behind);
    } else {
        lemma_codes_front(left, code);
        lemma_codes_front(right, code);
        let rest = codes(left.skip(1), code) + after;
        let remainder = codes(right.skip(1), code) + behind;
        assert(codes(left, code) + after =~= code(left[0]) + rest);
        assert(codes(right, code) + behind =~= code(right[0]) + remainder);
        assert(left[0] == right[0] && rest == remainder);
        lemma_codes(left.skip(1), right.skip(1), after, behind, code, fits);
        assert(left =~= seq![left[0]] + left.skip(1));
        assert(right =~= seq![right[0]] + right.skip(1));
    }
}

/// Lists are told apart where their items are.
pub proof fn lemma_list_code<T>(
    left: Seq<T>,
    right: Seq<T>,
    after: Seq<u8>,
    behind: Seq<u8>,
    code: spec_fn(T) -> Seq<u8>,
    fits: spec_fn(T) -> bool,
)
    requires
        self_delimiting(code, fits),
        left.len() <= u64::MAX,
        right.len() <= u64::MAX,
        forall|i: int| 0 <= i < left.len() ==> fits(#[trigger] left[i]),
        forall|i: int| 0 <= i < right.len() ==> fits(#[trigger] right[i]),
        list_code(left, code) + after == list_code(right, code) + behind,
    ensures
        left == right,
        after == behind,
{
    let rest = codes(left, code) + after;
    let remainder = codes(right, code) + behind;
    assert(list_code(left, code) + after =~= count_code(left.len()) + rest);
    assert(list_code(right, code) + behind =~= count_code(right.len()) + remainder);
    lemma_count_code(left.len(), right.len(), rest, remainder);
    lemma_codes(left, right, after, behind, code, fits);
}

/// Lists of texts are told apart.
pub proof fn lemma_texts_code(
    left: Seq<Seq<char>>,
    right: Seq<Seq<char>>,
    after: Seq<u8>,
    behind: Seq<u8>,
)
    requires
        left.len() <= u64::MAX,
        right.len() <= u64::MAX,
        texts_code(left) + after == texts_code(right) + behind,
    ensures
        left == right,
        after == behind,
{
    lemma_texts_are_told_apart();
    lemma_list_code(
        left,
        right,
        after,
        behind,
        |text: Seq<char>| text_code(text),
        |text: Seq<char>| true,
    );
}

/// Optional values are told apart where the values are.
pub proof fn lemma_optional_code<T>(
    left: Option<T>,
    right: Option<T>,
    after: Seq<u8>,
    behind: Seq<u8>,
    code: spec_fn(T) -> Seq<u8>,
    fits: spec_fn(T) -> bool,
)
    requires
        self_delimiting(code, fits),
        left matches Some(value) ==> fits(value),
        right matches Some(value) ==> fits(value),
        optional_code(left, code) + after == optional_code(right, code) + behind,
    ensures
        left == right,
        after == behind,
{
    let first = match left {
        None => Seq::<u8>::empty(),
        Some(value) => code(value),
    };
    let second = match right {
        None => Seq::<u8>::empty(),
        Some(value) => code(value),
    };
    let tag: nat = if left is Some { 1 } else { 0 };
    let mark: nat = if right is Some { 1 } else { 0 };
    assert(optional_code(left, code) + after =~= count_code(tag) + (first + after));
    assert(optional_code(right, code) + behind =~= count_code(mark) + (second + behind));
    lemma_count_code(tag, mark, first + after, second + behind);
    if left is None {
        assert(first + after =~= after);
        assert(second + behind =~= behind);
    } else {
        assert(code(left->0) + after == code(right->0) + behind);
    }
}

/// Optional texts are told apart.
pub proof fn lemma_optional_text_code(
    left: Option<Seq<char>>,
    right: Option<Seq<char>>,
    after: Seq<u8>,
    behind: Seq<u8>,
)
    requires
        optional_text_code(left) + after == optional_text_code(right) + behind,
    ensures
        left == right,
        after == behind,
{
    lemma_texts_are_told_apart();
    lemma_optional_code(
        left,
        right,
        after,
        behind,
        |text: Seq<char>| text_code(text),
        |text: Seq<char>| true,
    );
}

/// A stream under construction.
pub struct Stream {
    bytes: Vec<u8>,
}

impl View for Stream {
    type V = Seq<u8>;

    closed spec fn view(&self) -> Seq<u8> {
        self.bytes@
    }
}

impl Stream {
    /// A stream that holds nothing yet.
    pub fn new() -> (stream: Stream)
        ensures
            stream@ == Seq::<u8>::empty(),
    {
        Stream { bytes: Vec::new() }
    }

    /// Appends a count, or the choice between alternatives.
    pub fn put_count(&mut self, count: u64)
        ensures
            final(self)@ == old(self)@ + count_code(count as nat),
    {
        let mut code = vstd::bytes::u64_to_le_bytes(count);
        self.bytes.append(&mut code);
    }

    /// Appends a number.
    pub fn put_number(&mut self, number: u32)
        ensures
            final(self)@ == old(self)@ + number_code(number),
    {
        let mut code = vstd::bytes::u32_to_le_bytes(number);
        self.bytes.append(&mut code);
    }

    /// Appends a text.
    pub fn put_text(&mut self, text: &str)
        ensures
            final(self)@ == old(self)@ + text_code(text@),
    {
        let mut code = text.as_bytes_vec();
        self.bytes.append(&mut code);
        self.bytes.push(0xff);
        assert(self@ =~= old(self)@ + text_code(text@));
    }

    /// The hash of the stream.
    pub fn hash(&self) -> (hash: u64)
        ensures
            hash == hash_of(self@),
    {
        let mut hasher = DefaultHasher::new();
        hasher.write(self.bytes.as_slice());
        assert(hasher@ =~= seq![self@]);
        hasher.finish()
    }
}

} // verus!
