//! Laws of resource URIs: what is spelled is read back.

use crate::percent;
use crate::text;
use crate::uri;
use crate::uri::{Address, Place, UriError};
use vstd::prelude::*;
use vstd::utf8::*;

verus! {

/// A character that occurs in the spelling of a component.
spec fn is_spelled(c: char) -> bool {
    uri::is_plain(c) || c == '%'
}

/// All characters occur in spellings of components.
spec fn all_spelled(chars: Seq<char>) -> bool {
    forall|i: int| 0 <= i < chars.len() ==> is_spelled(#[trigger] chars[i])
}

/// A text that one component can carry.
pub open spec fn is_component_text(chars: Seq<char>) -> bool {
    chars.len() > 0 && !uri::has_control(chars)
}

/// An address that a URI can carry. The document name `vfs` would be read as the
/// root of the virtual filesystem.
pub open spec fn is_addressable(address: Address) -> bool {
    &&& is_component_text(address.system)
    &&& match address.path {
        Place::Vfs(segments) => forall|i: int|
            0 <= i < segments.len() ==> is_component_text(#[trigger] segments[i]),
        Place::Document(name) => is_component_text(name) && name != "vfs"@,
    }
}

proof fn lemma_escapes_are_spelled(bytes: Seq<u8>, rest: Seq<char>)
    ensures
        all_spelled(percent::percent_encoded(bytes)),
        uri::well_escaped(percent::percent_encoded(bytes) + rest) == uri::well_escaped(rest),
    decreases bytes.len(),
{
    let encoded = percent::percent_encoded(bytes);
    if bytes.len() == 0 {
        assert(encoded + rest =~= rest);
    } else {
        let head = percent::escaped_byte(bytes[0]);
        let tail = percent::percent_encoded(bytes.skip(1));
        lemma_escapes_are_spelled(bytes.skip(1), rest);
        percent::lemma_hex_digits(bytes[0]);
        assert forall|i: int| 0 <= i < encoded.len() implies is_spelled(#[trigger] encoded[i]) by {
            if i >= head.len() {
                assert(encoded[i] == tail[i - head.len()]);
            }
        }
        let whole = encoded + rest;
        assert(whole =~= head + (tail + rest));
        if percent::is_alphanumeric_byte(bytes[0]) {
            assert(whole.skip(1) =~= tail + rest);
        } else {
            assert(whole.skip(3) =~= tail + rest);
        }
    }
}

proof fn lemma_encoded_char(c: char, escape_dots: bool, rest: Seq<char>, bytes: Seq<u8>)
    ensures
        uri::encoded_char(c, escape_dots).len() > 0,
        all_spelled(uri::encoded_char(c, escape_dots)),
        uri::well_escaped(uri::encoded_char(c, escape_dots) + rest) == uri::well_escaped(rest),
        percent::percent_decoded(encode_utf8(uri::encoded_char(c, escape_dots)) + bytes)
            == encode_utf8(seq![c]) + percent::percent_decoded(bytes),
{
    let encoded = uri::encoded_char(c, escape_dots);
    let plain = encode_utf8(seq![c]);
    if uri::is_plain(c) && !(escape_dots && c == '.') {
        let whole = encoded + rest;
        assert(whole.skip(1) =~= rest);
        assert(is_ascii_chars(seq![c]));
        is_ascii_chars_encode_utf8(seq![c]);
        let spelled = plain + bytes;
        assert(plain[0] == seq![c][0] as u8);
        assert(spelled[0] == c as u8);
        assert(spelled.skip(1) =~= bytes);
        assert(seq![spelled[0]] =~= plain);
    } else {
        lemma_escapes_are_spelled(plain, rest);
        percent::lemma_decode_encoded(plain, bytes);
        encode_utf8_first_scalar(seq![c]);
        assert(plain.len() > 0);
    }
}

proof fn lemma_encoded_text(chars: Seq<char>, escape_dots: bool)
    ensures
        chars.len() > 0 ==> uri::encoded_text(chars, escape_dots).len() > 0,
        all_spelled(uri::encoded_text(chars, escape_dots)),
        uri::well_escaped(uri::encoded_text(chars, escape_dots)),
        percent::percent_decoded(encode_utf8(uri::encoded_text(chars, escape_dots)))
            == encode_utf8(chars),
    decreases chars.len(),
{
    let encoded = uri::encoded_text(chars, escape_dots);
    if chars.len() > 0 {
        let head = uri::encoded_char(chars[0], escape_dots);
        let tail = uri::encoded_text(chars.skip(1), escape_dots);
        lemma_encoded_text(chars.skip(1), escape_dots);
        lemma_encoded_char(chars[0], escape_dots, tail, encode_utf8(tail));
        percent::lemma_encode_utf8_concat(head, tail);
        percent::lemma_encode_utf8_concat(seq![chars[0]], chars.skip(1));
        assert(seq![chars[0]] + chars.skip(1) =~= chars);
        assert forall|i: int| 0 <= i < encoded.len() implies is_spelled(#[trigger] encoded[i]) by {
            if i >= head.len() {
                assert(encoded[i] == tail[i - head.len()]);
            } else {
                assert(encoded[i] == head[i]);
            }
        }
    }
}

/// A component reads back the text that it was made from.
pub proof fn lemma_component_reads_back(chars: Seq<char>, escape_dots: bool)
    requires
        is_component_text(chars),
    ensures
        uri::component_text(uri::encoded_text(chars, escape_dots)) == Ok::<Seq<char>, UriError>(
            chars,
        ),
{
    lemma_encoded_text(chars, escape_dots);
    encode_utf8_valid_utf8(chars);
    encode_utf8_decode_utf8(chars);
}

/// A spelled path segment is never `.` or `..`, so no reader of URLs takes it for
/// navigation.
pub proof fn lemma_segments_never_navigate(segment: Seq<char>)
    ensures
        !uri::is_dot_segment(uri::encoded_segment(segment)),
{
    reveal_strlit(".");
    reveal_strlit("..");
    let encoded = uri::encoded_segment(segment);
    if uri::is_dot_segment(segment) {
        assert(segment[0] == '.');
        let head = uri::encoded_char('.', true);
        let plain = encode_utf8(seq!['.']);
        assert(is_ascii_chars(seq!['.']));
        is_ascii_chars_encode_utf8(seq!['.']);
        assert(plain[0] == seq!['.'][0] as u8);
        assert(head == percent::percent_encoded(plain));
        assert(head[0] == '%');
        assert(encoded[0] == head[0]);
    } else if uri::is_dot_segment(encoded) {
        lemma_dots_stand_for_themselves(segment);
    }
}

/// Only dots are spelled as dots.
proof fn lemma_dots_stand_for_themselves(chars: Seq<char>)
    requires
        forall|i: int|
            0 <= i < uri::encoded_text(chars, false).len() ==> #[trigger] uri::encoded_text(
                chars,
                false,
            )[i] == '.',
    ensures
        uri::encoded_text(chars, false) == chars,
    decreases chars.len(),
{
    let encoded = uri::encoded_text(chars, false);
    if chars.len() > 0 {
        let head = uri::encoded_char(chars[0], false);
        let tail = uri::encoded_text(chars.skip(1), false);
        lemma_encoded_char(chars[0], false, Seq::empty(), Seq::empty());
        assert(encoded[0] == head[0]);
        if !uri::is_plain(chars[0]) {
            let plain = encode_utf8(seq![chars[0]]);
            lemma_first_escape(plain);
        }
        assert forall|i: int| 0 <= i < tail.len() implies #[trigger] tail[i] == '.' by {
            assert(tail[i] == encoded[i + head.len()]);
        }
        lemma_dots_stand_for_themselves(chars.skip(1));
        assert(encoded =~= chars);
    } else {
        assert(encoded =~= chars);
    }
}

/// No escape starts with a dot.
proof fn lemma_first_escape(bytes: Seq<u8>)
    requires
        bytes.len() > 0,
    ensures
        percent::percent_encoded(bytes).len() > 0,
        percent::percent_encoded(bytes)[0] != '.',
{
}

proof fn lemma_spelled_has_no_slash(chars: Seq<char>, after: Seq<char>)
    requires
        all_spelled(chars),
    ensures
        has_no_slash(chars),
        text::first_index(chars, '/') == chars.len(),
        text::first_index(chars.push('/') + after, '/') == chars.len(),
{
    assert forall|i: int| 0 <= i < chars.len() implies #[trigger] chars[i] != '/' by {
        assert(is_spelled(chars[i]));
    }
    lemma_first_slash(chars, after);
}

/// A text without slashes.
pub open spec fn has_no_slash(chars: Seq<char>) -> bool {
    forall|i: int| 0 <= i < chars.len() ==> #[trigger] chars[i] != '/'
}

proof fn lemma_first_slash(chars: Seq<char>, after: Seq<char>)
    requires
        has_no_slash(chars),
    ensures
        text::first_index(chars, '/') == chars.len(),
        text::first_index(chars.push('/') + after, '/') == chars.len(),
{
    text::lemma_first_index_unique(chars, '/', chars.len() as int);
    let whole = chars.push('/') + after;
    assert forall|i: int| 0 <= i < chars.len() implies whole[i] != '/' by {
        assert(whole[i] == chars[i]);
    }
    text::lemma_first_index_unique(whole, '/', chars.len() as int);
}

/// Parts without slashes are found again between the slashes that join them.
proof fn lemma_slash_parts(parts: Seq<Seq<char>>)
    requires
        parts.len() > 0,
        forall|i: int| 0 <= i < parts.len() ==> has_no_slash(#[trigger] parts[i]),
    ensures
        uri::slashed(parts).len() > 0,
        uri::slashed(parts).last() == '/',
        uri::slash_parts(uri::slashed(parts).drop_last()) == parts,
    decreases parts.len(),
{
    let first = parts[0];
    let rest = parts.skip(1);
    let whole = uri::slashed(parts);
    if rest.len() == 0 {
        assert(uri::slashed(rest) =~= Seq::empty());
        assert(whole =~= first.push('/'));
        assert(whole.drop_last() =~= first);
        lemma_first_slash(first, Seq::empty());
        assert(uri::slash_parts(first) =~= parts);
    } else {
        lemma_slash_parts(rest);
        let after = uri::slashed(rest).drop_last();
        assert(whole =~= first.push('/') + uri::slashed(rest));
        assert(whole.drop_last() =~= first.push('/') + after);
        lemma_first_slash(first, after);
        let joined = first.push('/') + after;
        assert(joined.take(first.len() as int) =~= first);
        assert(joined.skip(first.len() as int + 1) =~= after);
        assert(uri::slash_parts(joined) =~= seq![first] + rest);
        assert(seq![first] + rest =~= parts);
    }
}

/// Spelled segments read back one by one.
proof fn lemma_components_read_back(segments: Seq<Seq<char>>)
    requires
        forall|i: int| 0 <= i < segments.len() ==> is_component_text(#[trigger] segments[i]),
    ensures
        uri::component_texts(uri::encoded_segments(segments)) == Ok::<Seq<Seq<char>>, UriError>(
            segments,
        ),
    decreases segments.len(),
{
    let encoded = uri::encoded_segments(segments);
    if segments.len() == 0 {
        assert(segments =~= Seq::empty());
    } else {
        let first = segments[0];
        lemma_component_reads_back(first, uri::is_dot_segment(first));
        assert(encoded[0] == uri::encoded_segment(first));
        assert(encoded.skip(1) =~= uri::encoded_segments(segments.skip(1)));
        lemma_components_read_back(segments.skip(1));
        assert(seq![first] + segments.skip(1) =~= segments);
    }
}

/// The component `vfs` spells itself.
proof fn lemma_vfs_spells_itself()
    ensures
        uri::encoded_segment("vfs"@) == "vfs"@,
        is_component_text("vfs"@),
{
    reveal_strlit("vfs");
    reveal_strlit(".");
    reveal_strlit("..");
    let name = "vfs"@;
    assert(name.len() == 3);
    assert(!uri::is_dot_segment(name));
    assert(name =~= seq!['v', 'f', 's']);
    assert(name.skip(1) =~= seq!['f', 's']);
    assert(name.skip(1).skip(1) =~= seq!['s']);
    assert(name.skip(1).skip(1).skip(1) =~= Seq::empty());
    reveal_with_fuel(uri::encoded_text, 5);
    assert(uri::encoded_text(name, false) =~= name);
}

/// An address reads back from its spelling: the destination keeps its case, and
/// every segment its boundaries, whatever characters it holds.
pub proof fn lemma_address_reads_back(address: Address)
    requires
        is_addressable(address),
    ensures
        uri::address_of(uri::spelling(address)) == Ok::<Address, UriError>(address),
{
    reveal_strlit("abap://");
    reveal_strlit("/");
    reveal_strlit("vfs/");
    reveal_strlit("vfs");
    let value = uri::spelling(address);
    let authority = uri::encoded_text(address.system, false);
    let path = uri::place_spelling(address.path);
    let rest = value.skip(7);
    assert("/"@ =~= seq!['/']);
    assert(rest =~= authority.push('/') + path);
    assert("abap://"@ =~= value.subrange(0, 7));
    lemma_encoded_text(address.system, false);
    lemma_spelled_has_no_slash(authority, path);
    lemma_component_reads_back(address.system, false);
    assert(rest.take(authority.len() as int) =~= authority);
    assert(rest.skip(authority.len() as int + 1) =~= path);
    match address.path {
        Place::Vfs(segments) => {
            lemma_vfs_spells_itself();
            let names = seq!["vfs"@] + segments;
            let parts = uri::encoded_segments(names);
            assert(parts[0] == "vfs"@);
            assert(parts.skip(1) =~= uri::encoded_segments(segments));
            assert("vfs"@.push('/') =~= "vfs/"@);
            assert(path =~= uri::slashed(parts));
            assert forall|i: int| 0 <= i < parts.len() implies has_no_slash(#[trigger] parts[i]) by {
                lemma_encoded_text(names[i], uri::is_dot_segment(names[i]));
                lemma_spelled_has_no_slash(parts[i], Seq::empty());
            }
            lemma_slash_parts(parts);
            assert forall|i: int| 0 <= i < names.len() implies is_component_text(
                #[trigger] names[i],
            ) by {
                if i > 0 {
                    assert(names[i] == segments[i - 1]);
                }
            }
            lemma_components_read_back(names);
            assert(names.skip(1) =~= segments);
            assert(value.last() == path.last());
        },
        Place::Document(name) => {
            lemma_encoded_text(name, false);
            lemma_component_reads_back(name, false);
            lemma_spelled_has_no_slash(path, Seq::empty());
            assert(is_spelled(path[path.len() - 1]));
            assert(value.last() == path.last());
            assert(uri::slash_parts(path) =~= seq![path]);
            let parts = seq![path];
            assert(parts.skip(1) =~= Seq::empty());
            assert(uri::component_texts(parts.skip(1)) == Ok::<Seq<Seq<char>>, UriError>(
                Seq::empty(),
            ));
            assert(seq![name] + Seq::<Seq<char>>::empty() =~= seq![name]);
            assert(uri::component_texts(parts) == Ok::<Seq<Seq<char>>, UriError>(seq![name]));
        },
    }
}

proof fn lemma_component_texts_carry(values: Seq<Seq<char>>)
    requires
        uri::component_texts(values) is Ok,
    ensures
        forall|i: int|
            0 <= i < uri::component_texts(values)->Ok_0.len() ==> is_component_text(
                #[trigger] uri::component_texts(values)->Ok_0[i],
            ),
    decreases values.len(),
{
    if values.len() > 0 {
        lemma_component_texts_carry(values.skip(1));
        let rest = uri::component_texts(values.skip(1))->Ok_0;
        let all = uri::component_texts(values)->Ok_0;
        lemma_component_is_nonempty(values[0]);
        assert forall|i: int| 0 <= i < all.len() implies is_component_text(#[trigger] all[i]) by {
            if i > 0 {
                assert(all[i] == rest[i - 1]);
            }
        }
    }
}

/// A component never spells the empty text.
proof fn lemma_component_is_nonempty(value: Seq<char>)
    requires
        uri::component_text(value) is Ok,
    ensures
        is_component_text(uri::component_text(value)->Ok_0),
{
    let bytes = percent::percent_decoded(encode_utf8(value));
    encode_utf8_first_scalar(value);
    assert(encode_utf8(value).len() > 0);
    assert(bytes.len() > 0);
    assert(decode_utf8(bytes).len() > 0);
}

/// What a URI addresses can be spelled again.
pub proof fn lemma_parsed_is_addressable(value: Seq<char>)
    requires
        uri::address_of(value) is Ok,
    ensures
        is_addressable(uri::address_of(value)->Ok_0),
{
    let rest = value.skip("abap://"@.len() as int);
    let at = text::first_index(rest, '/');
    lemma_component_is_nonempty(rest.take(at));
    let parts = uri::slash_parts(uri::without_final_slash(rest.skip(at + 1)));
    lemma_component_texts_carry(parts);
    let texts = uri::component_texts(parts)->Ok_0;
    if texts.len() > 0 && texts[0] == "vfs"@ {
        assert forall|i: int| 0 <= i < texts.skip(1).len() implies is_component_text(
            #[trigger] texts.skip(1)[i],
        ) by {
            assert(texts.skip(1)[i] == texts[i + 1]);
        }
    }
}

/// Reading a URI, spelling what was read and reading that again gives the same
/// address, for every text that is a URI at all.
pub proof fn lemma_reading_is_stable(value: Seq<char>)
    requires
        uri::address_of(value) is Ok,
    ensures
        uri::address_of(uri::spelling(uri::address_of(value)->Ok_0)) == uri::address_of(value),
{
    lemma_parsed_is_addressable(value);
    lemma_address_reads_back(uri::address_of(value)->Ok_0);
}

/// Different texts have different spellings, whether dots are escaped or not.
proof fn lemma_text_spelling_is_unique(
    left: Seq<char>,
    left_dots: bool,
    right: Seq<char>,
    right_dots: bool,
)
    requires
        uri::encoded_text(left, left_dots) == uri::encoded_text(right, right_dots),
    ensures
        left == right,
{
    lemma_encoded_text(left, left_dots);
    lemma_encoded_text(right, right_dots);
    encode_utf8_decode_utf8(left);
    encode_utf8_decode_utf8(right);
}

/// Different lists of segments have different spellings.
proof fn lemma_segments_spelling_is_unique(left: Seq<Seq<char>>, right: Seq<Seq<char>>)
    requires
        uri::slashed(uri::encoded_segments(left)) == uri::slashed(uri::encoded_segments(right)),
    ensures
        left == right,
    decreases left.len(),
{
    let parts = uri::encoded_segments(left);
    let others = uri::encoded_segments(right);
    if left.len() == 0 || right.len() == 0 {
        assert(left =~= right);
    } else {
        lemma_encoded_text(left[0], uri::is_dot_segment(left[0]));
        lemma_encoded_text(right[0], uri::is_dot_segment(right[0]));
        let rest = uri::slashed(parts.skip(1));
        let other_rest = uri::slashed(others.skip(1));
        lemma_split_is_unique(parts[0], rest, others[0], other_rest);
        lemma_text_spelling_is_unique(
            left[0],
            uri::is_dot_segment(left[0]),
            right[0],
            uri::is_dot_segment(right[0]),
        );
        assert(parts.skip(1) =~= uri::encoded_segments(left.skip(1)));
        assert(others.skip(1) =~= uri::encoded_segments(right.skip(1)));
        lemma_segments_spelling_is_unique(left.skip(1), right.skip(1));
        assert(left =~= seq![left[0]] + left.skip(1));
        assert(right =~= seq![right[0]] + right.skip(1));
    }
}

/// What stands before and behind the first slash is known from the whole.
proof fn lemma_split_is_unique(
    first: Seq<char>,
    rest: Seq<char>,
    other: Seq<char>,
    other_rest: Seq<char>,
)
    requires
        all_spelled(first),
        all_spelled(other),
        first.push('/') + rest == other.push('/') + other_rest,
    ensures
        first == other,
        rest == other_rest,
{
    lemma_spelled_has_no_slash(first, rest);
    lemma_spelled_has_no_slash(other, other_rest);
    let whole = first.push('/') + rest;
    assert(first =~= whole.take(first.len() as int));
    assert(other =~= whole.take(first.len() as int));
    assert(rest =~= whole.skip(first.len() as int + 1));
    assert(other_rest =~= whole.skip(first.len() as int + 1));
}

/// Different addresses have different spellings, whatever texts they hold. In particular
/// destinations that differ only in case are never confused.
pub proof fn lemma_spelling_is_unique(left: Address, right: Address)
    requires
        uri::spelling(left) == uri::spelling(right),
    ensures
        left == right,
{
    reveal_strlit("/");
    reveal_strlit("vfs/");
    let prefix = "abap://"@;
    let authority = uri::encoded_text(left.system, false);
    let other_authority = uri::encoded_text(right.system, false);
    let path = uri::place_spelling(left.path);
    let other_path = uri::place_spelling(right.path);
    assert("/"@ =~= seq!['/']);
    assert(uri::spelling(left).skip(prefix.len() as int) =~= authority.push('/') + path);
    assert(uri::spelling(right).skip(prefix.len() as int) =~= other_authority.push('/')
        + other_path);
    lemma_encoded_text(left.system, false);
    lemma_encoded_text(right.system, false);
    lemma_split_is_unique(authority, path, other_authority, other_path);
    lemma_text_spelling_is_unique(left.system, false, right.system, false);
    match (left.path, right.path) {
        (Place::Vfs(segments), Place::Vfs(others)) => {
            assert(path.skip(4) =~= uri::slashed(uri::encoded_segments(segments)));
            assert(other_path.skip(4) =~= uri::slashed(uri::encoded_segments(others)));
            lemma_segments_spelling_is_unique(segments, others);
        },
        (Place::Document(name), Place::Document(other)) => {
            lemma_text_spelling_is_unique(name, false, other, false);
        },
        (Place::Vfs(_), Place::Document(name)) => {
            lemma_encoded_text(name, false);
            assert(path[3] == '/');
            assert(is_spelled(other_path[3]));
        },
        (Place::Document(name), Place::Vfs(_)) => {
            lemma_encoded_text(name, false);
            assert(other_path[3] == '/');
            assert(is_spelled(path[3]));
        },
    }
}

/// The slash behind a directory may be left out when it is read. A document with a slash
/// behind it is refused.
pub proof fn lemma_final_slash(value: Seq<char>)
    requires
        uri::address_of(value) is Ok,
        value.last() != '/',
    ensures
        match uri::address_of(value)->Ok_0.path {
            Place::Vfs(_) => uri::address_of(value.push('/')) == uri::address_of(value),
            Place::Document(_) => uri::address_of(value.push('/')) == Err::<Address, UriError>(
                UriError::InvalidAddress,
            ),
        },
{
    let start = "abap://"@.len() as int;
    let longer = value.push('/');
    let rest = value.skip(start);
    let at = text::first_index(rest, '/');
    text::lemma_first_index(rest, '/');
    assert("abap://"@ =~= longer.subrange(0, start)) by {
        assert(longer.subrange(0, start) =~= value.subrange(0, start));
    }
    assert(longer.skip(start) =~= rest.push('/'));
    text::lemma_first_index_unique(rest.push('/'), '/', at);
    assert(rest.push('/').take(at) =~= rest.take(at));
    let path = rest.skip(at + 1);
    assert(rest.push('/').skip(at + 1) =~= path.push('/'));
    assert(path.push('/').drop_last() =~= path);
}

/// What is spelled as a directory ends in a slash, and what is spelled as a document with
/// a name does not.
pub proof fn lemma_directories_end_in_a_slash(address: Address)
    ensures
        "abap://"@.is_prefix_of(uri::spelling(address)),
        match address.path {
            Place::Vfs(_) => uri::spelling(address).last() == '/',
            Place::Document(name) => name.len() > 0 ==> uri::spelling(address).last() != '/',
        },
{
    reveal_strlit("vfs/");
    let value = uri::spelling(address);
    let start = "abap://"@.len() as int;
    assert("abap://"@ =~= value.subrange(0, start));
    let path = uri::place_spelling(address.path);
    match address.path {
        Place::Vfs(segments) => {
            let parts = uri::encoded_segments(segments);
            if parts.len() > 0 {
                assert forall|i: int| 0 <= i < parts.len() implies has_no_slash(
                    #[trigger] parts[i],
                ) by {
                    lemma_encoded_text(segments[i], uri::is_dot_segment(segments[i]));
                    lemma_spelled_has_no_slash(parts[i], Seq::empty());
                }
                lemma_slash_parts(parts);
            }
            assert(value.last() == path.last());
        },
        Place::Document(name) => {
            lemma_encoded_text(name, false);
            if name.len() > 0 {
                assert(value.last() == path[path.len() - 1]);
                assert(is_spelled(path[path.len() - 1]));
            }
        },
    }
}

/// The address of an entry is that of its directory, followed by the spelling of its label
/// and a slash. The address of the root names the destination alone.
pub proof fn lemma_child_extends_the_directory(
    system: Seq<char>,
    path: Seq<Seq<char>>,
    label: Seq<char>,
)
    ensures
        uri::spelling(Address { system, path: Place::Vfs(path.push(label)) }) == uri::spelling(
            Address { system, path: Place::Vfs(path) },
        ) + uri::encoded_segment(label).push('/'),
        uri::spelling(Address { system, path: Place::Vfs(Seq::empty()) }) == "abap://"@
            + uri::encoded_text(system, false) + "/vfs/"@,
        uri::spelling(Address { system, path: Place::Document(label) }) == "abap://"@
            + uri::encoded_text(system, false) + "/"@ + uri::encoded_text(label, false),
{
    let parts = uri::encoded_segments(path);
    let longer = uri::encoded_segments(path.push(label));
    assert(longer =~= parts.push(uri::encoded_segment(label)));
    lemma_slashed_push(parts, uri::encoded_segment(label));
    reveal_strlit("/");
    reveal_strlit("vfs/");
    reveal_strlit("/vfs/");
    let authority = "abap://"@ + uri::encoded_text(system, false);
    assert(uri::spelling(Address { system, path: Place::Vfs(path.push(label)) }) =~= uri::spelling(
        Address { system, path: Place::Vfs(path) },
    ) + uri::encoded_segment(label).push('/'));
    assert(uri::encoded_segments(Seq::empty()) =~= Seq::empty());
    assert(uri::spelling(Address { system, path: Place::Vfs(Seq::empty()) }) =~= authority
        + "/vfs/"@);
}

proof fn lemma_slashed_push(parts: Seq<Seq<char>>, part: Seq<char>)
    ensures
        uri::slashed(parts.push(part)) == uri::slashed(parts) + part.push('/'),
    decreases parts.len(),
{
    if parts.len() == 0 {
        assert(parts.push(part).skip(1) =~= Seq::empty());
        assert(uri::slashed(parts.push(part).skip(1)) =~= Seq::empty());
        assert(uri::slashed(parts.push(part)) =~= uri::slashed(parts) + part.push('/'));
    } else {
        lemma_slashed_push(parts.skip(1), part);
        assert(parts.push(part).skip(1) =~= parts.skip(1).push(part));
        assert(uri::slashed(parts.push(part)) =~= uri::slashed(parts) + part.push('/'));
    }
}

/// A character that needs no escape: an ASCII letter or digit, or one of `-._~`.
pub open spec fn is_unreserved(c: char) -> bool {
    ||| 'a' <= c && c <= 'z'
    ||| 'A' <= c && c <= 'Z'
    ||| '0' <= c && c <= '9'
    ||| c == '-'
    ||| c == '.'
    ||| c == '_'
    ||| c == '~'
}

/// Texts are spelled character by character. Unreserved characters stand for themselves,
/// but for the dots of a segment that would navigate. Every other character is spelled as
/// its UTF-8 bytes are percent encoded.
pub proof fn lemma_characters_are_spelled(
    left: Seq<char>,
    right: Seq<char>,
    c: char,
    escape_dots: bool,
)
    ensures
        uri::encoded_text(left + right, escape_dots) == uri::encoded_text(left, escape_dots)
            + uri::encoded_text(right, escape_dots),
        is_unreserved(c) && !(escape_dots && c == '.') ==> uri::encoded_text(seq![c], escape_dots)
            == seq![c],
        !is_unreserved(c) || (escape_dots && c == '.') ==> uri::encoded_text(seq![c], escape_dots)
            == percent::percent_encoded(encode_utf8(seq![c])),
        uri::encoded_segment(left) == uri::encoded_text(left, left == "."@ || left == ".."@),
{
    lemma_encoded_concat(left, right, escape_dots);
    assert(seq![c].skip(1) =~= Seq::empty());
    assert(uri::encoded_text(seq![c].skip(1), escape_dots) =~= Seq::empty());
    assert(uri::encoded_text(seq![c], escape_dots) =~= uri::encoded_char(c, escape_dots));
}

proof fn lemma_encoded_concat(left: Seq<char>, right: Seq<char>, escape_dots: bool)
    ensures
        uri::encoded_text(left + right, escape_dots) == uri::encoded_text(left, escape_dots)
            + uri::encoded_text(right, escape_dots),
    decreases left.len(),
{
    if left.len() == 0 {
        assert(left + right =~= right);
        assert(uri::encoded_text(left, escape_dots) + uri::encoded_text(right, escape_dots)
            =~= uri::encoded_text(right, escape_dots));
    } else {
        lemma_encoded_concat(left.skip(1), right, escape_dots);
        assert((left + right).skip(1) =~= left.skip(1) + right);
        assert(uri::encoded_text(left + right, escape_dots) =~= uri::encoded_text(
            left,
            escape_dots,
        ) + uri::encoded_text(right, escape_dots));
    }
}

/// A character that may stand in a component: an unreserved one, or a delimiter that has no
/// meaning there.
pub open spec fn may_stand(c: char) -> bool {
    ||| is_unreserved(c)
    ||| c == '!' || c == '$' || c == '&' || c == '\'' || c == '(' || c == ')'
    ||| c == '*' || c == '+' || c == ',' || c == ';' || c == '='
}

/// A hexadecimal digit of either case.
pub open spec fn is_hex_digit(c: char) -> bool {
    ||| '0' <= c && c <= '9'
    ||| 'a' <= c && c <= 'f'
    ||| 'A' <= c && c <= 'F'
}

/// Every character may stand in a component or is a percent sign, and behind every percent
/// sign there are two hexadecimal digits.
pub open spec fn is_component_spelling(value: Seq<char>) -> bool {
    forall|i: int|
        0 <= i < value.len() ==> {
            ||| may_stand(#[trigger] value[i])
            ||| value[i] == '%' && i + 2 < value.len() && is_hex_digit(value[i + 1])
                && is_hex_digit(value[i + 2])
        }
}

proof fn lemma_component_spelling(value: Seq<char>)
    ensures
        uri::well_escaped(value) <==> is_component_spelling(value),
    decreases value.len(),
{
    if value.len() > 0 {
        let width: int = if value[0] == '%' {
            3
        } else {
            1
        };
        if width <= value.len() {
            let rest = value.skip(width);
            lemma_component_spelling(rest);
            if is_component_spelling(value) {
                assert forall|i: int| 0 <= i < rest.len() implies {
                    ||| may_stand(#[trigger] rest[i])
                    ||| rest[i] == '%' && i + 2 < rest.len() && is_hex_digit(rest[i + 1])
                        && is_hex_digit(rest[i + 2])
                } by {
                    assert(rest[i] == value[i + width]);
                }
                assert(may_stand(value[0]) || value[0] == '%');
            }
            if uri::well_escaped(value) {
                assert forall|i: int| 0 <= i < value.len() implies {
                    ||| may_stand(#[trigger] value[i])
                    ||| value[i] == '%' && i + 2 < value.len() && is_hex_digit(value[i + 1])
                        && is_hex_digit(value[i + 2])
                } by {
                    if i >= width {
                        assert(value[i] == rest[i - width]);
                        if i - width + 2 < rest.len() {
                            assert(rest[i - width + 1] == value[i + 1]);
                            assert(rest[i - width + 2] == value[i + 2]);
                        }
                    }
                }
            }
        } else {
            assert(value[0] == '%');
        }
    }
}

/// Which components are read: those that are spelled well and whose bytes, with all escapes
/// replaced, are the UTF-8 of a text without control characters. That text is what is read.
/// An empty component is no address, and all others that are not read are badly encoded.
pub proof fn lemma_which_components_are_read(value: Seq<char>)
    ensures
        ({
            let bytes = percent::percent_decoded(encode_utf8(value));
            let text = decode_utf8(bytes);
            let readable = value.len() > 0 && is_component_spelling(value) && valid_utf8(bytes)
                && forall|i: int|
                0 <= i < text.len() ==> !((#[trigger] text[i]) as u32 <= 0x1f || 0x7f
                    <= text[i] as u32 <= 0x9f);
            &&& readable ==> uri::component_text(value) == Ok::<Seq<char>, UriError>(text)
            &&& !readable && value.len() > 0 ==> uri::component_text(value) == Err::<
                Seq<char>,
                UriError,
            >(UriError::InvalidEncoding)
            &&& value.len() == 0 ==> uri::component_text(value) == Err::<Seq<char>, UriError>(
                UriError::InvalidAddress,
            )
        }),
{
    lemma_component_spelling(value);
    let text = decode_utf8(percent::percent_decoded(encode_utf8(value)));
    if uri::has_control(text) {
        let i = choose|i: int| 0 <= i < text.len() && uri::is_control(#[trigger] text[i]);
        assert(text[i] as u32 <= 0x1f || 0x7f <= text[i] as u32 <= 0x9f);
    } else {
        assert forall|i: int| 0 <= i < text.len() implies !((#[trigger] text[i]) as u32 <= 0x1f
            || 0x7f <= text[i] as u32 <= 0x9f) by {
            assert(!uri::is_control(text[i]));
        }
    }
}

/// Components are read one by one, and the first that cannot be read gives the error.
proof fn lemma_components_are_read(values: Seq<Seq<char>>)
    ensures
        match uri::component_texts(values) {
            Ok(texts) => {
                &&& texts.len() == values.len()
                &&& forall|i: int|
                    0 <= i < values.len() ==> #[trigger] uri::component_text(values[i]) == Ok::<
                        Seq<char>,
                        UriError,
                    >(texts[i])
            },
            Err(error) => exists|i: int|
                {
                    &&& 0 <= i < values.len()
                    &&& #[trigger] uri::component_text(values[i]) == Err::<Seq<char>, UriError>(
                        error,
                    )
                    &&& forall|j: int|
                        0 <= j < i ==> #[trigger] uri::component_text(values[j]) is Ok
                },
        },
    decreases values.len(),
{
    if values.len() > 0 {
        let rest = values.skip(1);
        lemma_components_are_read(rest);
        if uri::component_text(values[0]) is Ok {
            match uri::component_texts(rest) {
                Ok(texts) => {
                    let all = uri::component_texts(values)->Ok_0;
                    assert forall|i: int| 0 <= i < values.len() implies #[trigger] uri::component_text(
                        values[i],
                    ) == Ok::<Seq<char>, UriError>(all[i]) by {
                        if i > 0 {
                            assert(rest[i - 1] == values[i]);
                            assert(uri::component_text(rest[i - 1]) is Ok);
                        }
                    }
                },
                Err(error) => {
                    let i = choose|i: int|
                        {
                            &&& 0 <= i < rest.len()
                            &&& #[trigger] uri::component_text(rest[i]) == Err::<
                                Seq<char>,
                                UriError,
                            >(error)
                            &&& forall|j: int|
                                0 <= j < i ==> #[trigger] uri::component_text(rest[j]) is Ok
                        };
                    assert(uri::component_text(values[i + 1]) == Err::<Seq<char>, UriError>(error));
                    assert forall|j: int| 0 <= j < i + 1 implies #[trigger] uri::component_text(
                        values[j],
                    ) is Ok by {
                        if j > 0 {
                            assert(rest[j - 1] == values[j]);
                            assert(uri::component_text(rest[j - 1]) is Ok);
                        }
                    }
                },
            }
        } else {
            assert(uri::component_text(values[0]) is Err);
        }
    }
}

/// How an address is read that has an authority and a path of components: `vfs` as the
/// first component makes it a directory at the labels that follow, with or without a slash
/// behind them. Any other single component without such a slash names a document. All other
/// paths are refused.
pub proof fn lemma_which_addresses_are_read(
    authority: Seq<char>,
    parts: Seq<Seq<char>>,
    system: Seq<char>,
    texts: Seq<Seq<char>>,
)
    requires
        has_no_slash(authority),
        parts.len() > 0,
        forall|i: int| 0 <= i < parts.len() ==> has_no_slash(#[trigger] parts[i]),
        uri::component_text(authority) == Ok::<Seq<char>, UriError>(system),
        texts.len() == parts.len(),
        forall|i: int|
            0 <= i < parts.len() ==> uri::component_text(#[trigger] parts[i]) == Ok::<
                Seq<char>,
                UriError,
            >(texts[i]),
    ensures
        ({
            let closed = "abap://"@ + authority + "/"@ + uri::slashed(parts);
            let open = closed.drop_last();
            let directory = Ok::<Address, UriError>(
                Address { system, path: Place::Vfs(texts.skip(1)) },
            );
            let document = Ok::<Address, UriError>(
                Address { system, path: Place::Document(texts[0]) },
            );
            let refused = Err::<Address, UriError>(UriError::InvalidAddress);
            &&& texts[0] == "vfs"@ ==> uri::address_of(closed) == directory && uri::address_of(open)
                == directory
            &&& texts[0] != "vfs"@ ==> uri::address_of(closed) == refused
            &&& texts[0] != "vfs"@ && texts.len() == 1 ==> uri::address_of(open) == document
            &&& texts[0] != "vfs"@ && texts.len() > 1 ==> uri::address_of(open) == refused
        }),
{
    lemma_slash_parts(parts);
    let path = uri::slashed(parts);
    let last = parts[parts.len() - 1];
    assert(last.len() > 0);
    lemma_end_of_slashed(parts);
    lemma_components_are_read(parts);
    let read = uri::component_texts(parts);
    if read is Err {
        let i = choose|i: int|
            {
                &&& 0 <= i < parts.len()
                &&& #[trigger] uri::component_text(parts[i]) == Err::<Seq<char>, UriError>(
                    read->Err_0,
                )
                &&& forall|j: int| 0 <= j < i ==> #[trigger] uri::component_text(parts[j]) is Ok
            };
        assert(uri::component_text(parts[i]) is Ok);
    } else {
        assert forall|i: int| 0 <= i < parts.len() implies read->Ok_0[i] == texts[i] by {
            assert(uri::component_text(parts[i]) is Ok);
        }
        assert(read->Ok_0 =~= texts);
    }
    lemma_address_parts(authority, path);
    lemma_address_parts(authority, path.drop_last());
    let closed = "abap://"@ + authority + "/"@ + path;
    assert(closed.drop_last() =~= "abap://"@ + authority + "/"@ + path.drop_last());
    assert(closed.last() == '/');
    assert(closed.drop_last().last() == path[path.len() - 2]);
}

/// An address with an authority that cannot be read fails as that does. With a readable
/// authority it fails as the first component that cannot be read.
pub proof fn lemma_first_unreadable_component_decides(
    authority: Seq<char>,
    parts: Seq<Seq<char>>,
    bad: int,
)
    requires
        has_no_slash(authority),
        forall|i: int| 0 <= i < parts.len() ==> has_no_slash(#[trigger] parts[i]),
        0 <= bad < parts.len(),
        uri::component_text(parts[bad]) is Err,
        forall|i: int| 0 <= i < bad ==> uri::component_text(#[trigger] parts[i]) is Ok,
    ensures
        ({
            let value = "abap://"@ + authority + "/"@ + uri::slashed(parts);
            let error = match uri::component_text(authority) {
                Err(error) => error,
                Ok(_) => uri::component_text(parts[bad])->Err_0,
            };
            uri::address_of(value) == Err::<Address, UriError>(error)
        }),
{
    lemma_slash_parts(parts);
    lemma_components_are_read(parts);
    let read = uri::component_texts(parts);
    assert(uri::component_text(parts[bad]) is Err);
    if read is Err {
        let i = choose|i: int|
            {
                &&& 0 <= i < parts.len()
                &&& #[trigger] uri::component_text(parts[i]) == Err::<Seq<char>, UriError>(
                    read->Err_0,
                )
                &&& forall|j: int| 0 <= j < i ==> #[trigger] uri::component_text(parts[j]) is Ok
            };
        assert(i == bad) by {
            if i < bad {
                assert(uri::component_text(parts[i]) is Ok);
            }
        }
    }
    lemma_address_parts(authority, uri::slashed(parts));
}

/// Only texts that start with `abap://` and have a slash behind the authority are
/// addresses.
pub proof fn lemma_addresses_have_an_authority(value: Seq<char>, rest: Seq<char>)
    ensures
        !"abap://"@.is_prefix_of(value) ==> uri::address_of(value) == Err::<Address, UriError>(
            UriError::InvalidAddress,
        ),
        has_no_slash(rest) ==> uri::address_of("abap://"@ + rest) == Err::<Address, UriError>(
            UriError::InvalidAddress,
        ),
{
    if has_no_slash(rest) {
        let start = "abap://"@.len() as int;
        let whole = "abap://"@ + rest;
        assert("abap://"@ =~= whole.subrange(0, start));
        assert(whole.skip(start) =~= rest);
        lemma_first_slash(rest, Seq::empty());
    }
}

/// Where an authority and a path stand in an address.
proof fn lemma_address_parts(authority: Seq<char>, path: Seq<char>)
    requires
        has_no_slash(authority),
    ensures
        ({
            let value = "abap://"@ + authority + "/"@ + path;
            let rest = value.skip("abap://"@.len() as int);
            let at = text::first_index(rest, '/');
            &&& "abap://"@.is_prefix_of(value)
            &&& at < rest.len()
            &&& rest.take(at) == authority
            &&& rest.skip(at + 1) == path
        }),
{
    reveal_strlit("/");
    let start = "abap://"@.len() as int;
    let value = "abap://"@ + authority + "/"@ + path;
    assert("abap://"@ =~= value.subrange(0, start));
    assert("/"@ =~= seq!['/']);
    let rest = value.skip(start);
    assert(rest =~= authority.push('/') + path);
    lemma_first_slash(authority, path);
    assert(rest.take(authority.len() as int) =~= authority);
    assert(rest.skip(authority.len() as int + 1) =~= path);
}

/// In front of the last slash stands the end of the last part.
proof fn lemma_end_of_slashed(parts: Seq<Seq<char>>)
    requires
        parts.len() > 0,
        parts.last().len() > 0,
        forall|i: int| 0 <= i < parts.len() ==> has_no_slash(#[trigger] parts[i]),
    ensures
        uri::slashed(parts).len() >= 2,
        uri::slashed(parts).last() == '/',
        uri::slashed(parts)[uri::slashed(parts).len() - 2] != '/',
{
    let last = parts.last();
    assert(parts =~= parts.drop_last().push(last));
    lemma_slashed_push(parts.drop_last(), last);
    let whole = uri::slashed(parts);
    assert(whole == uri::slashed(parts.drop_last()) + last.push('/'));
    assert(has_no_slash(parts[parts.len() - 1]));
    assert(whole[whole.len() - 2] == last[last.len() - 1]);
}

} // verus!
