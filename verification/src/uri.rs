//! Addresses of repository views and projected files.
//!
//! Two kinds of address exist, here for a destination `DEV`:
//!
//! - `abap://DEV/zclmyclass.clas.abap`
//! - `abap://DEV/vfs/ZPACKAGE/Source%20Library/Classes/zclmyclass.clas.abap`
//!
//! The first names a document. An object type and name form a unique pair within a
//! system, so it does not depend on the mounts through which the object was found.
//! The second names a place in the virtual filesystem of a project view, which a
//! client can spell without holding any server state.
//!
//! The authority identifies a [`DestinationId`]. The project root belongs to the
//! editor connection, so it does not appear in the URI.

use crate::config::DestinationId;
use crate::model;
use crate::model::copy_texts;
use crate::percent;
use crate::percent::{decode_text, encode_non_alphanumeric};
use crate::text;
use crate::text::{chars_of, find_char, same_text, starts_with, text_between};
use std::str::FromStr;
use vstd::prelude::*;
use vstd::utf8::*;

verus! {

/// An address within a configured destination.
///
/// `abap://DEV/vfs/Flight/Classes/` identifies a browser directory and
/// `abap://DEV/zcl_example.clas.abap` a projected file.
#[derive(Debug, Eq, PartialEq)]
pub struct ResourceUri {
    pub system: DestinationId,
    pub path: ResourcePath,
}

/// The part of a [`ResourceUri`] following its destination.
#[derive(Debug, Eq, PartialEq)]
pub enum ResourcePath {
    /// Labels in the project view. A label containing slashes is still one segment,
    /// for example `/DMO/FLIGHT`.
    Vfs(Vec<String>),
    /// A canonical projected file name.
    Document(String),
}

/// Why a text is no resource URI.
#[derive(Clone, Copy, Debug, Eq, PartialEq, Structural)]
pub enum UriError {
    InvalidAddress,
    InvalidEncoding,
}

/// The message of an error.
pub open spec fn uri_error_text(error: UriError) -> Seq<char> {
    match error {
        UriError::InvalidAddress =>
            "Expected abap://DESTINATION/vfs/path/ or abap://DESTINATION/filename"@,
        UriError::InvalidEncoding =>
            "Invalid URI component. Reserved characters must be percent encoded"@,
    }
}

impl UriError {
    /// The message of the error.
    pub fn to_string(&self) -> (message: String)
        ensures
            message@ == uri_error_text(*self),
    {
        match self {
            UriError::InvalidAddress =>
                "Expected abap://DESTINATION/vfs/path/ or abap://DESTINATION/filename".to_owned(),
            UriError::InvalidEncoding =>
                "Invalid URI component. Reserved characters must be percent encoded".to_owned(),
        }
    }
}

/// What an address path names.
pub enum Place {
    Vfs(Seq<Seq<char>>),
    Document(Seq<char>),
}

/// What a resource URI names.
pub struct Address {
    pub system: Seq<char>,
    pub path: Place,
}

impl View for ResourcePath {
    type V = Place;

    open spec fn view(&self) -> Place {
        match self {
            ResourcePath::Vfs(segments) => Place::Vfs(model::views(segments@)),
            ResourcePath::Document(name) => Place::Document(name@),
        }
    }
}

impl View for ResourceUri {
    type V = Address;

    open spec fn view(&self) -> Address {
        Address { system: self.system@, path: self.path@ }
    }
}

impl Clone for ResourcePath {
    fn clone(&self) -> (copy: Self)
        ensures
            copy@ == self@,
    {
        match self {
            ResourcePath::Vfs(segments) => ResourcePath::Vfs(copy_texts(segments)),
            ResourcePath::Document(name) => ResourcePath::Document(name.clone()),
        }
    }
}

impl Clone for ResourceUri {
    fn clone(&self) -> (copy: Self)
        ensures
            copy@ == self@,
    {
        ResourceUri { system: self.system.clone(), path: self.path.clone() }
    }
}

/// An ASCII letter or digit.
pub open spec fn is_alphanumeric(c: char) -> bool {
    '0' <= c <= '9' || 'A' <= c <= 'Z' || 'a' <= c <= 'z'
}

/// A hexadecimal digit of either case.
pub open spec fn is_hex(c: char) -> bool {
    '0' <= c <= '9' || 'A' <= c <= 'F' || 'a' <= c <= 'f'
}

/// A character that may stand for itself in a component.
pub open spec fn is_component_char(c: char) -> bool {
    ||| is_alphanumeric(c)
    ||| c == '-' || c == '.' || c == '_' || c == '~'
    ||| c == '!' || c == '$' || c == '&' || c == '\'' || c == '(' || c == ')'
    ||| c == '*' || c == '+' || c == ',' || c == ';' || c == '='
}

/// A control character: category Cc of the Unicode character database.
pub open spec fn is_control(c: char) -> bool {
    c as u32 <= 0x1f || 0x7f <= c as u32 <= 0x9f
}

pub open spec fn has_control(chars: Seq<char>) -> bool {
    exists|i: int| 0 <= i < chars.len() && is_control(#[trigger] chars[i])
}

/// Every percent sign is followed by two hexadecimal digits, and all that stands
/// outside of such escapes may stand for itself.
pub open spec fn well_escaped(value: Seq<char>) -> bool
    decreases value.len(),
{
    if value.len() == 0 {
        true
    } else if value[0] == '%' {
        value.len() >= 3 && is_hex(value[1]) && is_hex(value[2]) && well_escaped(value.skip(3))
    } else {
        is_component_char(value[0]) && well_escaped(value.skip(1))
    }
}

/// The text that a component spells, or why it spells none.
pub open spec fn component_text(value: Seq<char>) -> Result<Seq<char>, UriError> {
    let bytes = percent::percent_decoded(encode_utf8(value));
    if value.len() == 0 {
        Err(UriError::InvalidAddress)
    } else if !well_escaped(value) || !valid_utf8(bytes) || has_control(decode_utf8(bytes)) {
        Err(UriError::InvalidEncoding)
    } else {
        Ok(decode_utf8(bytes))
    }
}

/// The parts of a text between slashes.
pub open spec fn slash_parts(chars: Seq<char>) -> Seq<Seq<char>>
    decreases chars.len(),
{
    let at = text::first_index(chars, '/');
    if 0 <= at < chars.len() {
        seq![chars.take(at)] + slash_parts(chars.skip(at + 1))
    } else {
        seq![chars]
    }
}

/// The texts that several components spell. The first component that spells none
/// decides the error.
pub open spec fn component_texts(values: Seq<Seq<char>>) -> Result<Seq<Seq<char>>, UriError>
    decreases values.len(),
{
    if values.len() == 0 {
        Ok(Seq::empty())
    } else {
        match component_text(values[0]) {
            Err(error) => Err(error),
            Ok(first) => match component_texts(values.skip(1)) {
                Err(error) => Err(error),
                Ok(rest) => Ok(seq![first] + rest),
            },
        }
    }
}

/// A path without the slash that may end it.
pub open spec fn without_final_slash(path: Seq<char>) -> Seq<char> {
    if path.len() > 0 && path.last() == '/' {
        path.drop_last()
    } else {
        path
    }
}

/// What the path of a URI names, given the texts that its components spell and
/// whether the URI ends in a slash.
pub open spec fn place_of(texts: Seq<Seq<char>>, final_slash: bool) -> Result<Place, UriError> {
    if texts.len() > 0 && texts[0] == "vfs"@ {
        Ok(Place::Vfs(texts.skip(1)))
    } else if texts.len() == 1 && !final_slash {
        Ok(Place::Document(texts[0]))
    } else {
        Err(UriError::InvalidAddress)
    }
}

/// What a text addresses, or why it addresses nothing.
pub open spec fn address_of(value: Seq<char>) -> Result<Address, UriError> {
    if !"abap://"@.is_prefix_of(value) {
        Err(UriError::InvalidAddress)
    } else {
        let rest = value.skip("abap://"@.len() as int);
        let at = text::first_index(rest, '/');
        if at == rest.len() {
            Err(UriError::InvalidAddress)
        } else {
            match component_text(rest.take(at)) {
                Err(error) => Err(error),
                Ok(system) => match component_texts(
                    slash_parts(without_final_slash(rest.skip(at + 1))),
                ) {
                    Err(error) => Err(error),
                    Ok(texts) => match place_of(texts, value.last() == '/') {
                        Err(error) => Err(error),
                        Ok(path) => Ok(Address { system, path }),
                    },
                },
            }
        }
    }
}

/// The contents of a parsed component.
pub open spec fn text_result(result: Result<String, UriError>) -> Result<Seq<char>, UriError> {
    match result {
        Ok(text) => Ok(text@),
        Err(error) => Err(error),
    }
}

/// What a parsed URI names.
pub open spec fn address_result(result: Result<ResourceUri, UriError>) -> Result<Address, UriError> {
    match result {
        Ok(uri) => Ok(uri@),
        Err(error) => Err(error),
    }
}

fn is_hex_char(c: char) -> (yes: bool)
    ensures
        yes == is_hex(c),
{
    ('0' <= c && c <= '9') || ('A' <= c && c <= 'F') || ('a' <= c && c <= 'f')
}

fn stands_for_itself(c: char) -> (yes: bool)
    ensures
        yes == is_component_char(c),
{
    ('0' <= c && c <= '9') || ('A' <= c && c <= 'Z') || ('a' <= c && c <= 'z') || c == '-' || c
        == '.' || c == '_' || c == '~' || c == '!' || c == '$' || c == '&' || c == '\'' || c == '('
        || c == ')' || c == '*' || c == '+' || c == ',' || c == ';' || c == '='
}

/// Whether a character is a control character, which can mess with display and logs.
pub fn is_control_char(c: char) -> (yes: bool)
    ensures
        yes == is_control(c),
{
    let code: u32 = c as u32;
    code <= 0x1f || (0x7f <= code && code <= 0x9f)
}

fn is_well_escaped(value: &Vec<char>) -> (yes: bool)
    ensures
        yes == well_escaped(value@),
{
    let mut at: usize = 0;
    assert(value@.skip(0) =~= value@);
    while at < value.len()
        invariant
            at <= value@.len(),
            well_escaped(value@) == well_escaped(value@.skip(at as int)),
        decreases value@.len() - at,
    {
        let ghost rest = value@.skip(at as int);
        if value[at] == '%' {
            if value.len() - at < 3 || !is_hex_char(value[at + 1]) || !is_hex_char(value[at + 2]) {
                return false;
            }
            assert(rest.skip(3) =~= value@.skip(at + 3));
            at = at + 3;
        } else {
            if !stands_for_itself(value[at]) {
                return false;
            }
            assert(rest.skip(1) =~= value@.skip(at + 1));
            at = at + 1;
        }
    }
    true
}

fn contains_control(text: &str) -> (yes: bool)
    ensures
        yes == has_control(text@),
{
    let chars = chars_of(text);
    let mut at: usize = 0;
    while at < chars.len()
        invariant
            at <= chars@.len(),
            chars@ == text@,
            forall|i: int| 0 <= i < at ==> !is_control(#[trigger] chars@[i]),
        decreases chars@.len() - at,
    {
        if is_control_char(chars[at]) {
            return true;
        }
        at = at + 1;
    }
    false
}

/// Decodes one component. Percent decoding by itself is permissive, so the spelling
/// is checked before it and the outcome after it.
pub fn decode_component(value: &str) -> (decoded: Result<String, UriError>)
    ensures
        text_result(decoded) == component_text(value@),
{
    if value.is_empty() {
        return Err(UriError::InvalidAddress);
    }
    if !is_well_escaped(&chars_of(value)) {
        return Err(UriError::InvalidEncoding);
    }
    match decode_text(value) {
        None => Err(UriError::InvalidEncoding),
        Some(decoded) => {
            // Control characters can mess with display and logging.
            if contains_control(decoded.as_str()) {
                Err(UriError::InvalidEncoding)
            } else {
                Ok(decoded)
            }
        },
    }
}

/// Decodes the components between slashes in part of a character list.
fn decode_components(chars: &Vec<char>, from: usize, to: usize) -> (decoded: Result<
    Vec<String>,
    UriError,
>)
    requires
        from <= to <= chars@.len(),
    ensures
        match decoded {
            Ok(texts) => component_texts(slash_parts(chars@.subrange(from as int, to as int)))
                == Ok::<Seq<Seq<char>>, UriError>(model::views(texts@)),
            Err(error) => component_texts(slash_parts(chars@.subrange(from as int, to as int)))
                == Err::<Seq<Seq<char>>, UriError>(error),
        },
{
    let ghost whole = component_texts(slash_parts(chars@.subrange(from as int, to as int)));
    let mut texts: Vec<String> = Vec::new();
    let mut at: usize = from;
    proof {
        let rest = component_texts(slash_parts(chars@.subrange(at as int, to as int)));
        if rest is Ok {
            assert(model::views(texts@) + rest->Ok_0 =~= rest->Ok_0);
        }
    }
    loop
        invariant
            from <= at <= to <= chars@.len(),
            match component_texts(slash_parts(chars@.subrange(at as int, to as int))) {
                Err(error) => whole == Err::<Seq<Seq<char>>, UriError>(error),
                Ok(rest) => whole == Ok::<Seq<Seq<char>>, UriError>(
                    model::views(texts@) + rest,
                ),
            },
            whole == component_texts(slash_parts(chars@.subrange(from as int, to as int))),
        decreases to - at,
    {
        let next = find_char(chars, '/', at, to);
        let ghost rest = chars@.subrange(at as int, to as int);
        let ghost parts = slash_parts(rest);
        proof {
            text::lemma_first_index(rest, '/');
            assert(rest.take(next - at) =~= chars@.subrange(at as int, next as int));
        }
        let part = text_between(chars, at, next);
        assert(parts[0] == part@) by {
            if next == to {
                assert(rest =~= chars@.subrange(at as int, next as int));
            }
        }
        match decode_component(part.as_str()) {
            Err(error) => {
                return Err(error);
            },
            Ok(decoded) => {
                let ghost before = model::views(texts@);
                texts.push(decoded);
                assert(model::views(texts@) =~= before.push(decoded@));
                if next == to {
                    proof {
                        assert(parts.skip(1) =~= Seq::empty());
                        assert(component_texts(parts.skip(1)) == Ok::<Seq<Seq<char>>, UriError>(
                            Seq::empty(),
                        ));
                        assert(before + (seq![decoded@] + Seq::<Seq<char>>::empty()) =~= model::views(texts@));
                    }
                    return Ok(texts);
                }
                proof {
                    let after = chars@.subrange(next + 1, to as int);
                    assert(rest.skip(next - at + 1) =~= after);
                    assert(parts.skip(1) =~= slash_parts(after));
                    match component_texts(slash_parts(after)) {
                        Err(error) => {},
                        Ok(more) => {
                            assert(before + (seq![decoded@] + more) =~= model::views(texts@) + more);
                        },
                    }
                }
                at = next + 1;
            },
        }
    }
}

impl ResourceUri {
    /// Reads an address. It is split before it is decoded, since general URL parsers can
    /// remove dot segments, which would change the meaning of repository labels.
    pub fn from_str(value: &str) -> (parsed: Result<ResourceUri, UriError>)
        ensures
            address_result(parsed) == address_of(value@),
    {
        let chars = chars_of(value);
        if !starts_with(&chars, "abap://") {
            return Err(UriError::InvalidAddress);
        }
        proof {
            reveal_strlit("abap://");
            reveal_strlit("vfs");
        }
        let ghost rest = value@.skip(7);
        let len: usize = chars.len();
        let slash = find_char(&chars, '/', 7, len);
        assert(chars@.subrange(7, len as int) =~= rest);
        if slash == len {
            return Err(UriError::InvalidAddress);
        }
        let authority = text_between(&chars, 7, slash);
        assert(authority@ =~= rest.take(slash - 7));
        let system = match decode_component(authority.as_str()) {
            Err(error) => {
                return Err(error);
            },
            Ok(system) => DestinationId::from_uri(system),
        };

        let final_slash = chars[len - 1] == '/';
        let end: usize = if slash + 1 < len && final_slash {
            len - 1
        } else {
            len
        };
        let ghost path = rest.skip(slash - 7 + 1);
        assert(path =~= value@.skip(slash + 1));
        assert(chars@.subrange(slash + 1, end as int) =~= without_final_slash(path));
        let mut texts = match decode_components(&chars, slash + 1, end) {
            Err(error) => {
                return Err(error);
            },
            Ok(texts) => texts,
        };
        let ghost views = model::views(texts@);

        if texts.len() > 0 && same_text(texts[0].as_str(), "vfs") {
            texts.remove(0);
            assert(model::views(texts@) =~= views.skip(1));
            return Ok(ResourceUri { system, path: ResourcePath::Vfs(texts) });
        }
        if texts.len() == 1 && !final_slash {
            let name = texts.remove(0);
            return Ok(ResourceUri { system, path: ResourcePath::Document(name) });
        }
        Err(UriError::InvalidAddress)
    }
}

impl FromStr for ResourceUri {
    type Err = UriError;

    fn from_str(value: &str) -> (parsed: Result<Self, UriError>)
        ensures
            address_result(parsed) == address_of(value@),
    {
        ResourceUri::from_str(value)
    }
}

/// A character that a component spells as itself. The dot separates the parts of a
/// file name, so it is among them.
pub open spec fn is_plain(c: char) -> bool {
    is_alphanumeric(c) || c == '-' || c == '.' || c == '_' || c == '~'
}

/// The spelling of one character: plain characters stand for themselves, but for
/// dots where those are to be escaped, and every UTF-8 byte of others is escaped.
pub open spec fn encoded_char(c: char, escape_dots: bool) -> Seq<char> {
    if is_plain(c) && !(escape_dots && c == '.') {
        seq![c]
    } else {
        percent::percent_encoded(encode_utf8(seq![c]))
    }
}

/// The spelling of a text as one component.
pub open spec fn encoded_text(chars: Seq<char>, escape_dots: bool) -> Seq<char>
    decreases chars.len(),
{
    if chars.len() == 0 {
        Seq::empty()
    } else {
        encoded_char(chars[0], escape_dots) + encoded_text(chars.skip(1), escape_dots)
    }
}

/// A segment that is `.` or `..`, which would mean navigation in a path.
pub open spec fn is_dot_segment(segment: Seq<char>) -> bool {
    segment == "."@ || segment == ".."@
}

/// The spelling of a segment of a virtual filesystem path.
pub open spec fn encoded_segment(segment: Seq<char>) -> Seq<char> {
    encoded_text(segment, is_dot_segment(segment))
}

/// The spellings of several segments.
pub open spec fn encoded_segments(segments: Seq<Seq<char>>) -> Seq<Seq<char>> {
    segments.map_values(|segment: Seq<char>| encoded_segment(segment))
}

/// All parts, each followed by a slash.
pub open spec fn slashed(parts: Seq<Seq<char>>) -> Seq<char>
    decreases parts.len(),
{
    if parts.len() == 0 {
        Seq::empty()
    } else {
        parts[0].push('/') + slashed(parts.skip(1))
    }
}

/// The spelling of what follows the destination.
pub open spec fn place_spelling(path: Place) -> Seq<char> {
    match path {
        Place::Vfs(segments) => "vfs/"@ + slashed(encoded_segments(segments)),
        Place::Document(name) => encoded_text(name, false),
    }
}

/// The spelling of an address.
pub open spec fn spelling(address: Address) -> Seq<char> {
    "abap://"@ + encoded_text(address.system, false) + "/"@ + place_spelling(address.path)
}

fn is_plain_char(c: char) -> (yes: bool)
    ensures
        yes == is_plain(c),
{
    ('0' <= c && c <= '9') || ('A' <= c && c <= 'Z') || ('a' <= c && c <= 'z') || c == '-' || c
        == '.' || c == '_' || c == '~'
}

/// Spells a text as one component.
fn encode_component(plain: &str, escape_dots: bool) -> (encoded: String)
    ensures
        encoded@ == encoded_text(plain@, escape_dots),
{
    let chars = chars_of(plain);
    let mut encoded = String::new();
    let mut at: usize = 0;
    assert(plain@.skip(0) =~= plain@);
    while at < chars.len()
        invariant
            at <= chars@.len(),
            chars@ == plain@,
            encoded_text(plain@, escape_dots) =~= encoded@ + encoded_text(
                plain@.skip(at as int),
                escape_dots,
            ),
        decreases chars@.len() - at,
    {
        let c = chars[at];
        let ghost before = encoded@;
        let ghost rest = plain@.skip(at as int);
        if is_plain_char(c) && !(escape_dots && c == '.') {
            encoded.push(c);
        } else {
            let mut single = String::new();
            single.push(c);
            assert(single@ =~= seq![c]);
            encoded.append(encode_non_alphanumeric(single.as_str()).as_str());
        }
        proof {
            assert(rest[0] == c);
            assert(rest.skip(1) =~= plain@.skip(at + 1));
            assert(encoded@ =~= before + encoded_char(c, escape_dots));
        }
        at = at + 1;
    }
    encoded
}

impl ResourceUri {
    /// Spells the address. Dots are left as they are, since they separate the parts
    /// of a file name, except in segments that would mean navigation.
    pub fn to_string(&self) -> (spelled: String)
        ensures
            spelled@ == spelling(self@),
    {
        let mut spelled = "abap://".to_owned();
        spelled.append(encode_component(self.system.as_str(), false).as_str());
        spelled.append("/");
        match &self.path {
            ResourcePath::Vfs(segments) => {
                spelled.append("vfs/");
                let ghost start = spelled@;
                let ghost views = model::views(segments@);
                let ghost parts = encoded_segments(views);
                let mut at: usize = 0;
                assert(parts.skip(0) =~= parts);
                while at < segments.len()
                    invariant
                        at <= segments@.len(),
                        views == model::views(segments@),
                        parts == encoded_segments(views),
                        start + slashed(parts) =~= spelled@ + slashed(parts.skip(at as int)),
                    decreases segments@.len() - at,
                {
                    let ghost before = spelled@;
                    let segment = segments[at].as_str();
                    let dots = same_text(segment, ".") || same_text(segment, "..");
                    spelled.append(encode_component(segment, dots).as_str());
                    spelled.push('/');
                    proof {
                        let rest = parts.skip(at as int);
                        assert(views[at as int] == segment@);
                        assert(rest[0] == encoded_segment(segment@));
                        assert(rest.skip(1) =~= parts.skip(at + 1));
                        assert(spelled@ =~= before + rest[0].push('/'));
                    }
                    at = at + 1;
                }
                assert(spelled@ =~= spelling(self@));
            },
            ResourcePath::Document(name) => {
                spelled.append(encode_component(name.as_str(), false).as_str());
            },
        }
        spelled
    }
}

} // verus!
