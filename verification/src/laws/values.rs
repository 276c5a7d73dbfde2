//! What is given for texts, paths, maps and addresses.

use crate::environment;
use crate::environment::Environment;
use crate::file_url::{classify, FileUrl};
use crate::fingerprint::Stream;
use crate::model;
use crate::path;
use crate::path::FilePath;
use crate::percent;
use crate::repository::{Mount, MountScope, Preselection};
use crate::rpc::RpcError;
use crate::slots::{Identity, Slots};
use crate::text;
use crate::text::{
    ascii_lowercase, chars_of, decimal_text, find_char, same_text, starts_with, text_between,
};
use crate::text_map;
use crate::text_map::{is_less, TextMap};
use crate::uri::{decode_component, ResourcePath, ResourceUri, UriError};
use crate::uri_laws;
use std::collections::hash_map::DefaultHasher;
use vstd::bytes::{spec_u32_to_le_bytes, spec_u64_to_le_bytes};
use vstd::prelude::*;
use vstd::std_specs::hash::DefaultHasherAdditionalSpecFns;
use vstd::utf8::*;

verus! {

/// Texts are the same where they hold the same characters.
pub proof fn lemma_same_text(left: &str, right: &str, same: bool)
    requires
        call_ensures(same_text, (left, right), same),
    ensures
        same <==> left@ == right@,
{
}

/// Lower case is taken letter by letter.
pub proof fn lemma_lowered_text(given: &str, lowered: String)
    requires
        call_ensures(ascii_lowercase, (given,), lowered),
    ensures
        text::is_lowercase_of(lowered@, given@),
{
    text::lemma_lowercase(given@);
}

/// A number that is written in decimal notation reads back.
pub proof fn lemma_written_number(number: u32, written: String)
    requires
        call_ensures(decimal_text, (number,), written),
    ensures
        text::number_of(written@) == number,
        number > 0 ==> written@[0] != '0',
        forall|i: int| 0 <= i < written@.len() ==> '0' <= #[trigger] written@[i] && written@[i] <= '9',
{
    text::lemma_decimal_spells_the_number(number as nat);
}

/// The first difference decides which of two texts is less.
pub proof fn lemma_lesser_text(
    left: &str,
    right: &str,
    prefix: Seq<char>,
    rest: Seq<char>,
    other: Seq<char>,
    less: bool,
)
    requires
        left@ == prefix + rest,
        right@ == prefix + other,
        rest.len() > 0 && other.len() > 0 ==> rest[0] != other[0],
        call_ensures(is_less, (left, right), less),
    ensures
        less <==> other.len() > 0 && (rest.len() == 0 || rest[0] < other[0]),
{
    text_map::lemma_first_difference_decides(prefix, rest, other);
}

/// A path is spelled and shown as the text that it was made from.
pub proof fn lemma_path_of_a_text(spelled: &str, made: FilePath, shown: String)
    requires
        call_ensures(FilePath::from_text, (spelled,), made),
        call_ensures(FilePath::display, (&made,), shown),
    ensures
        made.bytes@ == encode_utf8(spelled@),
        shown@ == spelled@,
{
    path::lemma_text_is_shown(spelled@);
}

/// A path that is adjoined lies below, with one slash between.
pub proof fn lemma_joined_path(base: FilePath, added: &str, whole: FilePath, absolute: bool)
    requires
        call_ensures(FilePath::join, (&base, added), whole),
        call_ensures(FilePath::is_absolute, (&base,), absolute),
        encode_utf8(added@).len() > 0 ==> encode_utf8(added@)[0] != 0x2f,
    ensures
        absolute <==> base.bytes@.len() > 0 && base.bytes@[0] == 0x2f,
        base.bytes@.len() == 0 || base.bytes@.last() == 0x2f ==> whole.bytes@ == base.bytes@
            + encode_utf8(added@),
        base.bytes@.len() > 0 && base.bytes@.last() != 0x2f ==> whole.bytes@ == base.bytes@.push(
            0x2f,
        ) + encode_utf8(added@),
{
}

/// Paths are the same where their bytes are.
pub proof fn lemma_same_path(left: FilePath, right: FilePath, same: bool)
    requires
        call_ensures(FilePath::same, (&left, &right), same),
    ensures
        same <==> left.bytes@ == right.bytes@,
{
}

/// A file in a named directory is renamed within it.
pub proof fn lemma_renamed_file(
    base: Seq<u8>,
    folder: Seq<u8>,
    name: Seq<u8>,
    file: FilePath,
    other: &str,
    renamed: FilePath,
)
    requires
        path::is_name(folder),
        path::is_name(name),
        file.bytes@ == path::joined(path::joined(base, folder), name),
        call_ensures(FilePath::with_file_name, (&file, other), renamed),
    ensures
        renamed.bytes@ == path::joined(path::joined(base, folder), encode_utf8(other@)),
{
    path::lemma_sibling(base, folder, name, encode_utf8(other@));
}

/// A variable is found by its exact name, as the first of its entries, and not otherwise.
pub proof fn lemma_found_variable(environment: Environment, name: &str, found: Option<FilePath>)
    requires
        call_ensures(Environment::path_value, (&environment, name), found),
    ensures
        ({
            let variables = environment.variables@;
            match found {
                Some(value) => exists|i: int|
                    {
                        &&& 0 <= i < variables.len()
                        &&& (#[trigger] variables[i]).name@ == name@
                        &&& variables[i].value@ == value.bytes@
                        &&& forall|j: int| 0 <= j < i ==> (#[trigger] variables[j]).name@ != name@
                    },
                None => forall|i: int|
                    0 <= i < variables.len() ==> (#[trigger] variables[i]).name@ != name@,
            }
        }),
{
    environment::lemma_first_entry_decides(environment.variables@, name@);
}

/// A variable is read as the text that its value encodes.
pub proof fn lemma_read_variable(
    environment: Environment,
    name: &str,
    bytes: Option<FilePath>,
    read: Option<String>,
)
    requires
        call_ensures(Environment::path_value, (&environment, name), bytes),
        call_ensures(Environment::text_value, (&environment, name), read),
    ensures
        bytes is None ==> read is None,
        bytes matches Some(value) ==> (read is Some <==> valid_utf8(value.bytes@)),
        bytes matches Some(value) ==> (read matches Some(read) ==> encode_utf8(read@)
            == value.bytes@),
{
    environment::lemma_values_are_read_as_text(environment.variables@, name@);
}

/// Only a URL with the scheme `file` and a path is local, and it names that path.
pub proof fn lemma_local_url(parts: Option<(String, Option<Vec<u8>>)>, url: FileUrl)
    requires
        call_ensures(classify, (parts,), url),
    ensures
        parts is None ==> url is Invalid,
        parts matches Some((scheme, path)) ==> {
            &&& scheme@ == "file"@ && path is Some ==> (url matches FileUrl::Local(local)
                && local.bytes@ == path->0@)
            &&& scheme@ != "file"@ || path is None ==> url is Remote
        },
{
}

/// What was put into a map is found under its key, and all else as before.
pub proof fn lemma_inserted_value_is_found<V>(
    map: &mut TextMap<V>,
    key: String,
    value: V,
    other: &str,
    found: Option<&V>,
)
    requires
        call_ensures(TextMap::<V>::insert, (map, key, value), ()),
        call_ensures(TextMap::<V>::get, (&*final(map), other), found),
    ensures
        other@ == key@ ==> found == Some(&value),
        other@ != key@ ==> (found is Some <==> old(map)@.dom().contains(other@)),
        other@ != key@ && found is Some ==> *found->0 == old(map)@[other@],
{
}

/// What was taken out of a map is gone, and all else as before.
pub proof fn lemma_removed_value_is_gone<V>(
    map: &mut TextMap<V>,
    key: &str,
    taken: Option<V>,
    other: &str,
    found: Option<&V>,
)
    requires
        call_ensures(TextMap::<V>::remove, (map, key), taken),
        call_ensures(TextMap::<V>::get, (&*final(map), other), found),
    ensures
        taken is Some <==> old(map)@.dom().contains(key@),
        taken matches Some(value) ==> value == old(map)@[key@],
        other@ == key@ ==> found is None,
        other@ != key@ ==> (found is Some <==> old(map)@.dom().contains(other@)),
        other@ != key@ && found is Some ==> *found->0 == old(map)@[other@],
{
}

/// What was put under an identity is found there, and all else as before.
pub proof fn lemma_inserted_slot_is_found<K: Identity, V>(
    slots: &mut Slots<K, V>,
    key: K,
    value: V,
    other: K,
    found: Option<&V>,
)
    requires
        call_ensures(Slots::<K, V>::insert, (slots, key, value), ()),
        call_ensures(Slots::<K, V>::get, (&*final(slots), &other), found),
    ensures
        other@ == key@ ==> found == Some(&value),
        other@ != key@ ==> (found is Some <==> old(slots)@.dom().contains(other@)),
        other@ != key@ && found is Some ==> *found->0 == old(slots)@[other@],
{
}

/// Whether two addresses name the same place.
pub open spec fn names_the_same(left: ResourceUri, right: ResourceUri) -> bool {
    &&& left.system.0@ == right.system.0@
    &&& match (left.path, right.path) {
        (ResourcePath::Vfs(left), ResourcePath::Vfs(right)) => model::are_same_texts(
            left@,
            right@,
        ),
        (ResourcePath::Document(left), ResourcePath::Document(right)) => left@ == right@,
        _ => false,
    }
}

proof fn lemma_same_address(left: ResourceUri, right: ResourceUri)
    requires
        left@ == right@,
    ensures
        names_the_same(left, right),
{
    if let (ResourcePath::Vfs(one), ResourcePath::Vfs(other)) = (left.path, right.path) {
        model::lemma_same_texts(one@, other@);
    }
}

/// What was spelled is read back, with every label and the case of the destination as they
/// were.
pub proof fn lemma_spelled_address_is_read_back(
    address: ResourceUri,
    spelled: String,
    again: &str,
    read: Result<ResourceUri, UriError>,
)
    requires
        uri_laws::is_addressable(address@),
        call_ensures(ResourceUri::to_string, (&address,), spelled),
        again@ == spelled@,
        call_ensures(ResourceUri::from_str, (again,), read),
    ensures
        read matches Ok(read) && names_the_same(read, address),
{
    uri_laws::lemma_address_reads_back(address@);
    lemma_same_address(read->Ok_0, address);
}

/// Addresses with the same spelling name the same place.
pub proof fn lemma_same_spelling_names_the_same(
    left: ResourceUri,
    right: ResourceUri,
    spelled: String,
    other: String,
)
    requires
        call_ensures(ResourceUri::to_string, (&left,), spelled),
        call_ensures(ResourceUri::to_string, (&right,), other),
        spelled@ == other@,
    ensures
        names_the_same(left, right),
{
    uri_laws::lemma_spelling_is_unique(left@, right@);
    lemma_same_address(left, right);
}

/// A component reads back the text that its UTF-8 bytes encode once all escapes are
/// replaced.
pub proof fn lemma_decoded_component(value: &str, decoded: Result<String, UriError>)
    requires
        call_ensures(decode_component, (value,), decoded),
    ensures
        decoded matches Ok(read) ==> {
            &&& value@.len() > 0
            &&& uri_laws::is_component_spelling(value@)
            &&& encode_utf8(read@) == percent::percent_decoded(encode_utf8(value@))
        },
        decoded matches Err(error) ==> (error == UriError::InvalidAddress <==> value@.len() == 0),
{
    uri_laws::lemma_which_components_are_read(value@);
    if decoded is Ok {
        decode_utf8_encode_utf8(percent::percent_decoded(encode_utf8(value@)));
    }
}

/// Each reason for an error has its own code, and the message that was given for it.
pub proof fn lemma_error_codes(
    message: String,
    params: RpcError,
    because: RpcError,
    request: RpcError,
    internal: RpcError,
    failed: RpcError,
)
    requires
        call_ensures(RpcError::invalid_params, (message,), params),
        call_ensures(RpcError::invalid_request_because, (message,), because),
        call_ensures(RpcError::invalid_request, (), request),
        call_ensures(RpcError::internal_error, (message,), internal),
        call_ensures(RpcError::request_failed, (message,), failed),
    ensures
        params.code == -32602 && params.message@ == message@,
        because.code == -32600 && because.message@ == message@,
        request.code == -32600 && request.message@ == "Invalid request"@,
        internal.code == -32603 && internal.message@ == message@,
        failed.code == -32803 && failed.message@ == message@,
{
}

/// A part of a text holds the characters between two positions, and the first occurrence
/// of a character lies where none lies before it.
pub proof fn lemma_parts_of_a_text(
    whole: &str,
    chars: Vec<char>,
    from: usize,
    to: usize,
    part: String,
    wanted: char,
    found: usize,
    prefix: &str,
    starts: bool,
)
    requires
        from <= to <= whole@.len(),
        call_ensures(chars_of, (whole,), chars),
        call_ensures(text_between, (&chars, from, to), part),
        call_ensures(find_char, (&chars, wanted, from, to), found),
        call_ensures(starts_with, (&chars, prefix), starts),
    ensures
        part@.len() == to - from,
        forall|i: int| 0 <= i < part@.len() ==> #[trigger] part@[i] == whole@[from + i],
        from <= found <= to,
        forall|i: int| from <= i < found ==> #[trigger] whole@[i] != wanted,
        found < to ==> whole@[found as int] == wanted,
        starts <==> prefix@.len() <= whole@.len() && forall|i: int|
            0 <= i < prefix@.len() ==> #[trigger] prefix@[i] == whole@[i],
{
    let range = whole@.subrange(from as int, to as int);
    text::lemma_first_index(range, wanted);
    assert forall|i: int| from <= i < found implies #[trigger] whole@[i] != wanted by {
        assert(range[i - from] == whole@[i]);
    }
    if prefix@.len() <= whole@.len() && (forall|i: int|
        0 <= i < prefix@.len() ==> #[trigger] prefix@[i] == whole@[i]) {
        assert(prefix@ =~= whole@.subrange(0, prefix@.len() as int));
    }
    if starts {
        assert forall|i: int| 0 <= i < prefix@.len() implies #[trigger] prefix@[i] == whole@[i] by {
            assert(whole@.subrange(0, prefix@.len() as int)[i] == whole@[i]);
        }
    }
}

/// A stream takes up the UTF-8 bytes of a text and a byte that ends it, and numbers with
/// their lowest byte first. Its hash is that of all of its bytes.
pub proof fn lemma_stream(
    text_stream: &mut Stream,
    written: &str,
    count_stream: &mut Stream,
    count: u64,
    number_stream: &mut Stream,
    number: u32,
    fresh: Stream,
    hashed: Stream,
    hash: u64,
)
    requires
        call_ensures(Stream::put_text, (text_stream, written), ()),
        call_ensures(Stream::put_count, (count_stream, count), ()),
        call_ensures(Stream::put_number, (number_stream, number), ()),
        call_ensures(Stream::new, (), fresh),
        call_ensures(Stream::hash, (&hashed,), hash),
    ensures
        fresh@.len() == 0,
        final(text_stream)@ == old(text_stream)@ + encode_utf8(written@) + seq![0xffu8],
        final(count_stream)@ == old(count_stream)@ + spec_u64_to_le_bytes(count),
        final(number_stream)@ == old(number_stream)@ + spec_u32_to_le_bytes(number),
        hash == DefaultHasher::spec_finish(seq![hashed@]),
{
    assert(final(text_stream)@ =~= old(text_stream)@ + encode_utf8(written@) + seq![0xffu8]);
}

/// Mounts show what they are made for, under the label that they are made with.
pub proof fn lemma_made_mounts(
    label: String,
    package: String,
    preselections: Vec<Preselection>,
    library: Mount,
    own: Mount,
    named: Mount,
    selection: Mount,
    shown: &str,
    defaults: Vec<Mount>,
)
    requires
        call_ensures(Mount::system_library, (label,), library),
        call_ensures(Mount::package, (package,), own),
        call_ensures(Mount::named_package, (label, package), named),
        call_ensures(Mount::selection, (label, preselections), selection),
        call_ensures(Mount::label, (&selection,), shown),
        call_ensures(Mount::defaults, (), defaults),
    ensures
        library.label@ == label@ && library.scope is SystemLibrary && library.facets is None,
        own.label@ == package@ && own.facets is None,
        own.scope matches MountScope::Package(mounted) && mounted@ == package@,
        named.label@ == label@ && named.facets is None,
        named.scope matches MountScope::NamedPackage(mounted) && mounted@ == package@,
        selection.label@ == label@ && selection.facets is None,
        selection.scope matches MountScope::Selection(selected) && model::views(selected@)
            == model::views(preselections@),
        shown@ == label@,
        defaults@.len() == 1,
        defaults@[0].label@ == "System Library"@ && defaults@[0].scope is SystemLibrary
            && defaults@[0].facets is None,
{
    model::lemma_views(defaults@);
    assert(model::views(defaults@)[0] == defaults@[0]@);
}

} // verus!
