//! Filesystem paths.
//!
//! A path is kept as the bytes that the operating system uses for it, which need
//! not be text. The operations follow the conventions of POSIX systems: a slash
//! separates components, and a leading slash makes a path absolute.

use vstd::prelude::*;
use vstd::utf8::*;

verus! {

/// A path, as the operating system spells it.
#[derive(Debug, Eq, Hash, PartialEq)]
pub struct FilePath {
    pub bytes: Vec<u8>,
}

impl View for FilePath {
    type V = Seq<u8>;

    open spec fn view(&self) -> Seq<u8> {
        self.bytes@
    }
}

/// A path that starts at the root of the filesystem.
pub open spec fn is_absolute(path: Seq<u8>) -> bool {
    path.len() > 0 && path[0] == 0x2f
}

/// A path adjoined to another. One slash separates the two, and an absolute second
/// path replaces the first.
pub open spec fn joined(base: Seq<u8>, path: Seq<u8>) -> Seq<u8> {
    if is_absolute(path) {
        path
    } else if base.len() == 0 || base.last() == 0x2f {
        base + path
    } else {
        base.push(0x2f) + path
    }
}

/// The length of what precedes the components of a path: the slash of an absolute
/// path, or the dot of a path that starts at the current directory.
pub open spec fn lead(path: Seq<u8>) -> int {
    if path.len() > 0 && (path[0] == 0x2f || (path[0] == 0x2e && (path.len() == 1 || path[1]
        == 0x2f))) {
        1
    } else {
        0
    }
}

/// Where the last component starts, behind the last slash or the lead.
pub open spec fn last_start(path: Seq<u8>, from: int) -> int
    decreases path.len(),
{
    if path.len() <= from || path.len() == 0 {
        from
    } else if path.last() == 0x2f {
        path.len() as int
    } else {
        last_start(path.drop_last(), from)
    }
}

/// The path before the last component and the slash in front of it.
pub open spec fn before_last(path: Seq<u8>, from: int) -> Seq<u8> {
    let start = last_start(path, from);
    if start > from {
        path.take(start - 1)
    } else {
        path.take(from)
    }
}

/// The path without empty components and single dots at its end.
pub open spec fn trimmed(path: Seq<u8>, from: int) -> Seq<u8>
    decreases path.len(),
    via trimmed_decreases
{
    if path.len() <= from || from < 0 {
        path
    } else {
        let component = path.skip(last_start(path, from));
        if component =~= seq![] || component =~= seq![0x2eu8] {
            trimmed(before_last(path, from), from)
        } else {
            path
        }
    }
}

#[via_fn]
proof fn trimmed_decreases(path: Seq<u8>, from: int) {
    if path.len() > from && from >= 0 {
        lemma_last_start(path, from);
    }
}

/// The last component starts at the lead or behind a slash, and holds no slash.
pub proof fn lemma_last_start(path: Seq<u8>, from: int)
    requires
        0 <= from <= path.len(),
    ensures
        from <= last_start(path, from) <= path.len(),
        last_start(path, from) > from ==> path[last_start(path, from) - 1] == 0x2f,
        forall|i: int| last_start(path, from) <= i < path.len() ==> path[i] != 0x2f,
    decreases path.len(),
{
    if path.len() > from && path.last() != 0x2f {
        let shorter = path.drop_last();
        lemma_last_start(shorter, from);
        assert forall|i: int| last_start(path, from) <= i < path.len() implies path[i] != 0x2f by {
            if i < shorter.len() {
                assert(shorter[i] == path[i]);
            }
        }
    }
}

/// The directory part of a path whose last component is a name.
pub open spec fn directory(path: Seq<u8>) -> Option<Seq<u8>> {
    let from = lead(path);
    let end = trimmed(path, from);
    let component = end.skip(last_start(end, from));
    if end.len() <= from || component =~= seq![0x2eu8, 0x2eu8] {
        None
    } else {
        Some(trimmed(before_last(end, from), from))
    }
}

/// The path with another last component. A path that ends in no name is extended.
pub open spec fn with_name(path: Seq<u8>, name: Seq<u8>) -> Seq<u8> {
    match directory(path) {
        Some(base) => joined(base, name),
        None => joined(path, name),
    }
}

/// A lossy reading of bytes that are not valid UTF-8.
pub uninterp spec fn lossy_text(bytes: Seq<u8>) -> Seq<char>;

/// How a path is shown to people.
pub open spec fn shown(path: Seq<u8>) -> Seq<char> {
    if valid_utf8(path) {
        decode_utf8(path)
    } else {
        lossy_text(path)
    }
}

/// `String::from_utf8_lossy`: valid UTF-8 is read as the text that it encodes. What
/// becomes of other bytes is not said here.
#[verifier::external_body]
fn read_lossy(bytes: &Vec<u8>) -> (read: String)
    ensures
        read@ == (if valid_utf8(bytes@) {
            decode_utf8(bytes@)
        } else {
            lossy_text(bytes@)
        }),
{
    String::from_utf8_lossy(bytes).into_owned()
}

impl Clone for FilePath {
    fn clone(&self) -> (copy: Self)
        ensures
            copy@ == self@,
    {
        let bytes = self.bytes.clone();
        assert(bytes@ =~= self.bytes@);
        FilePath { bytes }
    }
}

/// Finds where the last component of a path prefix starts.
fn find_last_start(path: &Vec<u8>, len: usize, from: usize) -> (start: usize)
    requires
        from <= len <= path@.len(),
    ensures
        from <= start <= len,
        start == last_start(path@.take(len as int), from as int),
{
    let mut at: usize = len;
    while at > from && path[at - 1] != 0x2f
        invariant
            from <= at <= len <= path@.len(),
            last_start(path@.take(len as int), from as int) == last_start(
                path@.take(at as int),
                from as int,
            ),
        decreases at,
    {
        assert(path@.take(at as int).drop_last() =~= path@.take(at - 1));
        at = at - 1;
    }
    at
}

/// The length of a path prefix without empty components and single dots at its end.
fn trimmed_len(path: &Vec<u8>, len: usize, from: usize) -> (end: usize)
    requires
        from <= len <= path@.len(),
    ensures
        from <= end <= len,
        path@.take(end as int) == trimmed(path@.take(len as int), from as int),
{
    let mut end: usize = len;
    while end > from
        invariant
            from <= end <= len <= path@.len(),
            trimmed(path@.take(len as int), from as int) == trimmed(
                path@.take(end as int),
                from as int,
            ),
        decreases end,
    {
        let ghost prefix = path@.take(end as int);
        let start = find_last_start(path, end, from);
        let ghost component = prefix.skip(start as int);
        proof {
            lemma_last_start(prefix, from as int);
        }
        if start == end {
            assert(component =~= seq![]);
        } else if end - start == 1 && path[start] == 0x2e {
            assert(component =~= seq![0x2eu8]);
        } else {
            assert(component.len() > 0);
            assert(component.len() == 1 ==> component[0] != 0x2e);
            return end;
        }
        end = if start > from {
            start - 1
        } else {
            from
        };
        assert(before_last(prefix, from as int) =~= path@.take(end as int));
    }
    end
}

impl FilePath {
    /// A path spelled as text.
    pub fn from_text(path: &str) -> (file: FilePath)
        ensures
            file@ == encode_utf8(path@),
    {
        FilePath { bytes: path.as_bytes_vec() }
    }

    /// The path as it is shown to people.
    pub fn display(&self) -> (text: String)
        ensures
            text@ == shown(self@),
    {
        read_lossy(&self.bytes)
    }

    /// Whether the path starts at the root of the filesystem.
    pub fn is_absolute(&self) -> (yes: bool)
        ensures
            yes == is_absolute(self@),
    {
        self.bytes.len() > 0 && self.bytes[0] == 0x2f
    }

    /// Whether two paths are spelled alike.
    pub fn same(&self, other: &FilePath) -> (yes: bool)
        ensures
            yes == (self@ == other@),
    {
        if self.bytes.len() != other.bytes.len() {
            return false;
        }
        let mut at: usize = 0;
        while at < self.bytes.len()
            invariant
                at <= self@.len() == other@.len(),
                forall|i: int| 0 <= i < at ==> self@[i] == other@[i],
            decreases self@.len() - at,
        {
            if self.bytes[at] != other.bytes[at] {
                return false;
            }
            at = at + 1;
        }
        assert(self@ =~= other@);
        true
    }

    /// The path followed by another one.
    pub fn join(&self, path: &str) -> (file: FilePath)
        ensures
            file@ == joined(self@, encode_utf8(path@)),
    {
        let mut added = path.as_bytes_vec();
        if added.len() > 0 && added[0] == 0x2f {
            return FilePath { bytes: added };
        }
        let mut bytes = self.bytes.clone();
        assert(bytes@ =~= self@);
        if bytes.len() > 0 && bytes[bytes.len() - 1] != 0x2f {
            bytes.push(0x2f);
        }
        bytes.append(&mut added);
        FilePath { bytes }
    }

    /// The path with another last component.
    pub fn with_file_name(&self, name: &str) -> (file: FilePath)
        ensures
            file@ == with_name(self@, encode_utf8(name@)),
    {
        let path = &self.bytes;
        let len: usize = path.len();
        let from: usize = if len > 0 && (path[0] == 0x2f || (path[0] == 0x2e && (len == 1 || path[1]
            == 0x2f))) {
            1
        } else {
            0
        };
        assert(path@.take(len as int) =~= path@);
        let end = trimmed_len(path, len, from);
        if end <= from {
            return self.join(name);
        }
        let start = find_last_start(path, end, from);
        let ghost prefix = path@.take(end as int);
        let ghost component = prefix.skip(start as int);
        proof {
            lemma_last_start(prefix, from as int);
        }
        if end - start == 2 && path[start] == 0x2e && path[start + 1] == 0x2e {
            assert(component =~= seq![0x2eu8, 0x2eu8]);
            return self.join(name);
        }
        assert(component.len() == 2 ==> component[0] != 0x2e || component[1] != 0x2e);
        let before: usize = if start > from {
            start - 1
        } else {
            from
        };
        assert(before_last(prefix, from as int) =~= path@.take(before as int));
        let base_len = trimmed_len(path, before, from);
        let mut bytes = self.bytes.clone();
        assert(bytes@ =~= self@);
        bytes.truncate(base_len);
        let base = FilePath { bytes };
        base.join(name)
    }
}

/// A name that a single component can hold.
pub open spec fn is_name(name: Seq<u8>) -> bool {
    &&& name.len() > 0
    &&& name != seq![0x2eu8]
    &&& name != seq![0x2eu8, 0x2eu8]
    &&& forall|i: int| 0 <= i < name.len() ==> #[trigger] name[i] != 0x2f
}

/// The last component of a directory followed by a name is that name.
proof fn lemma_last_of_joined(base: Seq<u8>, name: Seq<u8>)
    requires
        is_name(name),
    ensures
        joined(base, name).len() > lead(joined(base, name)),
        last_start(joined(base, name), lead(joined(base, name))) == joined(base, name).len()
            - name.len(),
        joined(base, name).skip(joined(base, name).len() - name.len()) == name,
        joined(base, name).last() != 0x2f,
{
    let path = joined(base, name);
    let from = lead(path);
    let start = path.len() - name.len();
    assert(path.skip(start) =~= name);
    assert forall|i: int| start <= i < path.len() implies path[i] != 0x2f by {
        assert(path[i] == name[i - start]);
    }
    if name.len() == 1 {
        assert(name =~= seq![name[0]]);
    }
    if start == 0 {
        assert(path =~= name);
    } else {
        assert(path[start - 1] == 0x2f);
    }
    lemma_last_start(path, from);
}

/// A path that ends in a name has a directory.
pub proof fn lemma_joined_has_a_directory(base: Seq<u8>, name: Seq<u8>)
    requires
        is_name(name),
    ensures
        directory(joined(base, name)) is Some,
{
    lemma_last_of_joined(base, name);
    assert(trimmed(joined(base, name), lead(joined(base, name))) == joined(base, name));
}

/// Replacing the name of a file in a named directory gives the file of the new name
/// in the same directory.
pub proof fn lemma_sibling(base: Seq<u8>, folder: Seq<u8>, name: Seq<u8>, other: Seq<u8>)
    requires
        is_name(folder),
        is_name(name),
    ensures
        with_name(joined(joined(base, folder), name), other) == joined(joined(base, folder), other),
{
    let parent = joined(base, folder);
    let path = joined(parent, name);
    lemma_last_of_joined(base, folder);
    lemma_last_of_joined(parent, name);
    assert(lead(path) == lead(parent)) by {
        if parent.len() == 1 {
            assert(parent =~= folder);
            assert(folder =~= seq![folder[0]]);
        }
    }
    let from = lead(path);
    assert(trimmed(path, from) == path);
    assert(before_last(path, from) =~= parent);
    assert(trimmed(parent, from) == parent);
}

/// A position at which a path can be cut: behind its lead, or before a slash.
spec fn is_boundary(path: Seq<u8>, at: int, from: int) -> bool {
    from <= at <= path.len() && (at == from || at == path.len() || path[at] == 0x2f)
}

/// What comes before the last component ends at a boundary.
proof fn lemma_before_last(path: Seq<u8>, from: int)
    requires
        0 <= from < path.len(),
    ensures
        before_last(path, from).len() < path.len(),
        before_last(path, from) == path.take(before_last(path, from).len() as int),
        is_boundary(path, before_last(path, from).len() as int, from),
{
    lemma_last_start(path, from);
}

/// A trimmed path ends at a boundary, and is not trimmed further.
proof fn lemma_trimmed(path: Seq<u8>, from: int)
    requires
        0 <= from <= path.len(),
    ensures
        trimmed(path, from) == path.take(trimmed(path, from).len() as int),
        is_boundary(path, trimmed(path, from).len() as int, from),
        trimmed(trimmed(path, from), from) == trimmed(path, from),
        trimmed(path, from).len() > from ==> trimmed(path, from).last() != 0x2f,
    decreases path.len(),
{
    if path.len() > from {
        lemma_last_start(path, from);
        let start = last_start(path, from);
        let component = path.skip(start);
        if component =~= seq![] || component =~= seq![0x2eu8] {
            let shorter = before_last(path, from);
            lemma_before_last(path, from);
            lemma_trimmed(shorter, from);
            let end = trimmed(path, from);
            assert(end =~= path.take(end.len() as int));
            if end.len() < shorter.len() {
                assert(shorter[end.len() as int] == path[end.len() as int]);
            }
        } else {
            assert(path.take(path.len() as int) =~= path);
            assert(component.len() > 0);
        }
    } else {
        assert(path.take(path.len() as int) =~= path);
    }
}

/// Replacing the name of a file leaves its directory as it is.
pub proof fn lemma_renaming_keeps_the_directory(path: Seq<u8>, name: Seq<u8>)
    requires
        directory(path) is Some,
        is_name(name),
    ensures
        directory(with_name(path, name)) == directory(path),
{
    let from = lead(path);
    let end = trimmed(path, from);
    lemma_trimmed(path, from);
    let before = before_last(end, from);
    lemma_before_last(end, from);
    let base = trimmed(before, from);
    lemma_trimmed(before, from);
    let len = base.len() as int;
    assert(base =~= path.take(len));
    assert(is_boundary(path, len, from)) by {
        if len < before.len() {
            assert(before[len] == path[len]);
        } else if len < end.len() {
            assert(end[len] == path[len]);
        }
    }
    let renamed = joined(base, name);
    lemma_last_of_joined(base, name);
    if len > 0 {
        assert(renamed[0] == path[0]);
    } else {
        assert(renamed =~= name);
        if name.len() == 1 {
            assert(name =~= seq![name[0]]);
        }
    }
    if len > 1 {
        assert(renamed[1] == path[1]);
    }
    assert(lead(renamed) == from);
    let component = renamed.skip(last_start(renamed, from));
    assert(component == name);
    assert(trimmed(renamed, from) == renamed);
    assert(before_last(renamed, from) =~= base);
}

/// A relative path lies below the path that it is adjoined to: the result starts with the
/// one, ends with the other, and has a slash between them unless there is nothing or a
/// slash already. An absolute path stands alone.
pub proof fn lemma_joined_lies_below(base: Seq<u8>, path: Seq<u8>)
    ensures
        ({
            let whole = joined(base, path);
            let absolute = path.len() > 0 && path[0] == 0x2f;
            let separated = base.len() > 0 && base[base.len() - 1] != 0x2f;
            &&& absolute ==> whole == path
            &&& !absolute ==> {
                &&& whole.len() == base.len() + path.len() + (if separated {
                    1int
                } else {
                    0
                })
                &&& whole.take(base.len() as int) == base
                &&& whole.skip(whole.len() - path.len()) == path
                &&& separated ==> whole[base.len() as int] == 0x2f
            }
            &&& is_absolute(path) <==> absolute
        }),
{
    let whole = joined(base, path);
    if !is_absolute(path) {
        assert(whole.take(base.len() as int) =~= base);
        assert(whole.skip(whole.len() - path.len()) =~= path);
    }
}

/// A path that is spelled as text is shown as that text.
pub proof fn lemma_text_is_shown(text: Seq<char>)
    ensures
        shown(encode_utf8(text)) == text,
{
    encode_utf8_valid_utf8(text);
    encode_utf8_decode_utf8(text);
}

/// A file at the root of the filesystem, or one that is named without a directory, is
/// renamed in its place. A slash behind the name makes no difference, and what ends in no
/// name is extended.
pub proof fn lemma_files_are_renamed_in_place(name: Seq<u8>, other: Seq<u8>, path: Seq<u8>)
    requires
        is_name(name),
        is_name(other),
    ensures
        with_name(seq![0x2fu8] + name, other) == seq![0x2fu8] + other,
        with_name(name, other) == other,
        directory(path) is Some ==> with_name(path.push(0x2f), other) == with_name(path, other),
        directory(path) is None ==> with_name(path, other) == joined(path, other),
{
    let root = seq![0x2fu8];
    let none = Seq::<u8>::empty();
    assert(joined(root, name) =~= root + name);
    assert(joined(none, name) =~= name);
    assert(joined(root, other) =~= root + other);
    assert(joined(none, other) =~= other);
    lemma_last_of_joined(root, name);
    lemma_last_of_joined(none, name);
    let rooted = root + name;
    assert(lead(rooted) == 1);
    assert(trimmed(rooted, 1) == rooted);
    assert(before_last(rooted, 1) =~= root);
    assert(lead(name) == 0) by {
        if name.len() == 1 {
            assert(name =~= seq![name[0]]);
        }
    }
    assert(trimmed(name, 0) == name);
    assert(before_last(name, 0) =~= none);
    if directory(path) is Some {
        let longer = path.push(0x2f);
        if path.len() == 1 {
            assert(path =~= seq![path[0]]);
        }
        assert(lead(longer) == lead(path));
        let from = lead(path);
        assert(last_start(longer, from) == longer.len());
        assert(longer.skip(longer.len() as int) =~= seq![]);
        assert(before_last(longer, from) =~= path);
        assert(trimmed(longer, from) == trimmed(path, from));
    }
}

/// A path is led in the same way, whatever follows it behind a slash.
proof fn lemma_lead(path: Seq<u8>, rest: Seq<u8>)
    requires
        path.len() > 0,
    ensures
        lead(path.push(0x2f) + rest) == lead(path),
        lead(path) <= path.len(),
{
}

/// Slashes and single dots behind a path are trimmed.
proof fn lemma_trailing_parts(path: Seq<u8>, from: int)
    requires
        0 <= from <= path.len(),
    ensures
        trimmed(path.push(0x2f), from) == trimmed(path, from),
        trimmed(path.push(0x2f).push(0x2e), from) == trimmed(path, from),
{
    let slashed = path.push(0x2f);
    let dotted = slashed.push(0x2e);
    assert(dotted.drop_last() =~= slashed);
    assert(last_start(slashed, from) == slashed.len());
    assert(last_start(dotted, from) == slashed.len());
    assert(slashed.skip(slashed.len() as int) =~= seq![]);
    assert(dotted.skip(slashed.len() as int) =~= seq![0x2eu8]);
    assert(before_last(slashed, from) =~= path);
    assert(before_last(dotted, from) =~= path);
}

/// Slashes and single dots behind a path make no difference to the directory of its file,
/// and neither do those between the directory and the file. A path that ends in two dots
/// names no file.
pub proof fn lemma_which_parts_count(path: Seq<u8>, name: Seq<u8>)
    requires
        path.len() > 0,
        is_name(name),
    ensures
        directory(path.push(0x2f)) == directory(path),
        directory(path.push(0x2f).push(0x2e)) == directory(path),
        directory(path.push(0x2f) + seq![0x2eu8, 0x2eu8]) is None,
        directory(seq![0x2eu8, 0x2eu8]) is None,
        directory(path.push(0x2f).push(0x2e).push(0x2f) + name) == directory(
            path.push(0x2f) + name,
        ),
{
    let from = lead(path);
    let slashed = path.push(0x2f);
    let dotted = slashed.push(0x2e);
    lemma_lead(path, seq![]);
    assert(slashed + seq![] =~= slashed);
    lemma_lead(path, seq![0x2eu8]);
    assert(slashed + seq![0x2eu8] =~= dotted);
    lemma_trailing_parts(path, from);
    let dots = seq![0x2eu8, 0x2eu8];
    let up = slashed + dots;
    lemma_lead(path, dots);
    assert(up.drop_last() =~= dotted);
    assert(dotted.drop_last() =~= slashed);
    assert(last_start(slashed, from) == slashed.len());
    assert(last_start(dotted, from) == slashed.len());
    assert(last_start(up, from) == slashed.len());
    assert(up.skip(slashed.len() as int) =~= dots);
    assert(trimmed(up, from) == up);
    assert(lead(dots) == 0);
    assert(dots.drop_last().drop_last() =~= seq![]);
    assert(last_start(dots.drop_last().drop_last(), 0) == 0);
    assert(last_start(dots.drop_last(), 0) == 0);
    assert(last_start(dots, 0) == 0);
    assert(dots.skip(0) =~= dots);
    assert(trimmed(dots, 0) == dots);
    lemma_directory_before_a_name(path, name);
    lemma_directory_before_a_name(dotted, name);
}

/// The directory of a named file is what comes before it, trimmed.
proof fn lemma_directory_before_a_name(path: Seq<u8>, name: Seq<u8>)
    requires
        path.len() > 0,
        is_name(name),
    ensures
        directory(path.push(0x2f) + name) == Some(trimmed(path, lead(path))),
{
    let slashed = path.push(0x2f);
    let whole = slashed + name;
    lemma_lead(path, name);
    assert(joined(slashed, name) =~= whole);
    lemma_last_of_joined(slashed, name);
    let from = lead(whole);
    assert(trimmed(whole, from) == whole);
    assert(before_last(whole, from) =~= path);
}

} // verus!
