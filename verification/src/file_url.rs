//! URLs of local files, on systems whose paths follow POSIX.

use crate::path::FilePath;
use crate::text::same_text;
use url::Url;
use vstd::prelude::*;

verus! {

/// What a text is as a URL: its scheme, and the path that it would name as a file, if
/// it would name one. Nothing where the text is no URL.
pub uninterp spec fn url_parts(text: Seq<char>) -> Option<(Seq<char>, Option<Seq<u8>>)>;

/// What a text is as the URL of a file.
#[derive(Debug, Eq, PartialEq)]
pub enum FileUrl {
    /// It is no URL.
    Invalid,
    /// It is a URL that names no local file.
    Remote,
    /// It names this path.
    Local(FilePath),
}

/// What a text is as the URL of a file.
pub enum FileUrlView {
    Invalid,
    Remote,
    Local(Seq<u8>),
}

impl View for FileUrl {
    type V = FileUrlView;

    open spec fn view(&self) -> FileUrlView {
        match self {
            FileUrl::Invalid => FileUrlView::Invalid,
            FileUrl::Remote => FileUrlView::Remote,
            FileUrl::Local(path) => FileUrlView::Local(path@),
        }
    }
}

/// What a text is as the URL of a file, given what it is as a URL. Only the scheme `file`
/// names local files.
pub open spec fn file_url(parts: Option<(Seq<char>, Option<Seq<u8>>)>) -> FileUrlView {
    match parts {
        None => FileUrlView::Invalid,
        Some((scheme, path)) => if scheme == "file"@ && path is Some {
            FileUrlView::Local(path->0)
        } else {
            FileUrlView::Remote
        },
    }
}

/// The scheme and the path of a URL as plain values.
pub open spec fn parts_view(parts: Option<(String, Option<Vec<u8>>)>) -> Option<
    (Seq<char>, Option<Seq<u8>>),
> {
    match parts {
        None => None,
        Some((scheme, None)) => Some((scheme@, None)),
        Some((scheme, Some(bytes))) => Some((scheme@, Some(bytes@))),
    }
}

/// `url::Url::parse`, and `Url::scheme` and `Url::to_file_path` of what it gives: the
/// outcome is a function of the text. It has no value where the text does not parse, and
/// no path where the parsed URL cannot be turned into one, for which its scheme is not
/// looked at. Which texts parse, and to which schemes and paths, is not said.
#[verifier::external_body]
fn parse_url(text: &str) -> (parts: Option<(String, Option<Vec<u8>>)>)
    ensures
        parts_view(parts) == url_parts(text@),
{
    match Url::parse(text) {
        Err(_) => None,
        Ok(url) => {
            let path = url.to_file_path().ok();
            let bytes = path.map(|path| path.into_os_string().into_encoded_bytes());
            Some((url.scheme().to_owned(), bytes))
        },
    }
}

/// What a text is as the URL of a file, given what it is as a URL.
pub fn classify(parts: Option<(String, Option<Vec<u8>>)>) -> (url: FileUrl)
    ensures
        url@ == file_url(parts_view(parts)),
{
    match parts {
        None => FileUrl::Invalid,
        Some((scheme, Some(bytes))) => if same_text(scheme.as_str(), "file") {
            FileUrl::Local(FilePath { bytes })
        } else {
            FileUrl::Remote
        },
        Some((_, None)) => FileUrl::Remote,
    }
}

/// Reads a text as the URL of a file.
pub fn read_file_url(text: &str) -> (url: FileUrl)
    ensures
        url@ == file_url(url_parts(text@)),
{
    classify(parse_url(text))
}

/// A text names a local file exactly where it is a URL with the scheme `file` that has a
/// path, and then names that path. What is no URL is told apart from what is one.
pub proof fn lemma_only_file_urls_are_local(parts: Option<(Seq<char>, Option<Seq<u8>>)>)
    ensures
        file_url(parts) is Invalid <==> parts is None,
        file_url(parts) matches FileUrlView::Local(path) ==> parts == Some(("file"@, Some(path))),
        parts matches Some((scheme, Some(path))) ==> (scheme == "file"@ ==> file_url(parts)
            == FileUrlView::Local(path)),
{
}

} // verus!
