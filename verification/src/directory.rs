//! The protocol handler that serves files below a root directory: where a
//! request is looked up, what body answers it, and its content type.

use vstd::prelude::*;
use vstd::string::StrSliceExecFns;
use vstd::string::StringExecFns;
use vstd::utf8::encode_utf8;
use crate::paths::{joined, trim_leading_slashes, trim_start_slashes, join_path, lemma_trimmed_not_rooted, lemma_join_relative};

verus! {

/// The media type that `mime_guess` guesses from a path's extension, falling
/// back to `application/octet-stream`.
pub uninterp spec fn guessed_mime_type(path: Seq<char>) -> Seq<char>;

/// The characters after the last `/` of a path.
pub open spec fn final_segment(path: Seq<char>) -> Seq<char>
    decreases path.len(),
{
    if path.len() == 0 || path.last() == '/' {
        Seq::empty()
    } else {
        final_segment(path.drop_last()).push(path.last())
    }
}

/// Paths that certainly have no extension: those with no `.` at all, and
/// those whose last component is not empty and has no `.`.
pub open spec fn lacks_extension(path: Seq<char>) -> bool {
    ||| !path.contains('.')
    ||| final_segment(path).len() > 0 && !final_segment(path).contains('.')
}

/// Calls `mime_guess::from_path(path).first_or_octet_stream()` and renders the
/// media type as text. The result is a function of the path alone (a static
/// table keyed by the extension); the contract names it and states one fact
/// the crate documents: a path with no extension (here: one with no `.` at
/// all, or whose last component is not empty and has no `.`) gets
/// `application/octet-stream`. Which type each extension maps to is not
/// stated.
#[verifier::external_body]
fn guess_mime_type(path: &str) -> (mime: String)
    ensures
        mime@ == guessed_mime_type(path@),
        lacks_extension(path@) ==> mime@ == "application/octet-stream"@,
{
    mime_guess::from_path(path).first_or_octet_stream().to_string()
}

/// The page sent for a file that cannot be read.
pub open spec fn not_found_page(path: Seq<char>) -> Seq<u8> {
    encode_utf8("<html><body>404: "@ + path + "</body></html>"@)
}

/// What a directory handler answers: the body bytes and their media type.
pub struct DirectoryResponse {
    pub body: Vec<u8>,
    pub content_type: String,
}

/// Serves the files below `root` for a custom URL scheme.
pub struct DirectoryProtocolHandler {
    root: String,
}

impl View for DirectoryProtocolHandler {
    type V = Seq<char>;

    /// The root directory, as a path string.
    closed spec fn view(&self) -> Seq<char> {
        self.root@
    }
}

impl DirectoryProtocolHandler {
    /// A handler serving the files below `root`.
    pub fn new(root: String) -> (h: Self)
        ensures
            h@ == root@,
    {
        DirectoryProtocolHandler { root }
    }

    /// The root directory.
    pub fn root(&self) -> (r: &str)
        ensures
            r@ == self@,
    {
        self.root.as_str()
    }

    /// The file that answers a request for `url_path`: the URL path without
    /// its leading slashes, joined onto the root.
    pub fn file_path(&self, url_path: &str) -> (p: String)
        ensures
            p@ == joined(self@, trim_leading_slashes(url_path@)),
    {
        let rel = trim_start_slashes(url_path);
        join_path(self.root.as_str(), rel)
    }

    /// The body of the page that reports `path` as not found.
    pub fn not_found_body(path: &str) -> (b: Vec<u8>)
        ensures
            b@ == not_found_page(path@),
    {
        let mut page = String::from_str("<html><body>404: ");
        page.append(path);
        page.append("</body></html>");
        page.as_str().as_bytes_vec()
    }

    /// The media type sent with the file at `path`.
    pub fn content_type(path: &str) -> (m: String)
        ensures
            m@ == guessed_mime_type(path@),
            lacks_extension(path@) ==> m@ == "application/octet-stream"@,
    {
        guess_mime_type(path)
    }

    /// The answer for the file at `path`, given what reading it gave: its
    /// bytes, or `None` when it could not be read.
    pub fn respond(path: &str, content: Option<Vec<u8>>) -> (r: DirectoryResponse)
        ensures
            r.body@ == match content {
                Some(c) => c@,
                None => not_found_page(path@),
            },
            r.content_type@ == guessed_mime_type(path@),
            lacks_extension(path@) ==> r.content_type@ == "application/octet-stream"@,
    {
        let body = match content {
            Some(c) => c,
            None => Self::not_found_body(path),
        };
        DirectoryResponse { body, content_type: Self::content_type(path) }
    }

    /// Requests to this handler may be fetched.
    pub fn is_fetchable(&self) -> (b: bool)
        ensures
            b,
    {
        true
    }

    /// Content from this handler counts as secure.
    pub fn is_secure(&self) -> (b: bool)
        ensures
            b,
    {
        true
    }

    /// The not-found page is the UTF-8 text `<html><body>404: `, then the
    /// path, then `</body></html>`.
    pub proof fn lemma_not_found_page_text(path: Seq<char>)
        ensures
            not_found_page(path) == encode_utf8("<html><body>404: "@ + path + "</body></html>"@),
    {
    }

    /// Every file a handler serves lies textually below its root: the served
    /// path starts with the root and ends with the URL path stripped of its
    /// leading slashes.
    pub proof fn lemma_served_below_root(&self, url_path: Seq<char>)
        ensures
            ({
                let p = joined(self@, trim_leading_slashes(url_path));
                &&& p.len() >= self@.len()
                &&& p.subrange(0, self@.len() as int) == self@
                &&& p.skip(p.len() - trim_leading_slashes(url_path).len())
                    == trim_leading_slashes(url_path)
            }),
    {
        lemma_trimmed_not_rooted(url_path);
        lemma_join_relative(self@, trim_leading_slashes(url_path));
    }
}

} // verus!
