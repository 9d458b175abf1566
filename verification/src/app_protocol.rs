//! The `app://` handler of the SDL port, which serves the port's `ui`
//! directory below the working directory, and the location of the resource
//! files the port reads.

use vstd::prelude::*;
use vstd::string::StrSliceExecFns;
use vstd::string::StringExecFns;
use vstd::utf8::encode_utf8;
use crate::paths::{joined, trim_leading_slashes, trim_start_slashes, join_path, lemma_trimmed_not_rooted, lemma_join_relative};

verus! {

/// The directory the SDL port serves, below the working directory `cwd`.
pub open spec fn ui_dir(cwd: Seq<char>) -> Seq<char> {
    joined(joined(joined(cwd, "ports"@), "sdl2_test"@), "ui"@)
}

/// The page sent for a file that cannot be read.
pub open spec fn app_not_found_page(path: Seq<char>) -> Seq<u8> {
    encode_utf8("<html><body><h1>404 Not Found: "@ + path + "</h1></body></html>"@)
}

/// Where the resource file `filename` is read from, below the working
/// directory `cwd`.
pub open spec fn resource_file(cwd: Seq<char>, filename: Seq<char>) -> Seq<char> {
    joined(joined(cwd, "resources"@), filename)
}

/// Serves the SDL port's user interface files for the `app` scheme.
pub struct AppProtocolHandler;

impl AppProtocolHandler {
    /// The directory served, below the working directory `cwd`.
    pub fn ui_dir(cwd: &str) -> (d: String)
        ensures
            d@ == ui_dir(cwd@),
    {
        let a = join_path(cwd, "ports");
        let b = join_path(a.as_str(), "sdl2_test");
        join_path(b.as_str(), "ui")
    }

    /// The file that answers a request for `url_path`, when the working
    /// directory is `cwd`.
    pub fn file_path(&self, cwd: &str, url_path: &str) -> (p: String)
        ensures
            p@ == joined(ui_dir(cwd@), trim_leading_slashes(url_path@)),
    {
        let dir = Self::ui_dir(cwd);
        let rel = trim_start_slashes(url_path);
        join_path(dir.as_str(), rel)
    }

    /// The body of the page that reports `path` as not found.
    pub fn not_found_body(path: &str) -> (b: Vec<u8>)
        ensures
            b@ == app_not_found_page(path@),
    {
        let mut page = String::from_str("<html><body><h1>404 Not Found: ");
        page.append(path);
        page.append("</h1></body></html>");
        page.as_str().as_bytes_vec()
    }

    /// The body for the file at `path`, given what reading it gave: its
    /// bytes, or `None` when it could not be read.
    pub fn respond(&self, path: &str, content: Option<Vec<u8>>) -> (b: Vec<u8>)
        ensures
            b@ == match content {
                Some(c) => c@,
                None => app_not_found_page(path@),
            },
    {
        match content {
            Some(c) => c,
            None => Self::not_found_body(path),
        }
    }

    /// The served directory is `ports/sdl2_test/ui` below the working
    /// directory, which it keeps as its prefix; the not-found page is the
    /// UTF-8 text `<html><body><h1>404 Not Found: `, the path, then
    /// `</h1></body></html>`; resources lie in `resources` below the working
    /// directory.
    pub proof fn lemma_ui_dir_and_pages(cwd: Seq<char>, path: Seq<char>, filename: Seq<char>)
        ensures
            ui_dir(cwd) == joined(joined(joined(cwd, "ports"@), "sdl2_test"@), "ui"@),
            ui_dir(cwd).len() >= cwd.len(),
            ui_dir(cwd).subrange(0, cwd.len() as int) == cwd,
            app_not_found_page(path) == encode_utf8(
                "<html><body><h1>404 Not Found: "@ + path + "</h1></body></html>"@,
            ),
            resource_file(cwd, filename) == joined(joined(cwd, "resources"@), filename),
    {
        reveal_strlit("ports");
        reveal_strlit("sdl2_test");
        reveal_strlit("ui");
        let a = joined(cwd, "ports"@);
        let b = joined(a, "sdl2_test"@);
        lemma_join_relative(cwd, "ports"@);
        lemma_join_relative(a, "sdl2_test"@);
        lemma_join_relative(b, "ui"@);
        assert(b.subrange(0, cwd.len() as int) =~= b.subrange(0, a.len() as int).subrange(0, cwd.len() as int));
        assert(ui_dir(cwd).subrange(0, cwd.len() as int) =~= ui_dir(cwd).subrange(0, b.len() as int).subrange(0, cwd.len() as int));
    }

    /// Every file served lies textually below the `ui` directory and ends
    /// with the requested URL path stripped of its leading slashes.
    pub proof fn lemma_served_below_ui_dir(cwd: Seq<char>, url_path: Seq<char>)
        ensures
            ({
                let d = ui_dir(cwd);
                let p = joined(d, trim_leading_slashes(url_path));
                &&& p.len() >= d.len()
                &&& p.subrange(0, d.len() as int) == d
                &&& p.skip(p.len() - trim_leading_slashes(url_path).len())
                    == trim_leading_slashes(url_path)
            }),
    {
        lemma_trimmed_not_rooted(url_path);
        lemma_join_relative(ui_dir(cwd), trim_leading_slashes(url_path));
    }
}

/// The path of the resource file `filename`, below the working directory `cwd`.
pub fn resource_path(cwd: &str, filename: &str) -> (p: String)
    ensures
        p@ == resource_file(cwd@, filename@),
{
    let dir = join_path(cwd, "resources");
    join_path(dir.as_str(), filename)
}

} // verus!
