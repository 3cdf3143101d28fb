use vstd::prelude::*;
use crate::icon_cache::{extension_of, path_extension};
use crate::engine::{meta_lookup, meta_text};
use crate::error::LauncherError;
use crate::text::{chars_of, lower_of, seq_equal, to_lower};
use crate::types::{ResultType, SearchResult};

verus! {

/// A recently opened file.
#[derive(Debug, Clone)]
pub struct RecentFile {
    /// Path text of the file.
    pub path: String,
    /// Last access, in seconds since the Unix epoch.
    pub last_accessed: i64,
    /// How often the file was opened.
    pub access_count: u32,
}

/// What `Path::file_name` gives for the path text `p`, as text.
pub uninterp spec fn path_file_name(p: Seq<char>) -> Option<Seq<char>>;

/// Relies on `std::path::Path::file_name`: the last component of the path,
/// if it is a name; the result depends on the path text alone.
#[verifier::external_body]
fn file_name_of(path: &str) -> (r: Option<String>)
    ensures
        match r {
            Some(n) => path_file_name(path@) == Some(n@),
            None => path_file_name(path@) is None,
        },
{
    std::path::Path::new(path).file_name().and_then(|n| n.to_str()).map(|n| n.to_owned())
}

impl RecentFile {
    /// A file opened once, at `now`.
    pub fn new(path: String, now: i64) -> (r: RecentFile)
        ensures
            r.path == path,
            r.last_accessed == now,
            r.access_count == 1,
    {
        RecentFile { path, last_accessed: now, access_count: 1 }
    }

    /// Records one more opening, at `now`.
    pub fn update_access(&mut self, now: i64)
        requires
            old(self).access_count < u32::MAX,
        ensures
            final(self).path == old(self).path,
            final(self).last_accessed == now,
            final(self).access_count == old(self).access_count + 1,
    {
        self.last_accessed = now;
        self.access_count = self.access_count + 1;
    }

    /// The file's name, or `Unknown` when the path has none.
    pub fn file_name(&self) -> (r: String)
        ensures
            match path_file_name(self.path@) {
                Some(n) => r@ == n,
                None => r@ == "Unknown"@,
            },
    {
        match file_name_of(self.path.as_str()) {
            Some(n) => n,
            None => "Unknown".to_owned(),
        }
    }

    /// The path as text.
    pub fn path_string(&self) -> (r: String)
        ensures
            r@ == self.path@,
    {
        self.path.clone()
    }
}

/// The icon of a recent file by its lower-cased extension.
pub open spec fn recent_icon_for(e: Seq<char>) -> Seq<char> {
    if e == "txt"@ {
        "file-text"@
    } else if e == "pdf"@ {
        "file-pdf"@
    } else if e == "doc"@ || e == "docx"@ {
        "file-word"@
    } else if e == "xls"@ || e == "xlsx"@ {
        "file-excel"@
    } else if e == "ppt"@ || e == "pptx"@ {
        "file-powerpoint"@
    } else if e == "jpg"@ || e == "jpeg"@ || e == "png"@ || e == "gif"@ || e == "bmp"@ {
        "file-image"@
    } else if e == "mp3"@ || e == "wav"@ || e == "flac"@ {
        "file-audio"@
    } else if e == "mp4"@ || e == "avi"@ || e == "mkv"@ {
        "file-video"@
    } else if e == "zip"@ || e == "rar"@ || e == "7z"@ {
        "file-archive"@
    } else if e == "exe"@ {
        "file-executable"@
    } else {
        "file"@
    }
}

fn is_word(e: &Vec<char>, w: &str) -> (r: bool)
    ensures
        r == (e@ == w@),
{
    seq_equal(e, &chars_of(w))
}

/// Recently opened files.
pub struct RecentFilesProvider;

impl RecentFilesProvider {
    pub fn name(&self) -> (r: &'static str)
        ensures
            r@ == "Recent Files"@,
    {
        "Recent Files"
    }

    pub fn priority(&self) -> (r: u8)
        ensures
            r == 90,
    {
        90
    }

    /// The file to open for `result`: its `path` metadata, for a recent
    /// file result.
    pub fn path_to_open(result: &SearchResult) -> (r: Result<String, LauncherError>)
        ensures
            result.result_type != ResultType::RecentFile ==> r is Err && r->Err_0 is ExecutionError
                && r->Err_0->ExecutionError_0@ == "Not a recent file result"@,
            result.result_type == ResultType::RecentFile ==> match meta_lookup(result@.metadata, "path"@) {
                Some(p) => r is Ok && r->Ok_0@ == p,
                None => r is Err && r->Err_0 is ExecutionError && r->Err_0->ExecutionError_0@
                    == "Invalid recent file result"@,
            },
    {
        if result.result_type != ResultType::RecentFile {
            return Err(LauncherError::ExecutionError("Not a recent file result".to_owned()));
        }
        match meta_text(result, "path") {
            Some(p) => Ok(p),
            None => Err(LauncherError::ExecutionError("Invalid recent file result".to_owned())),
        }
    }

    /// The icon of a file by its extension; none for a path without one.
    pub fn get_file_icon(path: &str) -> (r: Option<String>)
        ensures
            match path_extension(path@) {
                Some(e) => r is Some && r->0@ == recent_icon_for(lower_of(e)),
                None => r is None,
            },
    {
        let ext = match extension_of(path) {
            Some(e) => e,
            None => {
                return None;
            },
        };
        let e = chars_of(to_lower(ext.as_str()).as_str());
        let icon = if is_word(&e, "txt") {
            "file-text"
        } else if is_word(&e, "pdf") {
            "file-pdf"
        } else if is_word(&e, "doc") || is_word(&e, "docx") {
            "file-word"
        } else if is_word(&e, "xls") || is_word(&e, "xlsx") {
            "file-excel"
        } else if is_word(&e, "ppt") || is_word(&e, "pptx") {
            "file-powerpoint"
        } else if is_word(&e, "jpg") || is_word(&e, "jpeg") || is_word(&e, "png") || is_word(&e, "gif")
            || is_word(&e, "bmp") {
            "file-image"
        } else if is_word(&e, "mp3") || is_word(&e, "wav") || is_word(&e, "flac") {
            "file-audio"
        } else if is_word(&e, "mp4") || is_word(&e, "avi") || is_word(&e, "mkv") {
            "file-video"
        } else if is_word(&e, "zip") || is_word(&e, "rar") || is_word(&e, "7z") {
            "file-archive"
        } else if is_word(&e, "exe") {
            "file-executable"
        } else {
            "file"
        };
        Some(icon.to_owned())
    }
}

} // verus!
