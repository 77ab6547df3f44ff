//! Naming and contents of the transcript file written beside an audio file.

use vstd::prelude::*;

verus! {

/// The final component of `path` without its extension, as `Path::file_stem` reads it.
pub uninterp spec fn file_stem_of(path: Seq<char>) -> Option<Seq<char>>;

/// The directory part of `path`, as `Path::parent` reads it.
pub uninterp spec fn parent_of(path: Seq<char>) -> Option<Seq<char>>;

/// The text of an optional owned string.
pub open spec fn string_opt_view(o: Option<String>) -> Option<Seq<char>> {
    match o {
        Some(s) => Some(s@),
        None => None,
    }
}

/// The text of an optional borrowed string.
pub open spec fn str_opt_view(o: Option<&str>) -> Option<Seq<char>> {
    match o {
        Some(s) => Some(s@),
        None => None,
    }
}

/// Base name used when the audio path has no file stem.
pub open spec fn fallback_stem() -> Seq<char> {
    "unknown_audio"@
}

/// The transcript file name for an audio file whose directory is `parent` and
/// whose base name without extension is `stem`: `text_<stem>.txt`, placed in
/// that directory, or in the current one when there is none.
pub open spec fn text_filename(parent: Option<Seq<char>>, stem: Option<Seq<char>>) -> Seq<char> {
    let name = match stem {
        Some(s) => s,
        None => fallback_stem(),
    };
    let base = "text_"@ + name + ".txt"@;
    match parent {
        Some(dir) => if dir.len() == 0 {
            base
        } else {
            dir + "/"@ + base
        },
        None => base,
    }
}

/// Relies on `std::path::Path::file_stem`: the stem of the path's final component.
#[verifier::external_body]
fn path_file_stem(path: &str) -> (r: Option<String>)
    ensures
        string_opt_view(r) == file_stem_of(path@),
{
    std::path::Path::new(path).file_stem().and_then(|s| s.to_str()).map(|s| s.to_string())
}

/// Relies on `std::path::Path::parent`: the path without its final component.
#[verifier::external_body]
fn path_parent(path: &str) -> (r: Option<String>)
    ensures
        string_opt_view(r) == parent_of(path@),
{
    std::path::Path::new(path).parent().and_then(|p| p.to_str()).map(|p| p.to_string())
}

/// Builds the transcript file name from an audio file's directory and stem.
pub fn text_filename_from_parts(parent: Option<&str>, stem: Option<&str>) -> (r: String)
    ensures
        r@ == text_filename(str_opt_view(parent), str_opt_view(stem)),
{
    let name: &str = match stem {
        Some(s) => s,
        None => "unknown_audio",
    };
    let mut out = String::new();
    match parent {
        Some(dir) => if !dir.is_empty() {
            out.append(dir);
            out.append("/");
        },
        None => {},
    }
    out.append("text_");
    out.append(name);
    out.append(".txt");
    proof {
        let ghost n = match str_opt_view(stem) { Some(s) => s, None => fallback_stem() };
        assert(name@ == n);
        assert(out@ =~= text_filename(str_opt_view(parent), str_opt_view(stem)));
    }
    out
}

/// What the transcript file holds: the text and one trailing newline.
pub fn transcript_file_contents(text: &str) -> (r: String)
    ensures
        r@ == text@ + "\n"@,
{
    let mut out = String::from_str(text);
    out.append("\n");
    out
}

/// Writes transcripts next to the audio files they come from.
pub struct FileHandler;

impl FileHandler {
    /// The transcript file name for the audio file at `audio_file_path`:
    /// `text_` + its stem + `.txt`, in the same directory.
    pub fn generate_text_filename(audio_file_path: &str) -> (r: String)
        ensures
            r@ == text_filename(parent_of(audio_file_path@), file_stem_of(audio_file_path@)),
    {
        let stem = path_file_stem(audio_file_path);
        let parent = path_parent(audio_file_path);
        let stem_ref: Option<&str> = match &stem {
            Some(s) => Some(s.as_str()),
            None => None,
        };
        let parent_ref: Option<&str> = match &parent {
            Some(p) => Some(p.as_str()),
            None => None,
        };
        text_filename_from_parts(parent_ref, stem_ref)
    }
}

} // verus!
