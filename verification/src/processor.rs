use vstd::prelude::*;
use crate::text::{str_eq, owned};

verus! {

/// Why a file could not be prepared.
#[derive(Debug)]
pub enum ProcessorError {
    /// Reading or writing a file failed.
    Io(std::io::Error),
    /// No file exists at this path.
    NotFound(String),
}

/// What `Path::extension` gives for the path spelled by these characters
/// (converted to text).
pub uninterp spec fn extension_of(path: Seq<char>) -> Option<Seq<char>>;

/// The index of the last occurrence of `c` in `s`, or -1.
pub open spec fn last_index_of(s: Seq<char>, c: char) -> int
    decreases s.len(),
{
    if s.len() == 0 {
        -1
    } else if s.last() == c {
        s.len() - 1
    } else {
        last_index_of(s.drop_last(), c)
    }
}

/// A path that is a bare file name: not empty, no separator, no `:` (which
/// could start a drive prefix), not `.` or `..`.
pub open spec fn is_bare_file_name(p: Seq<char>) -> bool {
    &&& p.len() > 0
    &&& !p.contains('/')
    &&& !p.contains('\\')
    &&& !p.contains(':')
    &&& p != "."@
    &&& p != ".."@
}

/// The extension of a bare file name, as `Path::extension` documents it:
/// the text after the last `.`, unless there is no `.` or the only `.` is
/// the first character.
pub open spec fn bare_name_extension(p: Seq<char>) -> Option<Seq<char>> {
    let i = last_index_of(p, '.');
    if i <= 0 {
        None
    } else {
        Some(p.subrange(i + 1, p.len() as int))
    }
}

/// The text of an optional string.
pub open spec fn opt_text(o: Option<String>) -> Option<Seq<char>> {
    match o {
        Some(s) => Some(s@),
        None => None,
    }
}

/// The text of an optional string slice.
pub open spec fn opt_str_text(o: Option<&str>) -> Option<Seq<char>> {
    match o {
        Some(s) => Some(s@),
        None => None,
    }
}

/// `Path::extension` of the path `path`, as text.
///
/// The result is named `extension_of(path@)`; for a bare file name the
/// contract also states the rule the standard library documents (text after
/// the last `.`, none when there is no `.` or only a leading one). For paths
/// with directories it states nothing more.
#[verifier::external_body]
fn path_extension(path: &str) -> (r: Option<String>)
    ensures
        opt_text(r) == extension_of(path@),
        is_bare_file_name(path@) ==> opt_text(r) == bare_name_extension(path@),
{
    std::path::Path::new(path).extension().and_then(|e| e.to_str()).map(|e| e.to_string())
}

/// The MIME type announced for an audio file with extension `ext`.
pub open spec fn mime_type_for(ext: Option<Seq<char>>) -> Seq<char> {
    match ext {
        Some(e) => if e == "ogg"@ || e == "opus"@ {
            "audio/ogg"@
        } else if e == "mp3"@ {
            "audio/mp3"@
        } else if e == "wav"@ {
            "audio/wav"@
        } else if e == "flac"@ {
            "audio/flac"@
        } else if e == "pcm"@ {
            "audio/pcm"@
        } else {
            "audio/ogg"@
        },
        None => "audio/ogg"@,
    }
}

/// Audio file operations.
pub struct AudioProcessor;

impl AudioProcessor {
    /// The MIME type for an extension: `ogg` and `opus` are `audio/ogg`;
    /// `mp3`, `wav`, `flac` and `pcm` are `audio/<ext>`; anything else, and no
    /// extension, is `audio/ogg`.
    pub fn mime_type_for_extension(ext: Option<&str>) -> (r: &'static str)
        ensures
            r@ == mime_type_for(opt_str_text(ext)),
    {
        match ext {
            Some(e) => {
                if str_eq(e, "ogg") || str_eq(e, "opus") {
                    "audio/ogg"
                } else if str_eq(e, "mp3") {
                    "audio/mp3"
                } else if str_eq(e, "wav") {
                    "audio/wav"
                } else if str_eq(e, "flac") {
                    "audio/flac"
                } else if str_eq(e, "pcm") {
                    "audio/pcm"
                } else {
                    "audio/ogg"
                }
            },
            None => "audio/ogg",
        }
    }

    /// The MIME type for the audio file at `path`, chosen by its extension.
    pub fn get_mime_type(path: &str) -> (r: &'static str)
        ensures
            r@ == mime_type_for(extension_of(path@)),
            is_bare_file_name(path@) ==> r@ == mime_type_for(bare_name_extension(path@)),
    {
        let ext = path_extension(path);
        match ext {
            Some(e) => AudioProcessor::mime_type_for_extension(Some(e.as_str())),
            None => AudioProcessor::mime_type_for_extension(None),
        }
    }

    /// Whether the file at `path` is raw Opus (extension `opus`), which may
    /// need an OGG container before upload.
    pub fn needs_conversion(path: &str) -> (r: bool)
        ensures
            r == (extension_of(path@) == Some("opus"@)),
            is_bare_file_name(path@) ==> r == (bare_name_extension(path@) == Some("opus"@)),
    {
        match path_extension(path) {
            Some(e) => str_eq(e.as_str(), "opus"),
            None => false,
        }
    }

    /// The path to upload for `path`, given whether a file exists there: the
    /// path itself, or `NotFound` when there is no file.
    pub fn prepare_for_upload(path: &str, exists: bool) -> (r: Result<String, ProcessorError>)
        ensures
            exists ==> (r matches Ok(p) && p@ == path@),
            !exists ==> (r matches Err(ProcessorError::NotFound(p)) && p@ == path@),
    {
        if !exists {
            return Err(ProcessorError::NotFound(owned(path)));
        }
        Ok(owned(path))
    }
}

} // verus!
