use vstd::prelude::*;

use crate::metadata::{replace_all, replace_char};

verus! {

/// Whether `c` occurs in `path`.
pub fn contains_char(path: &str, c: char) -> (r: bool)
    ensures
        r == path@.contains(c),
{
    let n = path.unicode_len();
    let mut i: usize = 0;
    while i < n
        invariant
            i <= n,
            n == path@.len(),
            forall|j: int| 0 <= j < i ==> path@[j] != c,
        decreases n - i,
    {
        if path.get_char(i) == c {
            return true;
        }
        i = i + 1;
    }
    false
}

/// The same path written with the other separator: `/` becomes `\` where the
/// path holds a `/`, and `\` becomes `/` otherwise.
pub open spec fn other_separator_form(path: Seq<char>) -> Seq<char> {
    if path.contains('/') {
        replace_char(path, '/', '\\')
    } else {
        replace_char(path, '\\', '/')
    }
}

/// The second spelling of a path worth checking for existence: the path
/// written with the other separator, where that differs from the path.
pub fn alternate_path(path: &String) -> (r: Option<String>)
    ensures
        match r {
            Some(a) => a@ == other_separator_form(path@) && a@ != path@,
            None => other_separator_form(path@) == path@,
        },
{
    let alt = if contains_char(path.as_str(), '/') {
        replace_all(path.as_str(), '/', '\\')
    } else {
        replace_all(path.as_str(), '\\', '/')
    };
    if alt == *path {
        None
    } else {
        Some(alt)
    }
}

/// The lower-case form of a text, as `str::to_lowercase` gives it.
pub uninterp spec fn lowercase_of(s: Seq<char>) -> Seq<char>;

/// Relies on `str::to_lowercase`: the result depends on the characters alone.
#[verifier::external_body]
fn lowercase(s: &str) -> (r: String)
    ensures
        r@ == lowercase_of(s@),
{
    s.to_lowercase()
}

/// The extensions of the audio files a library scan picks up, in lower case.
pub open spec fn is_known_audio_extension(ext: Seq<char>) -> bool {
    ext == "mp3"@ || ext == "flac"@ || ext == "wav"@ || ext == "ogg"@ || ext == "m4a"@ || ext
        == "aac"@
}

/// Whether an extension that is already in lower case names an audio format.
pub fn is_lower_audio_extension(ext: &String) -> (r: bool)
    ensures
        r == is_known_audio_extension(ext@),
{
    let known = vec![
        String::from_str("mp3"),
        String::from_str("flac"),
        String::from_str("wav"),
        String::from_str("ogg"),
        String::from_str("m4a"),
        String::from_str("aac"),
    ];
    let mut i: usize = 0;
    while i < known.len()
        invariant
            i <= known@.len(),
            known@.len() == 6,
            known@[0]@ == "mp3"@,
            known@[1]@ == "flac"@,
            known@[2]@ == "wav"@,
            known@[3]@ == "ogg"@,
            known@[4]@ == "m4a"@,
            known@[5]@ == "aac"@,
            forall|j: int| 0 <= j < i ==> known@[j]@ != ext@,
        decreases known@.len() - i,
    {
        if known[i] == *ext {
            return true;
        }
        i = i + 1;
    }
    false
}

/// Whether a file extension, in any case, names an audio format.
pub fn is_audio_extension(ext: &str) -> (r: bool)
    ensures
        r == is_known_audio_extension(lowercase_of(ext@)),
{
    let lower = lowercase(ext);
    is_lower_audio_extension(&lower)
}

} // verus!
