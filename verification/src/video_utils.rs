//! Names of video files: which extensions are taken for video, and what the
//! trimmed copy of a file is called.

use vstd::prelude::*;
use vstd::string::{StrSliceExecFns, StringExecFns};

verus! {

/// The extensions that are taken for video.
pub open spec fn valid_extensions() -> Seq<Seq<char>> {
    seq![
        "mp4"@,
        "avi"@,
        "mov"@,
        "wmv"@,
        "flv"@,
        "mkv"@,
        "webm"@,
        "m4v"@,
        "mpg"@,
        "mpeg"@,
        "m2v"@,
        "3gp"@,
        "3g2"@,
    ]
}

/// Tells whether two texts are the same, character by character.
pub fn same_text(left: &str, right: &str) -> (same: bool)
    ensures
        same == (left@ == right@),
{
    let n = left.unicode_len();
    if right.unicode_len() != n {
        return false;
    }
    let mut i: usize = 0;
    while i < n
        invariant
            i <= n,
            n == left@.len(),
            n == right@.len(),
            forall|j: int| 0 <= j < i ==> left@[j] == right@[j],
        decreases n - i,
    {
        if left.get_char(i) != right.get_char(i) {
            return false;
        }
        i += 1;
    }
    assert(left@ =~= right@);
    true
}

/// Tells whether a file with the given extension is taken for a video. The
/// extension is given without its dot; a file without one is not a video.
pub fn check_valid_file_extension(extension: Option<&str>) -> (valid: bool)
    ensures
        valid == match extension {
            Some(text) => valid_extensions().contains(text@),
            None => false,
        },
{
    let known = [
        "mp4",
        "avi",
        "mov",
        "wmv",
        "flv",
        "mkv",
        "webm",
        "m4v",
        "mpg",
        "mpeg",
        "m2v",
        "3gp",
        "3g2",
    ];
    match extension {
        Some(text) => {
            let mut i: usize = 0;
            while i < 13
                invariant
                    i <= 13,
                    extension == Some(text),
                    known@.len() == 13,
                    forall|j: int| 0 <= j < 13 ==> (#[trigger] known@[j])@ == valid_extensions()[j],
                    forall|j: int| 0 <= j < i ==> valid_extensions()[j] != text@,
                decreases 13 - i,
            {
                if same_text(known[i], text) {
                    assert(valid_extensions().len() == 13);
                    assert(valid_extensions()[i as int] == text@);
                    return true;
                }
                i += 1;
            }
            false
        },
        None => false,
    }
}

/// Whether a made-up file name is to stand alone or to point into the
/// current directory.
pub enum PathType {
    Relative,
    FileOnly,
}

/// The name of the trimmed copy: the stem of the input file, the moment of
/// trimming and the word `trim`, with the extension of the input file. A file
/// without a stem is called `output`, and one without an extension is taken
/// for `mp4`.
pub open spec fn output_filename(
    stem: Option<Seq<char>>,
    extension: Option<Seq<char>>,
    moment: Seq<char>,
    path_type: PathType,
) -> Seq<char> {
    let lead = match path_type {
        PathType::Relative => "./"@,
        PathType::FileOnly => Seq::<char>::empty(),
    };
    let stem = match stem {
        Some(text) => text,
        None => "output"@,
    };
    let extension = match extension {
        Some(text) => text,
        None => "mp4"@,
    };
    lead + stem + "_"@ + moment + "_trim."@ + extension
}

/// The text of an optional part of a file name.
pub open spec fn part_text(part: Option<&str>) -> Option<Seq<char>> {
    match part {
        Some(text) => Some(text@),
        None => None,
    }
}

/// Makes up the name of the trimmed copy from the stem and the extension of
/// the input file and from the moment of trimming, written as digits.
pub fn generate_output_filename(
    stem: Option<&str>,
    extension: Option<&str>,
    moment: &str,
    path_type: PathType,
) -> (name: String)
    ensures
        name@ == output_filename(part_text(stem), part_text(extension), moment@, path_type),
{
    let mut name = String::new();
    if let PathType::Relative = path_type {
        name.append("./");
    }
    let stem = match stem {
        Some(text) => text,
        None => "output",
    };
    let extension = match extension {
        Some(text) => text,
        None => "mp4",
    };
    name.append(stem);
    name.append("_");
    name.append(moment);
    name.append("_trim.");
    name.append(extension);
    name
}

} // verus!
