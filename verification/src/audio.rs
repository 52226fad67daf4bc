//! The dialogue audio files.  The script's lines are numbered; each line is
//! one sound file under the dialogue directory.

use vstd::prelude::*;
use vstd::string::StringExecFns;

verus! {

/// The audio channel of the speaker in the spawn room.
#[derive(Debug, Clone, Copy, PartialEq, Eq, Structural)]
pub struct SpawnRoomSpeaker;

/// How many dialogue files the script has.
pub const AUDIO_FILE_COUNT: usize = 19;

/// The file name of dialogue line `n`.
pub open spec fn spec_audio_file(n: int) -> Seq<char> {
    if n == 0 {
        "01-doc1.ogg"@
    } else if n == 1 {
        "02-bvj.ogg"@
    } else if n == 2 {
        "03-doc1.ogg"@
    } else if n == 3 {
        "04-doc1.ogg"@
    } else if n == 4 {
        "05-bvj.ogg"@
    } else if n == 5 {
        "06-doc2.ogg"@
    } else if n == 6 {
        "07-doc1.ogg"@
    } else if n == 7 {
        "08-bvj.ogg"@
    } else if n == 8 {
        "09-doc1.ogg"@
    } else if n == 9 {
        "10-doc2.ogg"@
    } else if n == 10 {
        "11-doc1.ogg"@
    } else if n == 11 {
        "12-bvj.ogg"@
    } else if n == 12 {
        "13-doc1.ogg"@
    } else if n == 13 {
        "14-doc2.ogg"@
    } else if n == 14 {
        "15-doc1.ogg"@
    } else if n == 15 {
        "16-bvj.ogg"@
    } else if n == 16 {
        "17-doc2.ogg"@
    } else if n == 17 {
        "18-doc2.ogg"@
    } else {
        "19-doc1.ogg"@
    }
}

/// The file name of dialogue line `n`, for the script's lines.
pub fn audio_file(n: usize) -> (r: Option<&'static str>)
    ensures
        n < AUDIO_FILE_COUNT <==> r is Some,
        (match r {
            Some(f) => f@ == spec_audio_file(n as int),
            None => true,
        }),
{
    match n {
        0 => Some("01-doc1.ogg"),
        1 => Some("02-bvj.ogg"),
        2 => Some("03-doc1.ogg"),
        3 => Some("04-doc1.ogg"),
        4 => Some("05-bvj.ogg"),
        5 => Some("06-doc2.ogg"),
        6 => Some("07-doc1.ogg"),
        7 => Some("08-bvj.ogg"),
        8 => Some("09-doc1.ogg"),
        9 => Some("10-doc2.ogg"),
        10 => Some("11-doc1.ogg"),
        11 => Some("12-bvj.ogg"),
        12 => Some("13-doc1.ogg"),
        13 => Some("14-doc2.ogg"),
        14 => Some("15-doc1.ogg"),
        15 => Some("16-bvj.ogg"),
        16 => Some("17-doc2.ogg"),
        17 => Some("18-doc2.ogg"),
        18 => Some("19-doc1.ogg"),
        _ => None,
    }
}

/// The asset path of dialogue line `n`: the file under the dialogue
/// directory.
pub fn dialogue_path(n: usize) -> (r: Option<String>)
    ensures
        n < AUDIO_FILE_COUNT <==> r is Some,
        (match r {
            Some(p) => p@ == "sounds/dialogues/"@ + spec_audio_file(n as int),
            None => true,
        }),
{
    match audio_file(n) {
        Some(f) => Some(String::from_str("sounds/dialogues/").concat(f)),
        None => None,
    }
}

} // verus!
