//! Sound effects: the formats of the sound files and where the files lie.

use vstd::prelude::*;
use crate::text::push_char;

verus! {

/// The directory that holds the sound files.
pub const SOUNDS_DIRECTORY: &'static str = "./assets/sounds/";

/// The format of a sound file.
#[derive(Clone, Copy, Debug, PartialEq, Eq, Structural)]
pub enum Format {
    Wav,
    Opus,
    Mp3,
}

/// The ending of the files of a format.
pub open spec fn extension_of(format: Format) -> Seq<char> {
    match format {
        Format::Wav => "wav"@,
        Format::Opus => "opus"@,
        Format::Mp3 => "mp3"@,
    }
}

/// The name of the sound file for the sound `name` in `format`: the name, a
/// dot, the ending of the format.
pub open spec fn sound_file_name(name: Seq<char>, format: Format) -> Seq<char> {
    name + seq!['.'] + extension_of(format)
}

/// Where a sound lies: `file` itself where it is a full path, else `file`
/// within the directory of the sound files.
pub open spec fn sound_path(file: Seq<char>, is_full_path: bool) -> Seq<char> {
    if is_full_path {
        file
    } else {
        SOUNDS_DIRECTORY@ + file
    }
}

impl Format {
    /// The ending of the files of this format.
    pub fn extension(&self) -> (r: &'static str)
        ensures
            r@ == extension_of(*self),
    {
        match self {
            Format::Wav => "wav",
            Format::Opus => "opus",
            Format::Mp3 => "mp3",
        }
    }

    /// The name of the file for the sound `name` in this format.
    pub fn file_name(&self, name: &str) -> (r: String)
        ensures
            r@ == sound_file_name(name@, *self),
    {
        let mut r = name.to_owned();
        push_char(&mut r, '.');
        r.append(self.extension());
        assert(r@ =~= sound_file_name(name@, *self));
        r
    }
}

/// A request to play a sound: the file, and whether `file_path` is a full
/// path or a name within the directory of the sound files.
#[derive(Debug, PartialEq, Eq)]
pub struct AudioPlaybackRequest {
    pub file_path: String,
    pub is_full_path: bool,
}

impl AudioPlaybackRequest {
    /// The request to play the sound file `file` of the sound directory.
    pub fn sound(file: String) -> (r: AudioPlaybackRequest)
        ensures
            r.file_path@ == file@,
            !r.is_full_path,
    {
        AudioPlaybackRequest { file_path: file, is_full_path: false }
    }

    /// Where the file to play lies.
    pub fn path(&self) -> (r: String)
        ensures
            r@ == sound_path(self.file_path@, self.is_full_path),
    {
        if self.is_full_path {
            self.file_path.clone()
        } else {
            let mut r = SOUNDS_DIRECTORY.to_owned();
            r.append(self.file_path.as_str());
            r
        }
    }
}

} // verus!
