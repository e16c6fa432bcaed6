//! The audio formats a download can be converted to.

use vstd::prelude::*;

verus! {

/// Target audio format of a download.
#[derive(Clone, Copy, Debug, PartialEq, Eq, Structural)]
pub enum AudioFormat {
    Mp3,
    Wav,
    M4a,
    Aac,
    Flac,
}

impl AudioFormat {
    /// The name the extractor knows this format by.
    pub open spec fn name(self) -> Seq<char> {
        match self {
            AudioFormat::Mp3 => "mp3"@,
            AudioFormat::Wav => "wav"@,
            AudioFormat::M4a => "m4a"@,
            AudioFormat::Aac => "aac"@,
            AudioFormat::Flac => "flac"@,
        }
    }

    /// Returns the name passed to the extractor's `--audio-format` option.
    pub fn as_str(&self) -> (name: &'static str)
        ensures
            name@ == self.name(),
    {
        match self {
            AudioFormat::Mp3 => "mp3",
            AudioFormat::Wav => "wav",
            AudioFormat::M4a => "m4a",
            AudioFormat::Aac => "aac",
            AudioFormat::Flac => "flac",
        }
    }
}

} // verus!
