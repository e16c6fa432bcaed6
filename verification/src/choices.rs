//! What the user's answers mean: each menu's entries, by index, and the plan
//! of a run.

use crate::download::DownloadRequest;
use crate::format::AudioFormat;
use crate::playlist::{is_playlist, is_playlist_url};
use crate::setup::SetupConfig;
use vstd::prelude::*;

verus! {

/// What the user is told where a run is rejected.
pub const REJECTION: &'static str =
    "Error: This is a playlist/album URL. Please provide a single song URL for single song download.";

/// What the user asks to be downloaded.
#[derive(Clone, Copy, Debug, PartialEq, Eq, Structural)]
pub enum DownloadMode {
    /// The one item at the address.
    Single,
    /// Every item of the playlist at the address.
    Playlist,
}

/// What a run does with the address it was given.
#[derive(Clone, Copy, Debug, PartialEq, Eq, Structural)]
pub enum Plan {
    /// Download the item at the address.
    DownloadOne,
    /// Expand the playlist at the address and download its items.
    DownloadAll,
    /// Download nothing: the address is a playlist's, and one item was
    /// asked for.
    Reject,
}

/// Where the downloaded files go.
#[derive(Clone, Copy, Debug, PartialEq, Eq, Structural)]
pub enum DownloadLocation {
    /// The folder "Audio" in the current directory, created where it is
    /// missing.
    AudioFolder,
    /// The current directory.
    CurrentDirectory,
}

/// What the user chose for a run.
#[derive(Debug, PartialEq, Eq)]
pub struct Settings {
    /// Format to convert the audio to.
    pub format: AudioFormat,
    /// Directory that receives the files.
    pub output_dir: String,
    /// Whether thumbnails are embedded in the files.
    pub embed_thumbnail: bool,
}

/// The plan of a run in `mode`, for an address that is a playlist's or not.
pub open spec fn planned(mode: DownloadMode, playlist: bool) -> Plan {
    match mode {
        DownloadMode::Single => if playlist {
            Plan::Reject
        } else {
            Plan::DownloadOne
        },
        DownloadMode::Playlist => Plan::DownloadAll,
    }
}

/// The format that the entry `selection` of the format menu stands for.
pub open spec fn format_at(selection: usize) -> AudioFormat {
    if selection == 1 {
        AudioFormat::Wav
    } else if selection == 2 {
        AudioFormat::M4a
    } else if selection == 3 {
        AudioFormat::Aac
    } else if selection == 4 {
        AudioFormat::Flac
    } else {
        AudioFormat::Mp3
    }
}

impl DownloadLocation {
    /// The path of the directory.
    pub open spec fn path(self) -> Seq<char> {
        match self {
            DownloadLocation::AudioFolder => "Audio"@,
            DownloadLocation::CurrentDirectory => "."@,
        }
    }

    /// Returns the path of the directory.
    pub fn directory(&self) -> (path: &'static str)
        ensures
            path@ == self.path(),
    {
        match self {
            DownloadLocation::AudioFolder => "Audio",
            DownloadLocation::CurrentDirectory => ".",
        }
    }

    /// Tells whether the directory is to be created before the downloads.
    pub fn is_created(&self) -> (b: bool)
        ensures
            b == (*self == DownloadLocation::AudioFolder),
    {
        matches!(self, DownloadLocation::AudioFolder)
    }
}

/// Returns the mode that an entry of the menu of download types stands for:
/// the first is a single item, any other a playlist.
pub fn mode_for(selection: usize) -> (mode: DownloadMode)
    ensures
        mode == (if selection == 0 {
            DownloadMode::Single
        } else {
            DownloadMode::Playlist
        }),
{
    if selection == 0 {
        DownloadMode::Single
    } else {
        DownloadMode::Playlist
    }
}

/// Returns the format that an entry of the format menu stands for: MP3, WAV,
/// M4A, AAC and FLAC in this order, and MP3 for any other.
pub fn format_for(selection: usize) -> (format: AudioFormat)
    ensures
        format == format_at(selection),
{
    match selection {
        1 => AudioFormat::Wav,
        2 => AudioFormat::M4a,
        3 => AudioFormat::Aac,
        4 => AudioFormat::Flac,
        _ => AudioFormat::Mp3,
    }
}

/// Tells whether an entry of the thumbnail menu asks for thumbnails: the
/// first does, any other does not.
pub fn embeds_thumbnail(selection: usize) -> (embed: bool)
    ensures
        embed == (selection == 0),
{
    selection == 0
}

/// Returns the location that an entry of the location menu stands for: the
/// first is the folder "Audio", any other the current directory.
pub fn location_for(selection: usize) -> (location: DownloadLocation)
    ensures
        location == (if selection == 0 {
            DownloadLocation::AudioFolder
        } else {
            DownloadLocation::CurrentDirectory
        }),
{
    if selection == 0 {
        DownloadLocation::AudioFolder
    } else {
        DownloadLocation::CurrentDirectory
    }
}

/// Plans a run. A playlist's address is rejected where a single item was
/// asked for; nothing is downloaded then.
pub fn plan(mode: DownloadMode, url: &str) -> (plan: Plan)
    ensures
        plan == planned(mode, is_playlist(url@)),
        mode == DownloadMode::Single && is_playlist(url@) ==> plan == Plan::Reject,
{
    match mode {
        DownloadMode::Single => if is_playlist_url(url) {
            Plan::Reject
        } else {
            Plan::DownloadOne
        },
        DownloadMode::Playlist => Plan::DownloadAll,
    }
}

/// Builds the request for the item at `url`. There is none where the setup
/// found no encoder.
pub fn request_for(url: &str, settings: &Settings, tools: &SetupConfig) -> (request: Option<
    DownloadRequest,
>)
    ensures
        request is Some <==> tools.ffmpeg_path is Some,
        request matches Some(r) ==> r.url@ == url@ && r.format == settings.format && r.output_dir@
            == settings.output_dir@ && r.embed_thumbnail == settings.embed_thumbnail
            && r.encoder_path@ == tools.ffmpeg_path.unwrap()@,
{
    match &tools.ffmpeg_path {
        Some(encoder) => Some(
            DownloadRequest {
                url: url.to_owned(),
                format: settings.format,
                output_dir: settings.output_dir.clone(),
                embed_thumbnail: settings.embed_thumbnail,
                encoder_path: encoder.clone(),
            },
        ),
        None => None,
    }
}

} // verus!
