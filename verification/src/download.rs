//! One download: the extractor's arguments, the reading of what it printed,
//! and the renaming of the file it wrote.

use crate::filename::{sanitize, sanitized, ANNOTATION_PATTERN, ARTIST_PREFIX_PATTERN};
use crate::format::AudioFormat;
use crate::platform::Platform;
use crate::text::{
    after_last, chars_of, count_leading_spaces, decode, tail_len_after, trim, trimmed,
    trimmed_start, views,
};
use vstd::prelude::*;
use vstd::string::*;
use vstd::utf8::*;

verus! {

/// What to download, and how.
#[derive(Debug, PartialEq, Eq)]
pub struct DownloadRequest {
    /// Address of the item.
    pub url: String,
    /// Format to convert the audio to.
    pub format: AudioFormat,
    /// Directory that receives the file.
    pub output_dir: String,
    /// Whether the thumbnail is embedded in the file.
    pub embed_thumbnail: bool,
    /// Path of the encoder.
    pub encoder_path: String,
}

/// Why a download failed. Each variant holds the text that describes the
/// failure.
#[derive(Debug, PartialEq, Eq)]
pub enum DownloadError {
    /// The extractor could not be started; holds the system's message.
    NotStarted(String),
    /// The extractor exited with a failure; holds what it wrote to standard
    /// error.
    ExtractorFailed(String),
    /// The extractor exited well but printed no file path; holds what it
    /// wrote to standard error.
    NoFilePath(String),
    /// The file could not be renamed; holds the system's message.
    RenameFailed(String),
}

/// How one download ended.
#[derive(Debug, PartialEq, Eq)]
pub enum DownloadOutcome {
    /// The file is at the path held.
    Success(String),
    Failure(DownloadError),
}

/// What is left to do for an item once the extractor has exited.
#[derive(Debug, PartialEq, Eq)]
pub enum NextStep {
    /// Nothing.
    Done(DownloadOutcome),
    /// The file at `from` is to be renamed to `to`.
    Rename { from: String, to: String },
}

impl DownloadError {
    /// The text that describes the failure.
    pub open spec fn text(self) -> Seq<char> {
        match self {
            DownloadError::NotStarted(text) => text@,
            DownloadError::ExtractorFailed(text) => text@,
            DownloadError::NoFilePath(text) => text@,
            DownloadError::RenameFailed(text) => text@,
        }
    }

    /// Returns the text that describes the failure.
    pub fn message(&self) -> (text: &str)
        ensures
            text@ == self.text(),
    {
        match self {
            DownloadError::NotStarted(text) => text.as_str(),
            DownloadError::ExtractorFailed(text) => text.as_str(),
            DownloadError::NoFilePath(text) => text.as_str(),
            DownloadError::RenameFailed(text) => text.as_str(),
        }
    }
}

/// The line that tells of a download whose extractor exited with a failure:
/// the item's address and what the extractor wrote to standard error. Other
/// outcomes have none.
pub open spec fn failure_notice_of(url: Seq<char>, outcome: DownloadOutcome) -> Option<Seq<char>> {
    match outcome {
        DownloadOutcome::Failure(DownloadError::ExtractorFailed(text)) => Some(
            "Failed to download "@ + url + ": "@ + text@,
        ),
        _ => None,
    }
}

/// The extractor's arguments for one download, in order.
pub open spec fn download_args(request: DownloadRequest) -> Seq<Seq<char>> {
    seq![
        "--ffmpeg-location"@,
        request.encoder_path@,
        "-x"@,
        "--audio-format"@,
        request.format.name(),
        "--audio-quality"@,
        "0"@,
    ] + (if request.embed_thumbnail {
        seq!["--embed-thumbnail"@]
    } else {
        Seq::empty()
    }) + seq![
        "--postprocessor-args"@,
        "-ar 48000 -ac 2 -b:a 320k"@,
        "-P"@,
        request.output_dir@,
        "--no-check-certificates"@,
        "--ignore-errors"@,
        "--print"@,
        "after_move:%(filepath)s"@,
        "--output"@,
        "%(title)s.%(ext)s"@,
        "--parse-metadata"@,
        "%(uploader)s:%(artist)s"@,
        "--replace-in-metadata"@,
        "title"@,
        ARTIST_PREFIX_PATTERN@,
        ""@,
        "--replace-in-metadata"@,
        "title"@,
        ANNOTATION_PATTERN@,
        ""@,
        "--add-metadata"@,
        request.url@,
    ]
}

/// The file path that the extractor printed: the last line of `output` that
/// holds more than white space, without the white space around it. There is
/// none where `output` is no UTF-8 or holds white space only.
pub open spec fn printed_path_of(output: Seq<u8>) -> Option<Seq<char>> {
    if !valid_utf8(output) {
        None
    } else {
        let text = trimmed(decode_utf8(output));
        if text.len() == 0 {
            None
        } else {
            Some(trimmed_start(after_last(text, '\n')))
        }
    }
}

/// Number of characters of `path` that follow its last separator.
pub open spec fn file_name_len(path: Seq<char>, platform: Platform) -> nat
    decreases path.len(),
{
    if path.len() == 0 || platform.separates(path.last()) {
        0
    } else {
        1 + file_name_len(path.drop_last(), platform)
    }
}

/// The file name in `path`: what follows its last separator.
pub open spec fn file_name(path: Seq<char>, platform: Platform) -> Seq<char> {
    path.skip(path.len() - file_name_len(path, platform))
}

/// The directory in `path`: everything through its last separator.
pub open spec fn directory(path: Seq<char>, platform: Platform) -> Seq<char> {
    path.take(path.len() - file_name_len(path, platform))
}

/// `path` with its file name cleaned.
pub open spec fn renamed(path: Seq<char>, platform: Platform) -> Seq<char> {
    directory(path, platform) + sanitized(file_name(path, platform))
}

/// The file name ends the path, and no separator is in it.
pub proof fn lemma_file_name_len(path: Seq<char>, platform: Platform)
    ensures
        file_name_len(path, platform) <= path.len(),
        forall|k: int|
            path.len() - file_name_len(path, platform) <= k < path.len() ==> !platform.separates(
                #[trigger] path[k],
            ),
        file_name_len(path, platform) < path.len() ==> platform.separates(
            path[path.len() - file_name_len(path, platform) - 1],
        ),
    decreases path.len(),
{
    if !(path.len() == 0 || platform.separates(path.last())) {
        let front = path.drop_last();
        lemma_file_name_len(front, platform);
        assert forall|k: int|
            path.len() - file_name_len(path, platform) <= k < path.len() implies !platform.separates(
            #[trigger] path[k],
        ) by {
            if k < path.len() - 1 {
                assert(front[k] == path[k]);
            }
        }
        if file_name_len(path, platform) < path.len() {
            assert(front[front.len() - file_name_len(front, platform) - 1] == path[path.len()
                - file_name_len(path, platform) - 1]);
        }
    }
}

/// A path is renamed to itself exactly when its file name is clean already.
pub proof fn lemma_renamed_same(path: Seq<char>, platform: Platform)
    ensures
        renamed(path, platform) == path <==> sanitized(file_name(path, platform)) == file_name(
            path,
            platform,
        ),
{
    lemma_file_name_len(path, platform);
    let dir = directory(path, platform);
    let name = file_name(path, platform);
    let clean = sanitized(name);
    assert(dir + name =~= path);
    if dir + clean == path {
        assert(clean =~= (dir + clean).skip(dir.len() as int));
        assert(name =~= (dir + name).skip(dir.len() as int));
    }
}

/// Appends a copy of `text` to `args`.
fn push_text(args: &mut Vec<String>, text: &str)
    ensures
        views(final(args)@) == views(old(args)@).push(text@),
{
    args.push(text.to_owned());
    assert(views(args@) =~= views(old(args)@).push(text@));
}

/// Builds the extractor's arguments for `request`.
pub fn extractor_args(request: &DownloadRequest) -> (args: Vec<String>)
    ensures
        views(args@) == download_args(*request),
{
    let mut args: Vec<String> = Vec::new();
    assert(views(args@) =~= Seq::empty());
    push_text(&mut args, "--ffmpeg-location");
    push_text(&mut args, request.encoder_path.as_str());
    push_text(&mut args, "-x");
    push_text(&mut args, "--audio-format");
    push_text(&mut args, request.format.as_str());
    push_text(&mut args, "--audio-quality");
    push_text(&mut args, "0");
    if request.embed_thumbnail {
        push_text(&mut args, "--embed-thumbnail");
    }
    push_text(&mut args, "--postprocessor-args");
    push_text(&mut args, "-ar 48000 -ac 2 -b:a 320k");
    push_text(&mut args, "-P");
    push_text(&mut args, request.output_dir.as_str());
    push_text(&mut args, "--no-check-certificates");
    push_text(&mut args, "--ignore-errors");
    push_text(&mut args, "--print");
    push_text(&mut args, "after_move:%(filepath)s");
    push_text(&mut args, "--output");
    push_text(&mut args, "%(title)s.%(ext)s");
    push_text(&mut args, "--parse-metadata");
    push_text(&mut args, "%(uploader)s:%(artist)s");
    push_text(&mut args, "--replace-in-metadata");
    push_text(&mut args, "title");
    push_text(&mut args, ARTIST_PREFIX_PATTERN);
    push_text(&mut args, "");
    push_text(&mut args, "--replace-in-metadata");
    push_text(&mut args, "title");
    push_text(&mut args, ANNOTATION_PATTERN);
    push_text(&mut args, "");
    push_text(&mut args, "--add-metadata");
    push_text(&mut args, request.url.as_str());
    assert(views(args@) =~= download_args(*request));
    args
}

/// Reads the file path that the extractor printed to standard output.
pub fn printed_path(output: &[u8]) -> (path: Option<String>)
    ensures
        match path {
            Some(p) => printed_path_of(output@) == Some(p@),
            None => printed_path_of(output@) is None,
        },
{
    let decoded = match decode(output) {
        Some(decoded) => decoded,
        None => { return None; },
    };
    let text = trim(decoded);
    let v = chars_of(text);
    if v.len() == 0 {
        return None;
    }
    let mut start: usize = v.len();
    assert(v@.take(v.len() as int) == v@);
    while start > 0 && v[start - 1] != '\n'
        invariant
            start <= v.len(),
            tail_len_after(v@, '\n') == (v.len() - start) + tail_len_after(
                v@.take(start as int),
                '\n',
            ),
        decreases start,
    {
        proof {
            let here = v@.take(start as int);
            assert(here.last() == v@[start - 1]);
            assert(here.drop_last() == v@.take(start - 1));
        }
        start -= 1;
    }
    proof {
        let here = v@.take(start as int);
        if start > 0 {
            assert(here.last() == v@[start - 1]);
        }
    }
    let spaces = count_leading_spaces(&v, start);
    proof {
        let line = after_last(text@, '\n');
        assert(line == v@.skip(start as int));
        assert(line.skip(spaces as int) == v@.subrange(start + spaces, v.len() as int));
    }
    Some(text.substring_char(start + spaces, v.len()).to_owned())
}

/// Plans the renaming of a downloaded file: the path under which its clean
/// name puts it, or nothing where the name is clean already.
pub fn rename_target(path: &str, platform: Platform) -> (target: Option<String>)
    ensures
        match target {
            Some(to) => to@ == renamed(path@, platform) && to@ != path@,
            None => renamed(path@, platform) == path@,
        },
        target is None <==> sanitized(file_name(path@, platform)) == file_name(path@, platform),
{
    let v = chars_of(path);
    let mut start: usize = v.len();
    assert(v@.take(v.len() as int) == v@);
    while start > 0 && !platform.is_separator(v[start - 1])
        invariant
            start <= v.len(),
            file_name_len(v@, platform) == (v.len() - start) + file_name_len(
                v@.take(start as int),
                platform,
            ),
        decreases start,
    {
        proof {
            let here = v@.take(start as int);
            assert(here.last() == v@[start - 1]);
            assert(here.drop_last() == v@.take(start - 1));
        }
        start -= 1;
    }
    proof {
        let here = v@.take(start as int);
        if start > 0 {
            assert(here.last() == v@[start - 1]);
        }
        lemma_renamed_same(path@, platform);
        assert(v@.subrange(start as int, v.len() as int) == file_name(path@, platform));
        assert(v@.subrange(0, start as int) == directory(path@, platform));
    }
    let name = path.substring_char(start, v.len()).to_owned();
    let clean = sanitize(name.as_str());
    if clean == name {
        None
    } else {
        let mut to = path.substring_char(0, start).to_owned();
        to.append(clean.as_str());
        Some(to)
    }
}

/// Decides what follows the extractor's exit: a failure where it failed or
/// printed no path, a renaming where the file's name is not clean, and
/// success otherwise.
pub fn after_extraction(
    platform: Platform,
    succeeded: bool,
    output: &[u8],
    diagnostics: &str,
) -> (step: NextStep)
    ensures
        match step {
            NextStep::Done(DownloadOutcome::Failure(DownloadError::ExtractorFailed(text))) =>
                !succeeded && text@ == diagnostics@,
            NextStep::Done(DownloadOutcome::Failure(DownloadError::NoFilePath(text))) => succeeded
                && printed_path_of(output@) is None && text@ == diagnostics@,
            NextStep::Done(DownloadOutcome::Failure(DownloadError::NotStarted(_))) => false,
            NextStep::Done(DownloadOutcome::Failure(DownloadError::RenameFailed(_))) => false,
            NextStep::Done(DownloadOutcome::Success(path)) => succeeded && printed_path_of(output@)
                == Some(path@) && renamed(path@, platform) == path@,
            NextStep::Rename { from, to } => succeeded && printed_path_of(output@) == Some(from@)
                && to@ == renamed(from@, platform) && to@ != from@,
        },
{
    if !succeeded {
        return NextStep::Done(
            DownloadOutcome::Failure(DownloadError::ExtractorFailed(diagnostics.to_owned())),
        );
    }
    match printed_path(output) {
        None => NextStep::Done(
            DownloadOutcome::Failure(DownloadError::NoFilePath(diagnostics.to_owned())),
        ),
        Some(path) => match rename_target(path.as_str(), platform) {
            None => NextStep::Done(DownloadOutcome::Success(path)),
            Some(to) => NextStep::Rename { from: path, to },
        },
    }
}

/// Builds the line that tells of a download whose extractor exited with a
/// failure.
pub fn failure_notice(url: &str, outcome: &DownloadOutcome) -> (notice: Option<String>)
    ensures
        match notice {
            Some(line) => failure_notice_of(url@, *outcome) == Some(line@),
            None => failure_notice_of(url@, *outcome) is None,
        },
{
    match outcome {
        DownloadOutcome::Failure(DownloadError::ExtractorFailed(text)) => {
            let mut line = "Failed to download ".to_owned();
            line.append(url);
            line.append(": ");
            line.append(text.as_str());
            Some(line)
        },
        _ => None,
    }
}

/// Decides how a download ended once its file was renamed to `to`, or the
/// renaming failed with the message `failure`.
pub fn after_rename(to: String, failure: Option<String>) -> (outcome: DownloadOutcome)
    ensures
        match outcome {
            DownloadOutcome::Success(path) => failure is None && path@ == to@,
            DownloadOutcome::Failure(DownloadError::RenameFailed(text)) => failure is Some
                && text@ == failure.unwrap()@,
            DownloadOutcome::Failure(_) => false,
        },
{
    match failure {
        None => DownloadOutcome::Success(to),
        Some(text) => DownloadOutcome::Failure(DownloadError::RenameFailed(text)),
    }
}

} // verus!
