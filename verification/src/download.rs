//! What is asked of the downloader, and how its answer is read.

use crate::error::{Error, ErrorView, StateFault};
use crate::media::{canonical_extension, MediaType, Resolution};
use crate::path::{extension, extension_of};
use crate::processing::needs_work;
use crate::request::{Download, DownloadView};
use crate::text::{push_text, same_bytes, same_text};
use crate::tool::{
    diagnostics, text_of, Invocation, InvocationView, LogEntry, LogEntryView, Outcome, Output,
};
use vstd::prelude::*;
use vstd::string::StringExecFns;

verus! {

/// One file that the downloader says it has written.
#[derive(Clone, Debug, Default, PartialEq, Eq)]
pub struct RequestedDownload {
    pub filename: String,
}

/// The downloader's metadata, as far as the pipeline reads it.
#[derive(Clone, Debug, Default, PartialEq, Eq)]
pub struct YtDlpJson {
    pub requested_downloads: Vec<RequestedDownload>,
}

/// The file that the downloader has written.
#[derive(Clone, Debug, PartialEq, Eq)]
pub struct YtDlp {
    pub filename: String,
}

/// What the downloader writes to its standard output where it has no
/// metadata to give: `null` and a line feed.
pub const NULL_YT_DLP_STDOUT: [u8; 5] = [0x6e, 0x75, 0x6c, 0x6c, 0x0a];

/// The name of the downloader's log file.
pub const DOWNLOADER_LOG: &'static str = "yt-dlp.log";

/// The bytes of [`NULL_YT_DLP_STDOUT`].
pub open spec fn no_metadata() -> Seq<u8> {
    seq![0x6eu8, 0x75u8, 0x6cu8, 0x6cu8, 0x0au8]
}

/// The arguments that select what the downloader fetches: the best audio
/// stream, or the formats sorted by closeness to a resolution.
pub open spec fn selector_args(kind: MediaType) -> Seq<Seq<char>> {
    match kind {
        MediaType::Audio => seq!["-f"@, "bestaudio"@],
        MediaType::Video(resolution) => seq!["-S"@, "res:"@ + resolution.text()],
    }
}

/// The arguments that every run of the downloader begins with: the
/// selection, and that a playlist is not to be followed.
pub open spec fn base_args(kind: MediaType) -> Seq<Seq<char>> {
    selector_args(kind).push("--no-playlist"@)
}

/// All arguments of the downloader: the base, then that it is to print
/// the metadata as JSON, to download all the same, and to overwrite what is
/// there; the URL comes last.
pub open spec fn downloader_args(url: Seq<char>, kind: MediaType) -> Seq<Seq<char>> {
    base_args(kind) + seq!["-J"@, "--no-simulate"@, "--force-overwrites"@, url]
}

/// The run of the downloader that a request asks for. It runs in the
/// destination directory.
pub open spec fn downloader_invocation(download: DownloadView) -> InvocationView {
    InvocationView {
        program: "yt-dlp"@,
        args: downloader_args(download.url, download.media_type),
        working_dir: download.download_dir,
    }
}

/// What goes to the downloader's log: all it wrote to its standard output,
/// unless that says that there is no metadata, then all it wrote to its
/// standard error.
pub open spec fn downloader_log_of(output: Output) -> Seq<u8> {
    if output.stdout@ == no_metadata() {
        output.stderr@
    } else {
        output.stdout@ + output.stderr@
    }
}

/// The name of the first file that the metadata lists.
pub open spec fn first_filename(metadata: Option<YtDlpJson>) -> Option<Seq<char>> {
    match metadata {
        Some(json) => if json.requested_downloads@.len() > 0 {
            Some(json.requested_downloads@[0].filename@)
        } else {
            None
        },
        None => None,
    }
}

/// What a run of the downloader has come to: the name of the file it wrote,
/// or why there is none. `metadata` is what its standard output holds, read
/// as JSON, or `None` where it could not be read so.
///
/// A downloader that did not start, or did not end with status 0, has
/// failed; the error holds its standard error as text. Else the metadata
/// has to be there and to list a file: standard output that says there is
/// none, or that could not be read, or that lists no file, is an error.
pub open spec fn downloaded(outcome: Outcome, metadata: Option<YtDlpJson>) -> Result<
    Seq<char>,
    ErrorView,
> {
    match outcome {
        Outcome::NotStarted(reason) => Err(ErrorView::DownloaderExecution(reason@)),
        Outcome::Ended(output) => if !output.succeeded() {
            Err(ErrorView::DownloaderExecution(text_of(output.stderr@)))
        } else if output.stdout@ == no_metadata() {
            Err(ErrorView::MetadataParse)
        } else {
            match first_filename(metadata) {
                Some(filename) => Ok(filename),
                None => Err(ErrorView::MetadataParse),
            }
        },
    }
}

/// The arguments that select what the downloader fetches.
pub fn build_selector_args(kind: MediaType) -> (args: Vec<String>)
    ensures
        args.deep_view() == selector_args(kind),
{
    let mut args: Vec<String> = Vec::new();
    match kind {
        MediaType::Audio => {
            push_text(&mut args, "-f");
            push_text(&mut args, "bestaudio");
        },
        MediaType::Video(resolution) => {
            push_text(&mut args, "-S");
            let quality = String::from_str("res:").concat(resolution.as_str());
            push_text(&mut args, quality.as_str());
        },
    }
    args
}

/// The arguments that every run of the downloader for `download` begins
/// with.
pub fn make_base_command(download: &Download) -> (args: Vec<String>)
    ensures
        args.deep_view() == base_args(download.media_type),
{
    let mut args = build_selector_args(download.media_type);
    push_text(&mut args, "--no-playlist");
    args
}

/// The run of the downloader that `download` asks for.
pub fn downloader_command(download: &Download) -> (command: Invocation)
    ensures
        command@ == downloader_invocation(download@),
{
    let mut args = make_base_command(download);
    push_text(&mut args, "-J");
    push_text(&mut args, "--no-simulate");
    push_text(&mut args, "--force-overwrites");
    push_text(&mut args, download.url.as_str());
    assert(args.deep_view() =~= downloader_args(download.url@, download.media_type));
    Invocation {
        program: String::from_str("yt-dlp"),
        args,
        working_dir: download.download_dir.clone(),
    }
}

/// Whether `stdout` is what the downloader writes where it has no metadata.
pub fn is_null_stdout(stdout: &[u8]) -> (null: bool)
    ensures
        null == (stdout@ == no_metadata()),
{
    let sentinel = NULL_YT_DLP_STDOUT;
    same_bytes(stdout, &sentinel)
}

/// What to write to the downloader's log after a run.
pub fn downloader_log(output: &Output) -> (log: LogEntry)
    ensures
        log@ == (LogEntryView { file: DOWNLOADER_LOG@, contents: downloader_log_of(*output) }),
{
    let mut contents: Vec<u8> = Vec::new();
    if !is_null_stdout(output.stdout.as_slice()) {
        contents.extend_from_slice(output.stdout.as_slice());
    }
    contents.extend_from_slice(output.stderr.as_slice());
    assert(contents@ =~= downloader_log_of(*output));
    LogEntry { file: String::from_str(DOWNLOADER_LOG), contents }
}

impl YtDlp {
    /// The first file that the metadata lists. Metadata that lists none is
    /// an error.
    pub fn new(yt_dlp_json: &YtDlpJson) -> (made: Result<YtDlp, Error>)
        ensures
            match made {
                Ok(file) => first_filename(Some(*yt_dlp_json)) == Some(file.filename@),
                Err(error) => first_filename(Some(*yt_dlp_json)) is None && error@
                    == ErrorView::MetadataParse,
            },
    {
        if yt_dlp_json.requested_downloads.len() == 0 {
            Err(Error::MetadataParse)
        } else {
            Ok(YtDlp { filename: yt_dlp_json.requested_downloads[0].filename.clone() })
        }
    }

    /// Whether the file has to be processed to be of the given kind. A file
    /// without an extension is an error.
    pub fn needs_processing(&self, media_type: MediaType) -> (needed: Result<bool, Error>)
        ensures
            match needed {
                Ok(answer) => extension(self.filename@) is Some && answer == needs_work(
                    self.filename@,
                    media_type,
                ),
                Err(error) => extension(self.filename@) is None && error@
                    == ErrorView::UnexpectedState(StateFault::NoExtension),
            },
    {
        match extension_of(self.filename.as_str()) {
            Some(found) => Ok(!same_text(found, canonical_extension(media_type))),
            None => Err(Error::UnexpectedState(StateFault::NoExtension)),
        }
    }
}

/// Reads what a run of the downloader has come to. `metadata` is what its
/// standard output holds, read as JSON, or `None` where it could not be read
/// so.
pub fn downloaded_file(outcome: &Outcome, metadata: &Option<YtDlpJson>) -> (file: Result<
    YtDlp,
    Error,
>)
    ensures
        match file {
            Ok(file) => downloaded(*outcome, *metadata) == Ok::<Seq<char>, ErrorView>(
                file.filename@,
            ),
            Err(error) => downloaded(*outcome, *metadata) == Err::<Seq<char>, ErrorView>(error@),
        },
{
    match outcome {
        Outcome::NotStarted(reason) => Err(Error::DownloaderExecution(reason.clone())),
        Outcome::Ended(output) => {
            if !output.success() {
                Err(Error::DownloaderExecution(diagnostics(output.stderr.as_slice())))
            } else if is_null_stdout(output.stdout.as_slice()) {
                Err(Error::MetadataParse)
            } else {
                match metadata {
                    Some(json) => YtDlp::new(json),
                    None => Err(Error::MetadataParse),
                }
            }
        },
    }
}

/// The selection arguments, kind by kind.
pub proof fn lemma_selector_args_table()
    ensures
        selector_args(MediaType::Audio) == seq!["-f"@, "bestaudio"@],
        selector_args(MediaType::Video(Resolution::P144)) == seq!["-S"@, "res:144"@],
        selector_args(MediaType::Video(Resolution::P240)) == seq!["-S"@, "res:240"@],
        selector_args(MediaType::Video(Resolution::P480)) == seq!["-S"@, "res:480"@],
        selector_args(MediaType::Video(Resolution::P720)) == seq!["-S"@, "res:720"@],
        selector_args(MediaType::Video(Resolution::P1080)) == seq!["-S"@, "res:1080"@],
        selector_args(MediaType::Video(Resolution::P1440)) == seq!["-S"@, "res:1440"@],
        selector_args(MediaType::Video(Resolution::P2160)) == seq!["-S"@, "res:2160"@],
{
    reveal_strlit("res:");
    reveal_strlit("144");
    reveal_strlit("240");
    reveal_strlit("480");
    reveal_strlit("720");
    reveal_strlit("1080");
    reveal_strlit("1440");
    reveal_strlit("2160");
    reveal_strlit("res:144");
    reveal_strlit("res:240");
    reveal_strlit("res:480");
    reveal_strlit("res:720");
    reveal_strlit("res:1080");
    reveal_strlit("res:1440");
    reveal_strlit("res:2160");
    assert("res:"@ + "144"@ =~= "res:144"@);
    assert("res:"@ + "240"@ =~= "res:240"@);
    assert("res:"@ + "480"@ =~= "res:480"@);
    assert("res:"@ + "720"@ =~= "res:720"@);
    assert("res:"@ + "1080"@ =~= "res:1080"@);
    assert("res:"@ + "1440"@ =~= "res:1440"@);
    assert("res:"@ + "2160"@ =~= "res:2160"@);
}

} // verus!
