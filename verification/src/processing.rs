//! Whether a downloaded file has to be processed, what is asked of the
//! transcoder, and how its answer is read.
//!
//! Video is encoded anew, as H.265 with AAC sound; audio as MP3, without
//! any picture.

use crate::download::YtDlp;
use crate::error::{Error, ErrorView};
use crate::media::{canonical_extension, lemma_extensions_differ, MediaType, Resolution};
use crate::path::{
    extension, extension_of, file_name, file_name_of, lemma_file_name_of_file_name,
    lemma_with_extension, lemma_with_extension_without_name, replace_extension, with_extension,
};
use crate::request::{Download, DownloadView};
use crate::text::{push_text, same_text};
use crate::tool::{
    diagnostics, text_of, Invocation, InvocationView, LogEntry, LogEntryView, Outcome, Output,
};
use vstd::prelude::*;
use vstd::string::StringExecFns;

verus! {

/// The name of the transcoder's log file.
pub const TRANSCODER_LOG: &'static str = "ffmpeg.log";

/// Whether a file at `path` has to be processed to be of the given kind:
/// whether its extension is another than the kind's, or missing.
pub open spec fn needs_work(path: Seq<char>, kind: MediaType) -> bool {
    extension(path) != Some(kind.extension())
}

/// The arguments that tell the transcoder how to encode.
pub open spec fn codec_args(kind: MediaType) -> Seq<Seq<char>> {
    match kind {
        MediaType::Audio => seq!["-c:a"@, "libmp3lame"@, "-vn"@],
        MediaType::Video(_) => seq!["-c:v"@, "libx265"@, "-preset"@, "fast"@, "-c:a"@, "aac"@],
    }
}

/// The name of the file that processing `input` writes: the file name of
/// `input`, with the extension of the kind.
pub open spec fn output_name(input: Seq<char>, kind: MediaType) -> Seq<char> {
    file_name(with_extension(input, kind.extension()))
}

/// All arguments of the transcoder: the input, how to encode, that it is to
/// overwrite what is there, and the name of the output.
pub open spec fn transcoder_args(input: Seq<char>, kind: MediaType) -> Seq<Seq<char>> {
    seq!["-i"@, input] + codec_args(kind) + seq!["-y"@, output_name(input, kind)]
}

/// The run of the transcoder that processes the file of a download. It
/// runs in the destination directory, so that is where the output goes.
pub open spec fn transcoder_invocation(download: DownloadView) -> InvocationView {
    InvocationView {
        program: "ffmpeg"@,
        args: transcoder_args(download.filepath, download.media_type),
        working_dir: download.download_dir,
    }
}

/// What goes to the transcoder's log: all it wrote to its standard output,
/// then all it wrote to its standard error.
pub open spec fn transcoder_log_of(output: Output) -> Seq<u8> {
    output.stdout@ + output.stderr@
}

/// What a run of the transcoder has come to. One that did not start, or did
/// not end with status 0, has failed; the error holds its standard error as
/// text.
pub open spec fn transcoded(outcome: Outcome) -> Result<(), ErrorView> {
    match outcome {
        Outcome::NotStarted(reason) => Err(ErrorView::TranscoderExecution(reason@)),
        Outcome::Ended(output) => if output.succeeded() {
            Ok(())
        } else {
            Err(ErrorView::TranscoderExecution(text_of(output.stderr@)))
        },
    }
}

/// Whether a file at `path` has to be processed to be of the given kind.
pub fn needs_processing(path: &str, kind: MediaType) -> (needed: bool)
    ensures
        needed == needs_work(path@, kind),
        !needed <==> extension(path@) == Some(kind.extension()),
{
    match extension_of(path) {
        Some(found) => !same_text(found, canonical_extension(kind)),
        None => true,
    }
}

/// The name of the file that processing `input` writes.
pub fn output_file_name(input: &str, kind: MediaType) -> (name: String)
    ensures
        name@ == output_name(input@, kind),
{
    let renamed = replace_extension(input, canonical_extension(kind));
    String::from_str(file_name_of(renamed.as_str()))
}

/// The transcoder's arguments that make an MP3 file of `ytdlp`.
pub fn process_audio(ytdlp: &YtDlp) -> (args: Vec<String>)
    ensures
        args.deep_view() == transcoder_args(ytdlp.filename@, MediaType::Audio),
{
    let mut args: Vec<String> = Vec::new();
    push_text(&mut args, "-i");
    push_text(&mut args, ytdlp.filename.as_str());
    push_text(&mut args, "-c:a");
    push_text(&mut args, "libmp3lame");
    push_text(&mut args, "-vn");
    push_text(&mut args, "-y");
    let output = output_file_name(ytdlp.filename.as_str(), MediaType::Audio);
    push_text(&mut args, output.as_str());
    args
}

/// The transcoder's arguments that make an MP4 file of `ytdlp`.
pub fn process_video(ytdlp: &YtDlp) -> (args: Vec<String>)
    ensures
        forall|resolution: Resolution|
            args.deep_view() == #[trigger] transcoder_args(
                ytdlp.filename@,
                MediaType::Video(resolution),
            ),
{
    let mut args: Vec<String> = Vec::new();
    push_text(&mut args, "-i");
    push_text(&mut args, ytdlp.filename.as_str());
    push_text(&mut args, "-c:v");
    push_text(&mut args, "libx265");
    push_text(&mut args, "-preset");
    push_text(&mut args, "fast");
    push_text(&mut args, "-c:a");
    push_text(&mut args, "aac");
    push_text(&mut args, "-y");
    let output = output_file_name(
        ytdlp.filename.as_str(),
        MediaType::Video(Resolution::P144),
    );
    push_text(&mut args, output.as_str());
    args
}

/// The transcoder's arguments that make a file of the given kind of `ytdlp`.
pub fn process_file(ytdlp: &YtDlp, media_type: MediaType) -> (args: Vec<String>)
    ensures
        args.deep_view() == transcoder_args(ytdlp.filename@, media_type),
{
    match media_type {
        MediaType::Audio => process_audio(ytdlp),
        MediaType::Video(resolution) => {
            let args = process_video(ytdlp);
            assert(args.deep_view() == transcoder_args(
                ytdlp.filename@,
                MediaType::Video(resolution),
            ));
            args
        },
    }
}

/// The run of the transcoder that processes the file of `download`.
pub fn transcoder_command(download: &Download) -> (command: Invocation)
    ensures
        command@ == transcoder_invocation(download@),
{
    let file = YtDlp { filename: download.filepath.clone() };
    Invocation {
        program: String::from_str("ffmpeg"),
        args: process_file(&file, download.media_type),
        working_dir: download.download_dir.clone(),
    }
}

/// What to write to the transcoder's log after a run.
pub fn transcoder_log(output: &Output) -> (log: LogEntry)
    ensures
        log@ == (LogEntryView { file: TRANSCODER_LOG@, contents: transcoder_log_of(*output) }),
{
    let mut contents: Vec<u8> = Vec::new();
    contents.extend_from_slice(output.stdout.as_slice());
    contents.extend_from_slice(output.stderr.as_slice());
    assert(contents@ =~= transcoder_log_of(*output));
    LogEntry { file: String::from_str(TRANSCODER_LOG), contents }
}

/// Reads what a run of the transcoder has come to.
pub fn transcoder_result(outcome: &Outcome) -> (result: Result<(), Error>)
    ensures
        match result {
            Ok(_) => transcoded(*outcome) == Ok::<(), ErrorView>(()),
            Err(error) => transcoded(*outcome) == Err::<(), ErrorView>(error@),
        },
{
    match outcome {
        Outcome::NotStarted(reason) => Err(Error::TranscoderExecution(reason.clone())),
        Outcome::Ended(output) => {
            if output.success() {
                Ok(())
            } else {
                Err(Error::TranscoderExecution(diagnostics(output.stderr.as_slice())))
            }
        },
    }
}

/// A file with the extension of a kind needs no processing to be of that
/// kind; every other file does.
pub proof fn lemma_needs_work(path: Seq<char>, kind: MediaType)
    ensures
        !needs_work(path, kind) <==> extension(path) == Some(kind.extension()),
{
}

/// Once a file has been given the extension of a kind, it needs no more
/// processing to be of that kind: neither the path with the extension
/// replaced, nor the name of the file that the transcoder writes.
pub proof fn lemma_processed_needs_no_work(path: Seq<char>, kind: MediaType)
    requires
        file_name(path).len() > 0,
    ensures
        !needs_work(with_extension(path, kind.extension()), kind),
        !needs_work(output_name(path, kind), kind),
{
    lemma_extensions_differ();
    lemma_with_extension(path, kind.extension());
    lemma_file_name_of_file_name(with_extension(path, kind.extension()));
}

/// The transcoder is never asked to write the file that it reads: where a
/// file needs processing, the name of the output is another than its own.
pub proof fn lemma_output_is_another_file(path: Seq<char>, kind: MediaType)
    requires
        needs_work(path, kind),
    ensures
        output_name(path, kind) != file_name(path),
{
    lemma_file_name_of_file_name(path);
    lemma_extensions_differ();
    if file_name(path).len() > 0 {
        lemma_processed_needs_no_work(path, kind);
    } else {
        lemma_with_extension_without_name(path, kind.extension());
    }
}

} // verus!
