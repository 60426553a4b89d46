//! The pipeline of one download, as a state machine.
//!
//! The pipeline itself runs no tool and writes no file. It says what has to
//! be done next ([`Pipeline::pending`]), and is told how that ended
//! ([`Pipeline::step`]). Nothing is tried twice: the first failure ends the
//! pipeline.

use crate::download::{
    downloaded, downloaded_file, downloader_command, downloader_invocation, downloader_log,
    downloader_log_of, YtDlpJson, DOWNLOADER_LOG,
};
use crate::error::{Error, ErrorView, StateFault};
use crate::path::{extension, lemma_last_dot, lemma_name_start};
use crate::processing::{
    lemma_processed_needs_no_work, needs_work, output_file_name, output_name, transcoded,
    transcoder_command, transcoder_invocation, transcoder_log, transcoder_log_of,
    transcoder_result, TRANSCODER_LOG,
};
use crate::request::{Download, DownloadView};
use crate::tool::{Invocation, InvocationView, LogEntry, LogEntryView, Outcome};
use vstd::prelude::*;

verus! {

/// Where a pipeline stands.
#[derive(Debug, PartialEq, Eq)]
pub enum Stage {
    /// The request is there; nothing has been downloaded.
    Configured,
    /// The downloader has written a file.
    Downloaded,
    /// It is known whether the file has to be processed.
    Evaluated { needs_processing: bool },
    /// The transcoder has written the file anew.
    Processed,
    /// The file needed no processing.
    Skipped,
    /// The file is where and what it was asked to be.
    Done,
    /// The pipeline has failed.
    Errored(Error),
}

/// A [`Stage`] with its texts as sequences of characters.
pub enum StageView {
    Configured,
    Downloaded,
    Evaluated { needs_processing: bool },
    Processed,
    Skipped,
    Done,
    Errored(ErrorView),
}

impl StageView {
    /// Whether a pipeline at this stage can be at `next` after one step.
    /// The stages come in one order, from the request to the finished file,
    /// and every one that is not the end can fail. The end stays.
    pub open spec fn leads_to(self, next: StageView) -> bool {
        match self {
            StageView::Configured => next is Downloaded || next is Errored,
            StageView::Downloaded => next is Evaluated || next is Errored,
            StageView::Evaluated { needs_processing: true } => next is Processed
                || next is Errored,
            StageView::Evaluated { needs_processing: false } => next is Skipped
                || next is Errored,
            StageView::Processed | StageView::Skipped => next is Done || next is Errored,
            StageView::Done | StageView::Errored(_) => next == self,
        }
    }
}

impl View for Stage {
    type V = StageView;

    open spec fn view(&self) -> StageView {
        match *self {
            Stage::Configured => StageView::Configured,
            Stage::Downloaded => StageView::Downloaded,
            Stage::Evaluated { needs_processing } => StageView::Evaluated { needs_processing },
            Stage::Processed => StageView::Processed,
            Stage::Skipped => StageView::Skipped,
            Stage::Done => StageView::Done,
            Stage::Errored(error) => StageView::Errored(error@),
        }
    }
}

/// What a pipeline is told.
#[derive(Debug, PartialEq, Eq)]
pub enum Event {
    /// How the run of the downloader ended, and the metadata that its
    /// standard output holds, or `None` where that could not be read as
    /// metadata.
    Downloader(Outcome, Option<YtDlpJson>),
    /// How the run of the transcoder ended.
    Transcoder(Outcome),
    /// There was nothing to do.
    Proceed,
}

/// What a pipeline asks for.
#[derive(Debug, PartialEq, Eq)]
pub enum Action {
    /// Run the downloader, and tell how it ended.
    RunDownloader(Invocation),
    /// Run the transcoder, and tell how it ended.
    RunTranscoder(Invocation),
    /// Nothing has to be done outside; proceed.
    Continue,
    /// The pipeline is done: the file is in `directory`, under the name
    /// `file`.
    Report { directory: String, file: String },
    /// The pipeline has failed.
    Fail(Error),
}

/// An [`Action`] with its texts as sequences of characters.
pub enum ActionView {
    RunDownloader(InvocationView),
    RunTranscoder(InvocationView),
    Continue,
    Report { directory: Seq<char>, file: Seq<char> },
    Fail(ErrorView),
}

impl View for Action {
    type V = ActionView;

    open spec fn view(&self) -> ActionView {
        match *self {
            Action::RunDownloader(command) => ActionView::RunDownloader(command@),
            Action::RunTranscoder(command) => ActionView::RunTranscoder(command@),
            Action::Continue => ActionView::Continue,
            Action::Report { directory, file } => ActionView::Report {
                directory: directory@,
                file: file@,
            },
            Action::Fail(error) => ActionView::Fail(error@),
        }
    }
}

/// The pipeline of one download.
#[derive(Debug)]
pub struct Pipeline {
    download: Download,
    stage: Stage,
}

/// A [`Pipeline`] with its texts as sequences of characters.
pub struct PipelineView {
    pub download: DownloadView,
    pub stage: StageView,
}

impl View for Pipeline {
    type V = PipelineView;

    closed spec fn view(&self) -> PipelineView {
        PipelineView { download: self.download@, stage: self.stage@ }
    }
}

impl PipelineView {
    /// The pipeline of a request, before anything has been done.
    pub open spec fn start(download: DownloadView) -> PipelineView {
        PipelineView { download, stage: StageView::Configured }
    }

    /// What holds of the file at each stage. Once it is known whether the
    /// file has to be processed, it has an extension, and what is known of
    /// it is true. From when it has been processed or passed over, it has
    /// the extension of the kind that was asked for.
    pub open spec fn well_formed(self) -> bool {
        match self.stage {
            StageView::Evaluated { needs_processing } => {
                &&& extension(self.download.filepath) is Some
                &&& needs_processing == needs_work(
                    self.download.filepath,
                    self.download.media_type,
                )
            },
            StageView::Processed | StageView::Skipped | StageView::Done => !needs_work(
                self.download.filepath,
                self.download.media_type,
            ),
            _ => true,
        }
    }

    /// Whether the pipeline has ended.
    pub open spec fn finished(self) -> bool {
        self.stage is Done || self.stage is Errored
    }

    /// How many steps the pipeline can take at most before it has ended.
    pub open spec fn steps_left(self) -> nat {
        match self.stage {
            StageView::Configured => 4,
            StageView::Downloaded => 3,
            StageView::Evaluated { .. } => 2,
            StageView::Processed | StageView::Skipped => 1,
            StageView::Done | StageView::Errored(_) => 0,
        }
    }

    /// This pipeline, at another stage.
    pub open spec fn at(self, stage: StageView) -> PipelineView {
        PipelineView { download: self.download, stage }
    }

    /// This pipeline, at another stage and with another file.
    pub open spec fn with_file(self, filepath: Seq<char>, stage: StageView) -> PipelineView {
        PipelineView {
            download: DownloadView {
                url: self.download.url,
                media_type: self.download.media_type,
                filepath,
                download_dir: self.download.download_dir,
            },
            stage,
        }
    }

    /// This pipeline after a failure: failed for that reason, unless it had
    /// ended before.
    pub open spec fn failed(self, error: ErrorView) -> PipelineView {
        if self.finished() {
            self
        } else {
            self.at(StageView::Errored(error))
        }
    }

    /// What this pipeline asks for.
    pub open spec fn pending(self) -> ActionView {
        match self.stage {
            StageView::Configured => ActionView::RunDownloader(
                downloader_invocation(self.download),
            ),
            StageView::Evaluated { needs_processing: true } => ActionView::RunTranscoder(
                transcoder_invocation(self.download),
            ),
            StageView::Downloaded
            | StageView::Evaluated { needs_processing: false }
            | StageView::Processed
            | StageView::Skipped => ActionView::Continue,
            StageView::Done => ActionView::Report {
                directory: self.download.download_dir,
                file: self.download.filepath,
            },
            StageView::Errored(error) => ActionView::Fail(error),
        }
    }

    /// What is to be written to a log before this pipeline is told `event`:
    /// all that the tool it asked for has written, however the tool ended.
    /// There is nothing to write where no tool has run, or another than the
    /// pipeline asked for.
    pub open spec fn log_for(self, event: Event) -> Option<LogEntryView> {
        match (self.stage, event) {
            (StageView::Configured, Event::Downloader(Outcome::Ended(output), _)) => Some(
                LogEntryView { file: DOWNLOADER_LOG@, contents: downloader_log_of(output) },
            ),
            (
                StageView::Evaluated { needs_processing: true },
                Event::Transcoder(Outcome::Ended(output)),
            ) => Some(
                LogEntryView { file: TRANSCODER_LOG@, contents: transcoder_log_of(output) },
            ),
            _ => None,
        }
    }

    /// This pipeline after it has been told `event`.
    ///
    /// A pipeline that has ended stays as it is. Any other takes the one
    /// step that its stage allows, and fails where it is told something
    /// that it did not ask for.
    pub open spec fn after(self, event: Event) -> PipelineView {
        let unexpected = ErrorView::UnexpectedState(StateFault::UnexpectedEvent);
        match self.stage {
            StageView::Configured => match event {
                Event::Downloader(outcome, metadata) => match downloaded(outcome, metadata) {
                    Ok(filename) => self.with_file(filename, StageView::Downloaded),
                    Err(error) => self.failed(error),
                },
                _ => self.failed(unexpected),
            },
            StageView::Downloaded => match event {
                Event::Proceed => match self.download.needs_processing() {
                    Ok(needs_processing) => self.at(StageView::Evaluated { needs_processing }),
                    Err(error) => self.failed(error),
                },
                _ => self.failed(unexpected),
            },
            StageView::Evaluated { needs_processing: true } => match event {
                Event::Transcoder(outcome) => match transcoded(outcome) {
                    Ok(_) => self.with_file(
                        output_name(self.download.filepath, self.download.media_type),
                        StageView::Processed,
                    ),
                    Err(error) => self.failed(error),
                },
                _ => self.failed(unexpected),
            },
            StageView::Evaluated { needs_processing: false } => match event {
                Event::Proceed => self.at(StageView::Skipped),
                _ => self.failed(unexpected),
            },
            StageView::Processed | StageView::Skipped => match event {
                Event::Proceed => self.at(StageView::Done),
                _ => self.failed(unexpected),
            },
            StageView::Done | StageView::Errored(_) => self,
        }
    }
}

impl Pipeline {
    #[verifier::type_invariant]
    spec fn type_invariant(self) -> bool {
        self@.well_formed()
    }

    /// The pipeline of `download`, before anything has been done.
    pub fn new(download: Download) -> (pipeline: Pipeline)
        ensures
            pipeline@ == PipelineView::start(download@),
            pipeline@.well_formed(),
    {
        Pipeline { download, stage: Stage::Configured }
    }

    /// Where the pipeline stands.
    pub fn stage(&self) -> (stage: &Stage)
        ensures
            stage@ == self@.stage,
    {
        &self.stage
    }

    /// The download, with the file as far as it is known.
    pub fn download(&self) -> (download: &Download)
        ensures
            download@ == self@.download,
    {
        &self.download
    }

    /// Whether the pipeline has ended.
    pub fn is_finished(&self) -> (finished: bool)
        ensures
            finished == self@.finished(),
    {
        match &self.stage {
            Stage::Done => true,
            Stage::Errored(_) => true,
            _ => false,
        }
    }

    /// What the pipeline asks for.
    pub fn pending(&self) -> (action: Action)
        ensures
            action@ == self@.pending(),
            self@.well_formed(),
    {
        proof {
            use_type_invariant(self);
        }
        match &self.stage {
            Stage::Configured => Action::RunDownloader(downloader_command(&self.download)),
            Stage::Evaluated { needs_processing } => {
                if *needs_processing {
                    Action::RunTranscoder(transcoder_command(&self.download))
                } else {
                    Action::Continue
                }
            },
            Stage::Downloaded => Action::Continue,
            Stage::Processed => Action::Continue,
            Stage::Skipped => Action::Continue,
            Stage::Done => Action::Report {
                directory: self.download.download_dir.clone(),
                file: self.download.filepath.clone(),
            },
            Stage::Errored(error) => Action::Fail(error.clone()),
        }
    }

    /// What is to be written to a log before the pipeline is told `event`.
    pub fn log_entry(&self, event: &Event) -> (entry: Option<LogEntry>)
        ensures
            match entry {
                Some(entry) => self@.log_for(*event) == Some(entry@),
                None => self@.log_for(*event) is None,
            },
    {
        match (&self.stage, event) {
            (Stage::Configured, Event::Downloader(Outcome::Ended(output), _)) => Some(
                downloader_log(output),
            ),
            (Stage::Evaluated { needs_processing }, Event::Transcoder(Outcome::Ended(output))) => {
                if *needs_processing {
                    Some(transcoder_log(output))
                } else {
                    None
                }
            },
            _ => None,
        }
    }

    /// Ends the pipeline with `error`, unless it has ended before.
    pub fn fail(self, error: Error) -> (next: Pipeline)
        ensures
            next@ == self@.failed(error@),
            next@.well_formed(),
    {
        proof {
            use_type_invariant(&self);
        }
        if self.is_finished() {
            self
        } else {
            Pipeline::errored(self.download, error)
        }
    }

    /// The pipeline of `download`, failed with `error`.
    fn errored(download: Download, error: Error) -> (next: Pipeline)
        ensures
            next@ == (PipelineView { download: download@, stage: StageView::Errored(error@) }),
    {
        Pipeline { download, stage: Stage::Errored(error) }
    }

    /// The pipeline of `download`, failed because it was told what it had
    /// not asked for.
    fn unexpected(download: Download) -> (next: Pipeline)
        ensures
            next@ == (PipelineView {
                download: download@,
                stage: StageView::Errored(ErrorView::UnexpectedState(StateFault::UnexpectedEvent)),
            }),
    {
        Pipeline::errored(download, Error::UnexpectedState(StateFault::UnexpectedEvent))
    }

    /// Tells the pipeline `event`.
    pub fn step(self, event: Event) -> (next: Pipeline)
        ensures
            next@ == self@.after(event),
            next@.well_formed(),
    {
        proof {
            use_type_invariant(&self);
            lemma_after_is_well_formed(self@, event);
        }
        let Pipeline { download, stage } = self;
        match stage {
            Stage::Configured => match event {
                Event::Downloader(outcome, metadata) => match downloaded_file(&outcome, &metadata) {
                    Ok(file) => Pipeline {
                        download: Download {
                            url: download.url,
                            media_type: download.media_type,
                            filepath: file.filename,
                            download_dir: download.download_dir,
                        },
                        stage: Stage::Downloaded,
                    },
                    Err(error) => Pipeline::errored(download, error),
                },
                _ => Pipeline::unexpected(download),
            },
            Stage::Downloaded => match event {
                Event::Proceed => match download.needs_processing() {
                    Ok(needs_processing) => Pipeline {
                        download,
                        stage: Stage::Evaluated { needs_processing },
                    },
                    Err(error) => Pipeline::errored(download, error),
                },
                _ => Pipeline::unexpected(download),
            },
            Stage::Evaluated { needs_processing } => if needs_processing {
                match event {
                    Event::Transcoder(outcome) => match transcoder_result(&outcome) {
                        Ok(_) => Pipeline {
                            download: Download {
                                url: download.url,
                                media_type: download.media_type,
                                filepath: output_file_name(
                                    download.filepath.as_str(),
                                    download.media_type,
                                ),
                                download_dir: download.download_dir,
                            },
                            stage: Stage::Processed,
                        },
                        Err(error) => Pipeline::errored(download, error),
                    },
                    _ => Pipeline::unexpected(download),
                }
            } else {
                match event {
                    Event::Proceed => Pipeline { download, stage: Stage::Skipped },
                    _ => Pipeline::unexpected(download),
                }
            },
            Stage::Processed | Stage::Skipped => match event {
                Event::Proceed => Pipeline { download, stage: Stage::Done },
                _ => Pipeline::unexpected(download),
            },
            Stage::Done => Pipeline { download, stage: Stage::Done },
            Stage::Errored(error) => Pipeline { download, stage: Stage::Errored(error) },
        }
    }
}

/// Every step keeps what holds of the file at each stage.
pub proof fn lemma_after_is_well_formed(pipeline: PipelineView, event: Event)
    requires
        pipeline.well_formed(),
    ensures
        pipeline.after(event).well_formed(),
{
    let path = pipeline.download.filepath;
    if pipeline.stage == (StageView::Evaluated { needs_processing: true }) {
        lemma_name_start(path);
        lemma_last_dot(crate::path::file_name(path));
        lemma_processed_needs_no_work(path, pipeline.download.media_type);
    }
}

/// Every step follows the order of the stages.
pub proof fn lemma_steps_in_order(pipeline: PipelineView, event: Event)
    ensures
        pipeline.stage.leads_to(pipeline.after(event).stage),
        forall|error: ErrorView| pipeline.stage.leads_to(#[trigger] pipeline.failed(error).stage),
{
}

/// A pipeline that has ended stays as it is, whatever it is told.
pub proof fn lemma_finished_stays(pipeline: PipelineView, event: Event)
    requires
        pipeline.finished(),
    ensures
        pipeline.after(event) == pipeline,
        forall|error: ErrorView| pipeline.failed(error) == pipeline,
{
}

/// Every step of a pipeline that has not ended brings it closer to its end:
/// nothing is done twice, and after four steps at most it has ended.
pub proof fn lemma_every_step_advances(pipeline: PipelineView, event: Event)
    requires
        !pipeline.finished(),
    ensures
        pipeline.after(event).steps_left() < pipeline.steps_left(),
        pipeline.steps_left() <= 4,
        pipeline.after(event).steps_left() == 0 <==> pipeline.after(event).finished(),
{
}

/// No step changes the request: the URL, the media type and the destination
/// directory stay what they were, and a valid request stays valid.
pub proof fn lemma_request_stays(pipeline: PipelineView, event: Event)
    ensures
        pipeline.after(event).download.url == pipeline.download.url,
        pipeline.after(event).download.media_type == pipeline.download.media_type,
        pipeline.after(event).download.download_dir == pipeline.download.download_dir,
        pipeline.after(event).download.valid() == pipeline.download.valid(),
{
}

/// The transcoder is asked for exactly where the file is known to need
/// processing, and then it does.
pub proof fn lemma_transcoder_where_needed(pipeline: PipelineView)
    requires
        pipeline.well_formed(),
    ensures
        pipeline.pending() is RunTranscoder <==> pipeline.stage == (StageView::Evaluated {
            needs_processing: true,
        }),
        pipeline.pending() is RunTranscoder ==> needs_work(
            pipeline.download.filepath,
            pipeline.download.media_type,
        ),
{
}

/// A pipeline that is done reports a file that has the extension of the
/// kind that was asked for.
pub proof fn lemma_done_file_is_canonical(pipeline: PipelineView)
    requires
        pipeline.well_formed(),
        pipeline.stage is Done,
    ensures
        pipeline.pending() == (ActionView::Report {
            directory: pipeline.download.download_dir,
            file: pipeline.download.filepath,
        }),
        extension(pipeline.download.filepath) == Some(pipeline.download.media_type.extension()),
{
}

/// Whatever a tool that the pipeline asked for has written is logged,
/// however the tool ended; and where the pipeline asked for no tool, nothing
/// is.
pub proof fn lemma_every_run_is_logged(pipeline: PipelineView, event: Event)
    ensures
        pipeline.log_for(event) is Some <==> {
            ||| pipeline.pending() is RunDownloader && event matches Event::Downloader(
                Outcome::Ended(_),
                _,
            )
            ||| pipeline.pending() is RunTranscoder && event matches Event::Transcoder(
                Outcome::Ended(_),
            )
        },
{
}

/// A failure of the downloader ends the pipeline at once, and the
/// transcoder is never asked for.
pub proof fn lemma_failed_download_ends(download: DownloadView, event: Event)
    requires
        event matches Event::Downloader(outcome, metadata) && downloaded(outcome, metadata) is Err,
    ensures
        PipelineView::start(download).after(event).stage is Errored,
        PipelineView::start(download).after(event).pending() is Fail,
{
}

} // verus!
