//! What the user asked for: one download, or a list of them.

use crate::error::{ConfigurationError, Error, ErrorView, StateFault};
use crate::media::{canonical_extension, MediaType};
use crate::path::{extension, extension_of};
use crate::processing::needs_work;
use crate::text::same_text;
use vstd::prelude::*;
use vstd::string::StringExecFns;

verus! {

/// One item to download: where from, as what, and where to. `filepath`
/// names the downloaded file once the downloader has told it; until then it
/// is empty.
#[derive(Clone, Debug, PartialEq, Eq)]
pub struct Download {
    pub url: String,
    pub media_type: MediaType,
    pub filepath: String,
    pub download_dir: String,
}

/// A [`Download`] with its texts as sequences of characters.
pub struct DownloadView {
    pub url: Seq<char>,
    pub media_type: MediaType,
    pub filepath: Seq<char>,
    pub download_dir: Seq<char>,
}

impl View for Download {
    type V = DownloadView;

    open spec fn view(&self) -> DownloadView {
        DownloadView {
            url: self.url@,
            media_type: self.media_type,
            filepath: self.filepath@,
            download_dir: self.download_dir@,
        }
    }
}

impl DownloadView {
    /// Whether this is a request that can be met: whether it has a URL.
    pub open spec fn valid(self) -> bool {
        self.url.len() > 0
    }

    /// A request for `url`, of which the file is not known yet.
    pub open spec fn fresh(
        url: Seq<char>,
        media_type: MediaType,
        download_dir: Seq<char>,
    ) -> DownloadView {
        DownloadView { url, media_type, filepath: Seq::empty(), download_dir }
    }

    /// What asking whether the file needs processing gives: an answer where
    /// the file has an extension, an error where it has none.
    pub open spec fn needs_processing(self) -> Result<bool, ErrorView> {
        if extension(self.filepath) is Some {
            Ok(needs_work(self.filepath, self.media_type))
        } else {
            Err(ErrorView::UnexpectedState(StateFault::NoExtension))
        }
    }
}

impl Download {
    /// A request for `url`. An empty URL is refused.
    pub fn new(url: String, media_type: MediaType, download_dir: String) -> (made: Result<
        Download,
        Error,
    >)
        ensures
            match made {
                Ok(download) => download@.valid() && download@ == DownloadView::fresh(
                    url@,
                    media_type,
                    download_dir@,
                ),
                Err(error) => url@.len() == 0 && error@ == ErrorView::Configuration(
                    ConfigurationError::EmptyUrl,
                ),
            },
    {
        if url.as_str().is_empty() {
            Err(Error::Configuration(ConfigurationError::EmptyUrl))
        } else {
            Ok(Download { url, media_type, filepath: String::new(), download_dir })
        }
    }

    /// Whether the downloaded file has to be processed. A file without an
    /// extension is an error.
    pub fn needs_processing(&self) -> (needed: Result<bool, Error>)
        ensures
            match needed {
                Ok(answer) => self@.needs_processing() == Ok::<bool, ErrorView>(answer),
                Err(error) => self@.needs_processing() == Err::<bool, ErrorView>(error@),
            },
    {
        match extension_of(self.filepath.as_str()) {
            Some(found) => Ok(!same_text(found, canonical_extension(self.media_type))),
            None => Err(Error::UnexpectedState(StateFault::NoExtension)),
        }
    }
}

/// The downloads of one run.
#[derive(Clone, Debug, PartialEq, Eq)]
pub struct Config {
    downloads: Vec<Download>,
}

/// The given downloads, each with its texts as sequences of characters.
pub open spec fn requests(downloads: Seq<Download>) -> Seq<DownloadView> {
    Seq::new(downloads.len(), |i: int| downloads[i]@)
}

impl View for Config {
    type V = Seq<DownloadView>;

    closed spec fn view(&self) -> Seq<DownloadView> {
        requests(self.downloads@)
    }
}

/// The downloads that the user's input asks for: one valid request, where a
/// URL is given and the media type can be read. The URL is looked at first, then the
/// media type selector, and the resolution only where video is selected.
pub open spec fn configured(
    url: Seq<char>,
    selector: Seq<char>,
    resolution: Seq<char>,
    download_dir: Seq<char>,
) -> Result<Seq<DownloadView>, ErrorView> {
    if url.len() == 0 {
        Err(ErrorView::Configuration(ConfigurationError::EmptyUrl))
    } else {
        match MediaType::requested(selector, resolution) {
            Err(field) => Err(ErrorView::Configuration(field)),
            Ok(media_type) => Ok(seq![DownloadView::fresh(url, media_type, download_dir)]),
        }
    }
}

impl Config {
    /// The configuration that holds the given downloads.
    pub fn new(downloads: Vec<Download>) -> (config: Config)
        ensures
            config@ == requests(downloads@),
    {
        Config { downloads }
    }

    /// Reads a configuration of one download from what the user typed.
    pub fn from_input(url: &str, selector: &str, resolution: &str, download_dir: &str) -> (made:
        Result<Config, Error>)
        ensures
            match made {
                Ok(config) => configured(url@, selector@, resolution@, download_dir@) == Ok::<
                    Seq<DownloadView>,
                    ErrorView,
                >(config@),
                Err(error) => configured(url@, selector@, resolution@, download_dir@) == Err::<
                    Seq<DownloadView>,
                    ErrorView,
                >(error@),
            },
    {
        if url.is_empty() {
            return Err(Error::Configuration(ConfigurationError::EmptyUrl));
        }
        match MediaType::from_input(selector, resolution) {
            Err(field) => Err(Error::Configuration(field)),
            Ok(media_type) => {
                let download = Download {
                    url: String::from_str(url),
                    media_type,
                    filepath: String::new(),
                    download_dir: String::from_str(download_dir),
                };
                let mut downloads: Vec<Download> = Vec::new();
                downloads.push(download);
                let config = Config { downloads };
                assert(config@ =~= seq![DownloadView::fresh(url@, media_type, download_dir@)]);
                Ok(config)
            },
        }
    }

    /// The downloads, in the order in which they were asked for.
    pub fn downloads(&self) -> (downloads: &Vec<Download>)
        ensures
            requests(downloads@) == self@,
    {
        &self.downloads
    }

    /// The downloads, in the order in which they were asked for.
    pub fn into_downloads(self) -> (downloads: Vec<Download>)
        ensures
            requests(downloads@) == self@,
    {
        self.downloads
    }
}

/// What the user's input asks for is valid.
pub proof fn lemma_configured_is_valid(
    url: Seq<char>,
    selector: Seq<char>,
    resolution: Seq<char>,
    download_dir: Seq<char>,
)
    ensures
        configured(url, selector, resolution, download_dir) matches Ok(downloads) ==> {
            &&& downloads.len() == 1
            &&& downloads[0].valid()
            &&& downloads[0].url == url
            &&& downloads[0].download_dir == download_dir
            &&& MediaType::requested(selector, resolution) == Ok::<
                MediaType,
                ConfigurationError,
            >(downloads[0].media_type)
        },
{
}

} // verus!
