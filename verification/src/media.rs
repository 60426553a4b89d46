//! Media kinds and resolutions, and how a user's selection is read.

use crate::error::ConfigurationError;
use crate::text::same_text;
use vstd::prelude::*;
use vstd::string::StrSliceExecFns;
use vstd::string::StringExecFns;

verus! {

/// A supported vertical resolution.
#[derive(Copy, Clone, Debug, PartialEq, Eq, Hash, Structural)]
pub enum Resolution {
    P144,
    P240,
    P480,
    P720,
    P1080,
    P1440,
    P2160,
}

/// The text given for a resolution, or the position picked in a list of
/// resolutions, names none of the supported ones.
#[derive(Copy, Clone, Debug, PartialEq, Eq, Structural)]
pub struct ParseResolutionError;

/// `text` without its last character, where that is `p` or `P`.
pub open spec fn without_p(text: Seq<char>) -> Seq<char> {
    if text.len() > 0 && (text.last() == 'p' || text.last() == 'P') {
        text.drop_last()
    } else {
        text
    }
}

impl Resolution {
    /// The height in pixels, as a decimal numeral.
    pub open spec fn text(self) -> Seq<char> {
        match self {
            Resolution::P144 => "144"@,
            Resolution::P240 => "240"@,
            Resolution::P480 => "480"@,
            Resolution::P720 => "720"@,
            Resolution::P1080 => "1080"@,
            Resolution::P1440 => "1440"@,
            Resolution::P2160 => "2160"@,
        }
    }

    /// The resolution at position `index` of the list in ascending order.
    pub open spec fn at_index(index: usize) -> Option<Resolution> {
        if index == 0 {
            Some(Resolution::P144)
        } else if index == 1 {
            Some(Resolution::P240)
        } else if index == 2 {
            Some(Resolution::P480)
        } else if index == 3 {
            Some(Resolution::P720)
        } else if index == 4 {
            Some(Resolution::P1080)
        } else if index == 5 {
            Some(Resolution::P1440)
        } else if index == 6 {
            Some(Resolution::P2160)
        } else {
            None
        }
    }

    /// The resolution that `text` names: the numeral of a supported height,
    /// which one `p` or `P` may follow.
    pub open spec fn named_by(text: Seq<char>) -> Option<Resolution> {
        let numeral = without_p(text);
        if numeral == Resolution::P144.text() {
            Some(Resolution::P144)
        } else if numeral == Resolution::P240.text() {
            Some(Resolution::P240)
        } else if numeral == Resolution::P480.text() {
            Some(Resolution::P480)
        } else if numeral == Resolution::P720.text() {
            Some(Resolution::P720)
        } else if numeral == Resolution::P1080.text() {
            Some(Resolution::P1080)
        } else if numeral == Resolution::P1440.text() {
            Some(Resolution::P1440)
        } else if numeral == Resolution::P2160.text() {
            Some(Resolution::P2160)
        } else {
            None
        }
    }

    /// The height in pixels, as a decimal numeral.
    pub fn as_str(&self) -> (s: &'static str)
        ensures
            s@ == self.text(),
    {
        match self {
            Resolution::P144 => "144",
            Resolution::P240 => "240",
            Resolution::P480 => "480",
            Resolution::P720 => "720",
            Resolution::P1080 => "1080",
            Resolution::P1440 => "1440",
            Resolution::P2160 => "2160",
        }
    }

    /// The label shown for this resolution: the height followed by `p`.
    pub fn label(&self) -> (label: String)
        ensures
            label@ == self.text().push('p'),
    {
        let mut label = String::from_str(self.as_str());
        label.append("p");
        proof {
            reveal_strlit("p");
        }
        label
    }

    /// Reads a resolution from free-form text.
    pub fn parse(text: &str) -> (parsed: Result<Resolution, ParseResolutionError>)
        ensures
            parsed == match Resolution::named_by(text@) {
                Some(resolution) => Ok::<Resolution, ParseResolutionError>(resolution),
                None => Err(ParseResolutionError),
            },
    {
        let len = text.unicode_len();
        let suffixed = len > 0 && {
            let last = text.get_char(len - 1);
            last == 'p' || last == 'P'
        };
        let numeral = if suffixed {
            text.substring_char(0, len - 1)
        } else {
            text
        };
        if same_text(numeral, Resolution::P144.as_str()) {
            Ok(Resolution::P144)
        } else if same_text(numeral, Resolution::P240.as_str()) {
            Ok(Resolution::P240)
        } else if same_text(numeral, Resolution::P480.as_str()) {
            Ok(Resolution::P480)
        } else if same_text(numeral, Resolution::P720.as_str()) {
            Ok(Resolution::P720)
        } else if same_text(numeral, Resolution::P1080.as_str()) {
            Ok(Resolution::P1080)
        } else if same_text(numeral, Resolution::P1440.as_str()) {
            Ok(Resolution::P1440)
        } else if same_text(numeral, Resolution::P2160.as_str()) {
            Ok(Resolution::P2160)
        } else {
            Err(ParseResolutionError)
        }
    }
}

impl TryFrom<usize> for Resolution {
    type Error = ParseResolutionError;

    /// The resolution picked by its position in the list in ascending order.
    fn try_from(value: usize) -> (picked: Result<Self, Self::Error>) {
        match value {
            0 => Ok(Resolution::P144),
            1 => Ok(Resolution::P240),
            2 => Ok(Resolution::P480),
            3 => Ok(Resolution::P720),
            4 => Ok(Resolution::P1080),
            5 => Ok(Resolution::P1440),
            6 => Ok(Resolution::P2160),
            _ => Err(ParseResolutionError),
        }
    }
}

impl vstd::std_specs::convert::TryFromSpecImpl<usize> for Resolution {
    open spec fn obeys_try_from_spec() -> bool {
        true
    }

    open spec fn try_from_spec(value: usize) -> Result<Self, Self::Error> {
        match Resolution::at_index(value) {
            Some(resolution) => Ok(resolution),
            None => Err(ParseResolutionError),
        }
    }
}

impl ParseResolutionError {
    pub fn message(&self) -> (message: String)
        ensures
            message@ == "failed to parse resolution"@,
    {
        String::from_str("failed to parse resolution")
    }
}

/// What a user picks before any resolution is asked for.
#[derive(Copy, Clone, Debug, PartialEq, Eq, Hash, Structural)]
pub enum MediaSelector {
    Audio,
    Video,
}

/// The text given for a media type, or the position picked in the list of
/// media types, names neither audio nor video.
#[derive(Copy, Clone, Debug, PartialEq, Eq, Structural)]
pub struct ParseMediaTypeError;

impl MediaSelector {
    /// Whether `text` is one of the four spellings of audio.
    pub open spec fn spells_audio(text: Seq<char>) -> bool {
        text == "a"@ || text == "A"@ || text == "audio"@ || text == "Audio"@
    }

    /// Whether `text` is one of the four spellings of video.
    pub open spec fn spells_video(text: Seq<char>) -> bool {
        text == "v"@ || text == "V"@ || text == "video"@ || text == "Video"@
    }

    /// The selection that `text` spells.
    pub open spec fn named_by(text: Seq<char>) -> Option<MediaSelector> {
        if Self::spells_audio(text) {
            Some(MediaSelector::Audio)
        } else if Self::spells_video(text) {
            Some(MediaSelector::Video)
        } else {
            None
        }
    }

    /// The selection at position `index` of the list: audio, then video.
    pub open spec fn at_index(index: usize) -> Option<MediaSelector> {
        if index == 0 {
            Some(MediaSelector::Audio)
        } else if index == 1 {
            Some(MediaSelector::Video)
        } else {
            None
        }
    }

    /// Reads a selection from free-form text.
    pub fn parse(text: &str) -> (parsed: Result<MediaSelector, ParseMediaTypeError>)
        ensures
            parsed == match MediaSelector::named_by(text@) {
                Some(selector) => Ok::<MediaSelector, ParseMediaTypeError>(selector),
                None => Err(ParseMediaTypeError),
            },
    {
        if same_text(text, "a") || same_text(text, "A") || same_text(text, "audio") || same_text(
            text,
            "Audio",
        ) {
            Ok(MediaSelector::Audio)
        } else if same_text(text, "v") || same_text(text, "V") || same_text(text, "video")
            || same_text(text, "Video") {
            Ok(MediaSelector::Video)
        } else {
            Err(ParseMediaTypeError)
        }
    }
}

impl TryFrom<usize> for MediaSelector {
    type Error = ParseMediaTypeError;

    /// The selection picked by its position in the list: audio, then video.
    fn try_from(value: usize) -> (picked: Result<Self, Self::Error>) {
        match value {
            0 => Ok(MediaSelector::Audio),
            1 => Ok(MediaSelector::Video),
            _ => Err(ParseMediaTypeError),
        }
    }
}

impl vstd::std_specs::convert::TryFromSpecImpl<usize> for MediaSelector {
    open spec fn obeys_try_from_spec() -> bool {
        true
    }

    open spec fn try_from_spec(value: usize) -> Result<Self, Self::Error> {
        match MediaSelector::at_index(value) {
            Some(selector) => Ok(selector),
            None => Err(ParseMediaTypeError),
        }
    }
}

impl ParseMediaTypeError {
    pub fn message(&self) -> (message: String)
        ensures
            message@ == "failed to parse media type"@,
    {
        String::from_str("failed to parse media type")
    }
}

/// What is wanted of a source: its sound alone, or its picture at a
/// resolution together with its sound.
#[derive(Copy, Clone, Debug, PartialEq, Eq, Hash, Structural)]
pub enum MediaType {
    Audio,
    Video(Resolution),
}

impl Default for MediaType {
    fn default() -> (kind: MediaType)
        ensures
            kind == MediaType::Audio,
    {
        MediaType::Audio
    }
}

impl MediaType {
    /// The extension of a file that needs no further processing.
    pub open spec fn extension(self) -> Seq<char> {
        match self {
            MediaType::Audio => "mp3"@,
            MediaType::Video(_) => "mp4"@,
        }
    }

    /// The media type that a selection and a resolution make. Audio has no
    /// resolution, so none is looked at; video has to have one.
    pub open spec fn selected(selector: MediaSelector, resolution: Option<Resolution>) -> Result<
        MediaType,
        ConfigurationError,
    > {
        match selector {
            MediaSelector::Audio => Ok(MediaType::Audio),
            MediaSelector::Video => match resolution {
                Some(resolution) => Ok(MediaType::Video(resolution)),
                None => Err(ConfigurationError::Resolution),
            },
        }
    }

    /// The media type that a selector and a resolution, both as typed by
    /// the user, ask for. The resolution is read only where video is
    /// selected.
    pub open spec fn requested(selector: Seq<char>, resolution: Seq<char>) -> Result<
        MediaType,
        ConfigurationError,
    > {
        match MediaSelector::named_by(selector) {
            None => Err(ConfigurationError::MediaType),
            Some(selector) => MediaType::selected(selector, Resolution::named_by(resolution)),
        }
    }

    /// The media type that a selection and a resolution make.
    pub fn from_selection(selector: MediaSelector, resolution: Option<Resolution>) -> (kind: Result<
        MediaType,
        ConfigurationError,
    >)
        ensures
            kind == MediaType::selected(selector, resolution),
    {
        match selector {
            MediaSelector::Audio => Ok(MediaType::Audio),
            MediaSelector::Video => match resolution {
                Some(resolution) => Ok(MediaType::Video(resolution)),
                None => Err(ConfigurationError::Resolution),
            },
        }
    }

    /// Reads a media type from a selector and a resolution as typed.
    pub fn from_input(selector: &str, resolution: &str) -> (kind: Result<
        MediaType,
        ConfigurationError,
    >)
        ensures
            kind == MediaType::requested(selector@, resolution@),
    {
        match MediaSelector::parse(selector) {
            Err(_) => Err(ConfigurationError::MediaType),
            Ok(MediaSelector::Audio) => Ok(MediaType::Audio),
            Ok(MediaSelector::Video) => match Resolution::parse(resolution) {
                Err(_) => Err(ConfigurationError::Resolution),
                Ok(resolution) => Ok(MediaType::Video(resolution)),
            },
        }
    }
}

/// The extension that a finished file of the given kind carries.
pub fn canonical_extension(kind: MediaType) -> (extension: &'static str)
    ensures
        extension@ == kind.extension(),
        extension@ == "mp3"@ <==> kind is Audio,
        extension@ == "mp4"@ <==> kind is Video,
{
    proof {
        lemma_extensions_differ();
    }
    match kind {
        MediaType::Audio => "mp3",
        MediaType::Video(_) => "mp4",
    }
}

/// The two canonical extensions, character by character; they differ.
pub proof fn lemma_extensions_differ()
    ensures
        "mp3"@ != "mp4"@,
        "mp3"@ == seq!['m', 'p', '3'],
        "mp4"@ == seq!['m', 'p', '4'],
{
    reveal_strlit("mp3");
    reveal_strlit("mp4");
    assert("mp3"@[2] != "mp4"@[2]);
}

/// The numerals of the supported heights, spelled out.
pub proof fn lemma_resolution_texts()
    ensures
        Resolution::P144.text() == seq!['1', '4', '4'],
        Resolution::P240.text() == seq!['2', '4', '0'],
        Resolution::P480.text() == seq!['4', '8', '0'],
        Resolution::P720.text() == seq!['7', '2', '0'],
        Resolution::P1080.text() == seq!['1', '0', '8', '0'],
        Resolution::P1440.text() == seq!['1', '4', '4', '0'],
        Resolution::P2160.text() == seq!['2', '1', '6', '0'],
{
    reveal_strlit("144");
    reveal_strlit("240");
    reveal_strlit("480");
    reveal_strlit("720");
    reveal_strlit("1080");
    reveal_strlit("1440");
    reveal_strlit("2160");
}

/// No two resolutions share a numeral.
pub proof fn lemma_resolution_texts_differ(a: Resolution, b: Resolution)
    ensures
        a.text() == b.text() <==> a == b,
{
    lemma_resolution_texts();
    if a != b && a.text() == b.text() {
        // Numerals of one length differ in their first or second digit.
        assert(a.text().len() == b.text().len());
        assert(a.text()[0] == b.text()[0]);
        assert(a.text()[1] == b.text()[1]);
    }
}

/// A text names a resolution exactly when, a trailing `p` or `P` set aside,
/// it is that resolution's numeral.
pub proof fn lemma_named_by_numeral(text: Seq<char>, resolution: Resolution)
    ensures
        Resolution::named_by(text) == Some(resolution) <==> without_p(text) == resolution.text(),
{
    lemma_resolution_texts_differ(resolution, Resolution::P144);
    lemma_resolution_texts_differ(resolution, Resolution::P240);
    lemma_resolution_texts_differ(resolution, Resolution::P480);
    lemma_resolution_texts_differ(resolution, Resolution::P720);
    lemma_resolution_texts_differ(resolution, Resolution::P1080);
    lemma_resolution_texts_differ(resolution, Resolution::P1440);
    lemma_resolution_texts_differ(resolution, Resolution::P2160);
}

/// A resolution is read back from its numeral alone, from its numeral
/// followed by `p`, and from its numeral followed by `P`.
pub proof fn lemma_resolution_read_back(resolution: Resolution)
    ensures
        Resolution::named_by(resolution.text()) == Some(resolution),
        Resolution::named_by(resolution.text().push('p')) == Some(resolution),
        Resolution::named_by(resolution.text().push('P')) == Some(resolution),
{
    lemma_resolution_texts();
    let numeral = resolution.text();
    assert(numeral.push('p').drop_last() == numeral);
    assert(numeral.push('P').drop_last() == numeral);
    lemma_named_by_numeral(numeral, resolution);
    lemma_named_by_numeral(numeral.push('p'), resolution);
    lemma_named_by_numeral(numeral.push('P'), resolution);
}

/// Each of the eight spellings names its selection.
pub proof fn lemma_selector_spellings()
    ensures
        MediaSelector::named_by("a"@) == Some(MediaSelector::Audio),
        MediaSelector::named_by("A"@) == Some(MediaSelector::Audio),
        MediaSelector::named_by("audio"@) == Some(MediaSelector::Audio),
        MediaSelector::named_by("Audio"@) == Some(MediaSelector::Audio),
        MediaSelector::named_by("v"@) == Some(MediaSelector::Video),
        MediaSelector::named_by("V"@) == Some(MediaSelector::Video),
        MediaSelector::named_by("video"@) == Some(MediaSelector::Video),
        MediaSelector::named_by("Video"@) == Some(MediaSelector::Video),
{
    lemma_selectors_apart("v"@);
    lemma_selectors_apart("V"@);
    lemma_selectors_apart("video"@);
    lemma_selectors_apart("Video"@);
}

/// No text spells both audio and video.
pub proof fn lemma_selectors_apart(text: Seq<char>)
    ensures
        !(MediaSelector::spells_audio(text) && MediaSelector::spells_video(text)),
{
    reveal_strlit("a");
    reveal_strlit("A");
    reveal_strlit("audio");
    reveal_strlit("Audio");
    reveal_strlit("v");
    reveal_strlit("V");
    reveal_strlit("video");
    reveal_strlit("Video");
    if MediaSelector::spells_audio(text) && MediaSelector::spells_video(text) {
        // The first character tells them apart.
        assert(text[0] == 'a' || text[0] == 'A');
        assert(text[0] == 'v' || text[0] == 'V');
    }
}

} // verus!
