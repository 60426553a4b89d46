use yabw::error::ConfigurationError;
use yabw::media::{
    canonical_extension, MediaSelector, MediaType, ParseMediaTypeError, ParseResolutionError,
    Resolution,
};

const ALL: [Resolution; 7] = [
    Resolution::P144,
    Resolution::P240,
    Resolution::P480,
    Resolution::P720,
    Resolution::P1080,
    Resolution::P1440,
    Resolution::P2160,
];

#[test]
fn resolution_as_str_is_the_height() {
    assert_eq!(Resolution::P144.as_str(), "144");
    assert_eq!(Resolution::P240.as_str(), "240");
    assert_eq!(Resolution::P480.as_str(), "480");
    assert_eq!(Resolution::P720.as_str(), "720");
    assert_eq!(Resolution::P1080.as_str(), "1080");
    assert_eq!(Resolution::P1440.as_str(), "1440");
    assert_eq!(Resolution::P2160.as_str(), "2160");
}

#[test]
fn resolution_label_ends_in_p() {
    assert_eq!(Resolution::P144.label(), "144p");
    assert_eq!(Resolution::P2160.label(), "2160p");
}

#[test]
fn resolution_parses_bare_and_with_either_suffix() {
    assert_eq!(Resolution::parse("1080"), Ok(Resolution::P1080));
    assert_eq!(Resolution::parse("1080p"), Ok(Resolution::P1080));
    assert_eq!(Resolution::parse("1080P"), Ok(Resolution::P1080));
}

#[test]
fn resolution_parse_reads_back_every_resolution() {
    for resolution in ALL {
        let numeral = resolution.as_str();
        assert_eq!(Resolution::parse(numeral), Ok(resolution));
        assert_eq!(Resolution::parse(&format!("{numeral}p")), Ok(resolution));
        assert_eq!(Resolution::parse(&format!("{numeral}P")), Ok(resolution));
        assert_eq!(Resolution::parse(&resolution.label()), Ok(resolution));
    }
}

#[test]
fn resolution_parse_rejects_what_is_no_height() {
    assert_eq!(Resolution::parse("10ap"), Err(ParseResolutionError));
    assert_eq!(Resolution::parse(""), Err(ParseResolutionError));
    assert_eq!(Resolution::parse("p"), Err(ParseResolutionError));
    assert_eq!(Resolution::parse("1080pp"), Err(ParseResolutionError));
    assert_eq!(Resolution::parse("1080 p"), Err(ParseResolutionError));
    assert_eq!(Resolution::parse(" 1080"), Err(ParseResolutionError));
    assert_eq!(Resolution::parse("01080"), Err(ParseResolutionError));
    assert_eq!(Resolution::parse("360"), Err(ParseResolutionError));
    assert_eq!(Resolution::parse("1081p"), Err(ParseResolutionError));
    assert_eq!(Resolution::parse("١٠٨٠"), Err(ParseResolutionError));
    assert_eq!(Resolution::parse("720é"), Err(ParseResolutionError));
}

#[test]
fn resolution_from_index_follows_the_list() {
    for (index, resolution) in ALL.iter().enumerate() {
        assert_eq!(Resolution::try_from(index), Ok(*resolution));
    }
    assert_eq!(Resolution::try_from(7usize), Err(ParseResolutionError));
    assert_eq!(Resolution::try_from(usize::MAX), Err(ParseResolutionError));
}

#[test]
fn parse_resolution_error_has_a_message() {
    assert_eq!(ParseResolutionError.message(), "failed to parse resolution");
}

#[test]
fn selector_parses_the_four_spellings_of_video() {
    for text in ["v", "V", "video", "Video"] {
        assert_eq!(MediaSelector::parse(text), Ok(MediaSelector::Video));
    }
}

#[test]
fn selector_parses_the_four_spellings_of_audio() {
    for text in ["a", "A", "audio", "Audio"] {
        assert_eq!(MediaSelector::parse(text), Ok(MediaSelector::Audio));
    }
}

#[test]
fn selector_rejects_anything_else() {
    for text in ["", "VIDEO", "AUDIO", "vid", "audio ", " video", "b", "av", "videos", "аudio"] {
        assert_eq!(MediaSelector::parse(text), Err(ParseMediaTypeError));
    }
}

#[test]
fn selector_from_index_is_audio_then_video() {
    assert_eq!(MediaSelector::try_from(0usize), Ok(MediaSelector::Audio));
    assert_eq!(MediaSelector::try_from(1usize), Ok(MediaSelector::Video));
    assert_eq!(MediaSelector::try_from(2usize), Err(ParseMediaTypeError));
}

#[test]
fn parse_media_type_error_has_a_message() {
    assert_eq!(ParseMediaTypeError.message(), "failed to parse media type");
}

#[test]
fn media_type_defaults_to_audio() {
    assert_eq!(MediaType::default(), MediaType::Audio);
}

#[test]
fn media_type_from_input_reads_audio_without_a_resolution() {
    assert_eq!(MediaType::from_input("audio", ""), Ok(MediaType::Audio));
    assert_eq!(MediaType::from_input("A", "not a resolution"), Ok(MediaType::Audio));
}

#[test]
fn media_type_from_input_reads_video_with_its_resolution() {
    assert_eq!(
        MediaType::from_input("video", "720p"),
        Ok(MediaType::Video(Resolution::P720))
    );
    assert_eq!(MediaType::from_input("V", "2160"), Ok(MediaType::Video(Resolution::P2160)));
}

#[test]
fn media_type_from_input_names_what_it_could_not_read() {
    assert_eq!(MediaType::from_input("film", "720p"), Err(ConfigurationError::MediaType));
    assert_eq!(MediaType::from_input("film", "bad"), Err(ConfigurationError::MediaType));
    assert_eq!(MediaType::from_input("video", "bad"), Err(ConfigurationError::Resolution));
    assert_eq!(MediaType::from_input("video", ""), Err(ConfigurationError::Resolution));
}

#[test]
fn canonical_extension_is_mp3_for_audio_and_mp4_for_video() {
    assert_eq!(canonical_extension(MediaType::Audio), "mp3");
    for resolution in ALL {
        assert_eq!(canonical_extension(MediaType::Video(resolution)), "mp4");
    }
}

#[test]
fn media_type_from_selection_gives_audio_no_resolution() {
    assert_eq!(MediaType::from_selection(MediaSelector::Audio, None), Ok(MediaType::Audio));
    assert_eq!(
        MediaType::from_selection(MediaSelector::Audio, Some(Resolution::P720)),
        Ok(MediaType::Audio)
    );
}

#[test]
fn media_type_from_selection_wants_a_resolution_for_video() {
    assert_eq!(
        MediaType::from_selection(MediaSelector::Video, Some(Resolution::P240)),
        Ok(MediaType::Video(Resolution::P240))
    );
    assert_eq!(
        MediaType::from_selection(MediaSelector::Video, None),
        Err(ConfigurationError::Resolution)
    );
}
