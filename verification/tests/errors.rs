use yabw::error::{ConfigurationError, Error, StateFault};

#[test]
fn configuration_errors_name_the_field() {
    assert_eq!(
        Error::Configuration(ConfigurationError::EmptyUrl).message(),
        "no URL was given"
    );
    assert_eq!(
        Error::Configuration(ConfigurationError::MediaType).message(),
        "failed to parse media type"
    );
    assert_eq!(
        Error::Configuration(ConfigurationError::Resolution).message(),
        "failed to parse resolution"
    );
}

#[test]
fn tool_errors_end_with_what_the_tool_wrote() {
    assert_eq!(
        Error::DownloaderExecution("video unavailable".to_string()).message(),
        "yt-dlp failed to execute, the error message was: \n video unavailable"
    );
    assert_eq!(
        Error::TranscoderExecution("no such codec".to_string()).message(),
        "ffmpeg failed to execute, the error message was: \n no such codec"
    );
}

#[test]
fn metadata_error_points_to_the_log() {
    assert_eq!(
        Error::MetadataParse.message(),
        "Failed to parse JSON output of yt-dlp, check the log file `yt-dlp.log`"
    );
}

#[test]
fn filesystem_error_is_its_own_message() {
    assert_eq!(
        Error::Filesystem("Couldn't open the ffmpeg log file: denied".to_string()).message(),
        "Couldn't open the ffmpeg log file: denied"
    );
}

#[test]
fn state_errors_have_messages() {
    assert_eq!(
        Error::UnexpectedState(StateFault::NoExtension).message(),
        "File downloaded does not have a valid extension"
    );
    assert_eq!(
        Error::UnexpectedState(StateFault::UnexpectedEvent).message(),
        "The pipeline was given an answer it had not asked for"
    );
}

#[test]
fn error_clone_is_equal() {
    let errors = [
        Error::Configuration(ConfigurationError::EmptyUrl),
        Error::DownloaderExecution("a".to_string()),
        Error::MetadataParse,
        Error::Filesystem("b".to_string()),
        Error::TranscoderExecution("c".to_string()),
        Error::UnexpectedState(StateFault::NoExtension),
    ];
    for error in &errors {
        assert_eq!(&error.clone(), error);
    }
}
