use yabw::download::{
    build_selector_args, downloaded_file, downloader_command, downloader_log, is_null_stdout,
    make_base_command, RequestedDownload, YtDlp, YtDlpJson, DOWNLOADER_LOG, NULL_YT_DLP_STDOUT,
};
use yabw::error::{Error, StateFault};
use yabw::media::{MediaType, Resolution};
use yabw::request::Download;
use yabw::tool::{Outcome, Output};

fn request(media_type: MediaType) -> Download {
    Download::new(
        "https://example.org/watch?v=abc".to_string(),
        media_type,
        "/home/me/Downloads".to_string(),
    )
    .unwrap()
}

fn listing(names: &[&str]) -> YtDlpJson {
    YtDlpJson {
        requested_downloads: names
            .iter()
            .map(|name| RequestedDownload { filename: name.to_string() })
            .collect(),
    }
}

fn ended(status: Option<i32>, stdout: &[u8], stderr: &[u8]) -> Outcome {
    Outcome::Ended(Output { status, stdout: stdout.to_vec(), stderr: stderr.to_vec() })
}

#[test]
fn selector_args_for_audio_ask_for_the_best_audio() {
    assert_eq!(build_selector_args(MediaType::Audio), vec!["-f", "bestaudio"]);
}

#[test]
fn selector_args_for_video_sort_by_resolution() {
    let table = [
        (Resolution::P144, "res:144"),
        (Resolution::P240, "res:240"),
        (Resolution::P480, "res:480"),
        (Resolution::P720, "res:720"),
        (Resolution::P1080, "res:1080"),
        (Resolution::P1440, "res:1440"),
        (Resolution::P2160, "res:2160"),
    ];
    for (resolution, quality) in table {
        assert_eq!(build_selector_args(MediaType::Video(resolution)), vec!["-S", quality]);
    }
}

#[test]
fn base_command_adds_no_playlist() {
    assert_eq!(
        make_base_command(&request(MediaType::Audio)),
        vec!["-f", "bestaudio", "--no-playlist"]
    );
    assert_eq!(
        make_base_command(&request(MediaType::Video(Resolution::P480))),
        vec!["-S", "res:480", "--no-playlist"]
    );
}

#[test]
fn downloader_command_for_video() {
    let command = downloader_command(&request(MediaType::Video(Resolution::P1080)));
    assert_eq!(command.program, "yt-dlp");
    assert_eq!(
        command.args,
        vec![
            "-S",
            "res:1080",
            "--no-playlist",
            "-J",
            "--no-simulate",
            "--force-overwrites",
            "https://example.org/watch?v=abc",
        ]
    );
    assert_eq!(command.working_dir, "/home/me/Downloads");
}

#[test]
fn downloader_command_for_audio() {
    let command = downloader_command(&request(MediaType::Audio));
    assert_eq!(command.program, "yt-dlp");
    assert_eq!(
        command.args,
        vec![
            "-f",
            "bestaudio",
            "--no-playlist",
            "-J",
            "--no-simulate",
            "--force-overwrites",
            "https://example.org/watch?v=abc",
        ]
    );
    assert_eq!(command.working_dir, "/home/me/Downloads");
}

#[test]
fn null_stdout_is_null_and_a_line_feed() {
    assert_eq!(&NULL_YT_DLP_STDOUT, b"null\n");
    assert!(is_null_stdout(b"null\n"));
    assert!(!is_null_stdout(b"null"));
    assert!(!is_null_stdout(b"null\n\n"));
    assert!(!is_null_stdout(b"Null\n"));
    assert!(!is_null_stdout(b""));
}

#[test]
fn downloader_log_holds_stdout_then_stderr() {
    let output =
        Output { status: Some(0), stdout: b"{}\n".to_vec(), stderr: b"warning\n".to_vec() };
    let log = downloader_log(&output);
    assert_eq!(log.file, "yt-dlp.log");
    assert_eq!(log.file, DOWNLOADER_LOG);
    assert_eq!(log.contents, b"{}\nwarning\n");
}

#[test]
fn downloader_log_leaves_out_null_stdout() {
    let output =
        Output { status: Some(1), stdout: b"null\n".to_vec(), stderr: b"ERROR: gone\n".to_vec() };
    assert_eq!(downloader_log(&output).contents, b"ERROR: gone\n");
}

#[test]
fn yt_dlp_new_takes_the_first_file() {
    assert_eq!(
        YtDlp::new(&listing(&["first.webm", "second.m4a"])),
        Ok(YtDlp { filename: "first.webm".to_string() })
    );
}

#[test]
fn yt_dlp_new_fails_without_a_file() {
    assert_eq!(YtDlp::new(&listing(&[])), Err(Error::MetadataParse));
    assert_eq!(YtDlp::new(&YtDlpJson::default()), Err(Error::MetadataParse));
}

#[test]
fn yt_dlp_needs_processing_by_extension() {
    let file = |name: &str| YtDlp { filename: name.to_string() };
    let video = MediaType::Video(Resolution::P720);
    assert_eq!(file("clip.webm").needs_processing(video), Ok(true));
    assert_eq!(file("clip.mp4").needs_processing(video), Ok(false));
    assert_eq!(file("clip.mp4").needs_processing(MediaType::Audio), Ok(true));
    assert_eq!(file("clip.mp3").needs_processing(MediaType::Audio), Ok(false));
    assert_eq!(file("clip.MP3").needs_processing(MediaType::Audio), Ok(true));
}

#[test]
fn yt_dlp_needs_processing_fails_without_an_extension() {
    let file = YtDlp { filename: "clip".to_string() };
    assert_eq!(
        file.needs_processing(MediaType::Audio),
        Err(Error::UnexpectedState(StateFault::NoExtension))
    );
}

#[test]
fn downloaded_file_is_the_first_listed() {
    let metadata = Some(listing(&["clip.webm", "clip.m4a"]));
    assert_eq!(
        downloaded_file(&ended(Some(0), b"{}", b""), &metadata),
        Ok(YtDlp { filename: "clip.webm".to_string() })
    );
}

#[test]
fn downloaded_file_fails_where_the_downloader_did_not_start() {
    let metadata = Some(listing(&["clip.webm"]));
    assert_eq!(
        downloaded_file(&Outcome::NotStarted("yt-dlp: not found".to_string()), &metadata),
        Err(Error::DownloaderExecution("yt-dlp: not found".to_string()))
    );
}

#[test]
fn downloaded_file_fails_with_stderr_on_a_bad_status() {
    let metadata = Some(listing(&["clip.webm"]));
    for status in [Some(1), Some(2), Some(-1), None] {
        assert_eq!(
            downloaded_file(&ended(status, b"{}", b"video unavailable"), &metadata),
            Err(Error::DownloaderExecution("video unavailable".to_string()))
        );
    }
}

#[test]
fn downloaded_file_fails_on_null_stdout() {
    let metadata = Some(listing(&["clip.webm"]));
    assert_eq!(
        downloaded_file(&ended(Some(0), b"null\n", b""), &metadata),
        Err(Error::MetadataParse)
    );
}

#[test]
fn downloaded_file_fails_without_metadata() {
    assert_eq!(downloaded_file(&ended(Some(0), b"{", b""), &None), Err(Error::MetadataParse));
}

#[test]
fn downloaded_file_fails_on_an_empty_listing() {
    let metadata = Some(listing(&[]));
    assert_eq!(
        downloaded_file(&ended(Some(0), b"{}", b""), &metadata),
        Err(Error::MetadataParse)
    );
}
