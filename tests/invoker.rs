use ytdl_source::front::{command_name, play_request, queue_heading, video_thumbnail, PlayRequest};
use ytdl_source::text::decimal_string;
use ytdl_source::{output_lines, playlist_invocation, split_lines, ExtractionError, RunOutcome};

fn text(lines: &[Vec<u8>]) -> Vec<String> {
    lines.iter().map(|l| String::from_utf8(l.clone()).unwrap()).collect()
}

#[test]
fn split_drops_empty_lines() {
    let out = split_lines(&b"{\"a\":1}\n\n{\"b\":2}\n".to_vec());
    assert_eq!(text(&out), vec!["{\"a\":1}", "{\"b\":2}"]);
}

#[test]
fn split_keeps_last_line_without_newline() {
    let out = split_lines(&b"one\ntwo".to_vec());
    assert_eq!(text(&out), vec!["one", "two"]);
}

#[test]
fn split_of_empty_output_is_empty() {
    assert!(split_lines(&Vec::new()).is_empty());
    assert!(split_lines(&b"\n\n\n".to_vec()).is_empty());
}

#[test]
fn missing_tool_is_reported_with_its_name() {
    let r = output_lines("yt-dlp", RunOutcome::NotFound);
    assert_eq!(r, Err(ExtractionError::ToolMissing("yt-dlp".to_string())));
}

#[test]
fn spawn_failure_is_a_tool_failure() {
    let r = output_lines("yt-dlp", RunOutcome::SpawnFailed("permission denied".to_string()));
    assert_eq!(r, Err(ExtractionError::ToolFailed("permission denied".to_string())));
}

#[test]
fn failed_exit_carries_stderr_verbatim() {
    let r = output_lines(
        "yt-dlp",
        RunOutcome::Exited {
            success: false,
            stdout: Vec::new(),
            stderr: b"no video formats found".to_vec(),
        },
    );
    assert_eq!(r, Err(ExtractionError::ToolFailed("no video formats found".to_string())));
}

#[test]
fn failed_exit_with_undecodable_stderr() {
    let r = output_lines(
        "yt-dlp",
        RunOutcome::Exited { success: false, stdout: Vec::new(), stderr: vec![0xff, 0xfe] },
    );
    assert_eq!(r, Err(ExtractionError::ToolFailed("<no error message>".to_string())));
}

#[test]
fn successful_exit_yields_lines() {
    let r = output_lines(
        "yt-dlp",
        RunOutcome::Exited { success: true, stdout: b"x\ny\n".to_vec(), stderr: b"warning".to_vec() },
    )
    .unwrap();
    assert_eq!(text(&r), vec!["x", "y"]);
}

#[test]
fn decimal_rendering() {
    assert_eq!(decimal_string(0), "0");
    assert_eq!(decimal_string(7), "7");
    assert_eq!(decimal_string(1234), "1234");
    assert_eq!(decimal_string(usize::MAX), usize::MAX.to_string());
}

#[test]
fn playlist_run_arguments() {
    let inv = playlist_invocation("https://www.youtube.com/playlist?list=PL1");
    assert_eq!(inv.program, "yt-dlp");
    assert_eq!(
        inv.args,
        vec![
            "-j",
            "--flat-playlist",
            "https://www.youtube.com/playlist?list=PL1",
            "-f",
            "ba[abr>0][vcodec=none]/best",
        ]
    );
    assert_eq!(inv.target, "https://www.youtube.com/playlist?list=PL1");
}

#[test]
fn error_messages_tell_kinds_apart() {
    assert_eq!(
        ExtractionError::ToolMissing("yt-dlp".to_string()).message(),
        "could not find executable 'yt-dlp' on path"
    );
    assert_eq!(
        ExtractionError::NoResults("ytsearch1:zz".to_string()).message(),
        "no results found for 'ytsearch1:zz'"
    );
    assert_eq!(
        ExtractionError::ToolFailed("boom".to_string()).message(),
        "the extractor failed: boom"
    );
    assert_eq!(
        ExtractionError::DecodeFailed("bad".to_string()).message(),
        "could not decode the extractor's output: bad"
    );
    assert_eq!(
        ExtractionError::Unsupported.message(),
        "streams can only be created asynchronously"
    );
    assert_eq!(
        ExtractionError::TransportFailed("reset".to_string()).message(),
        "could not open the stream: reset"
    );
}

#[test]
fn play_requests_are_classified() {
    assert_eq!(play_request("https://www.youtube.com/watch?v=a&list=PL1"), PlayRequest::Playlist);
    assert_eq!(play_request("https://www.youtube.com/watch?v=a"), PlayRequest::Url);
    assert_eq!(play_request("www.youtube.com/watch?v=a"), PlayRequest::Url);
    assert_eq!(play_request("never gonna give you up"), PlayRequest::Search);
    assert_eq!(play_request("http://example.com"), PlayRequest::Search);
    assert_eq!(play_request(""), PlayRequest::Search);
}

#[test]
fn thumbnail_from_video_page() {
    assert_eq!(
        video_thumbnail("https://www.youtube.com/watch?v=dQw4w9WgXcQ"),
        Some("https://i3.ytimg.com/vi/dQw4w9WgXcQ/hqdefault.jpg".to_string())
    );
    assert_eq!(
        video_thumbnail("https://x/watch?v=a?v=b"),
        Some("https://i3.ytimg.com/vi/a?v=b/hqdefault.jpg".to_string())
    );
    assert_eq!(video_thumbnail("https://soundcloud.com/track"), None);
    assert_eq!(video_thumbnail(""), None);
}

#[test]
fn command_names() {
    assert_eq!(command_name("!play some song", "!"), Some("play".to_string()));
    assert_eq!(command_name("!queue", "!"), Some("queue".to_string()));
    assert_eq!(command_name("hello !play", "!"), None);
    assert_eq!(command_name("!", "!"), Some(String::new()));
    assert_eq!(command_name("hal> skip now", "hal> "), Some("skip".to_string()));
}

#[test]
fn queue_headings() {
    assert_eq!(queue_heading(0), "Now Playing");
    assert_eq!(queue_heading(1), "#1 in Queue");
    assert_eq!(queue_heading(12), "#12 in Queue");
}
