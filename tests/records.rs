use ytdl_source::{
    collect_records, filter_headers, plan_stream, ExtractionError, Output, TransportKind,
};

fn record(url: &str) -> Output {
    Output {
        artist: None,
        album: None,
        channel: None,
        duration_ms: None,
        filesize: None,
        http_headers: None,
        release_date: None,
        thumbnail: None,
        title: None,
        track: None,
        upload_date: None,
        uploader: None,
        url: url.to_string(),
        webpage_url: None,
        protocol: None,
    }
}

fn s(t: &str) -> Option<String> {
    Some(t.to_string())
}

#[test]
fn artist_falls_back_to_uploader() {
    let mut o = record("u");
    o.uploader = s("Some Channel");
    assert_eq!(o.as_aux_metadata().artist, s("Some Channel"));
}

#[test]
fn explicit_artist_wins_over_uploader() {
    let mut o = record("u");
    o.uploader = s("Some Channel");
    o.artist = s("The Band");
    assert_eq!(o.as_aux_metadata().artist, s("The Band"));
}

#[test]
fn date_falls_back_to_upload_date() {
    let mut o = record("u");
    o.upload_date = s("20200101");
    assert_eq!(o.as_aux_metadata().date, s("20200101"));
    o.release_date = s("19991231");
    assert_eq!(o.as_aux_metadata().date, s("19991231"));
}

#[test]
fn live_record_without_duration() {
    let mut o = record("https://cdn.example/live.m3u8");
    o.title = s("Live now");
    o.channel = s("Chan");
    o.uploader = s("Up");
    o.webpage_url = s("https://www.youtube.com/watch?v=abc");
    o.thumbnail = s("https://i.example/t.jpg");
    o.track = s("Track");
    o.album = s("Album");
    let records = collect_records(vec![Ok(o)], "q").unwrap();
    let m = &records[0].metadata;
    assert_eq!(m.duration_ms, None);
    assert_eq!(m.title, s("Live now"));
    assert_eq!(m.channel, s("Chan"));
    assert_eq!(m.artist, s("Up"));
    assert_eq!(m.source_url, s("https://www.youtube.com/watch?v=abc"));
    assert_eq!(m.thumbnail, s("https://i.example/t.jpg"));
    assert_eq!(m.track, s("Track"));
    assert_eq!(m.album, s("Album"));
    assert_eq!(m.channels, Some(2));
    assert_eq!(m.sample_rate, Some(48000));
}

#[test]
fn duration_is_carried() {
    let mut o = record("u");
    o.duration_ms = Some(212_500);
    assert_eq!(o.as_aux_metadata().duration_ms, Some(212_500));
}

#[test]
fn one_bad_line_fails_the_batch() {
    let r = collect_records(
        vec![Ok(record("a")), Err("expected value at line 1".to_string()), Err("second".to_string())],
        "q",
    );
    assert_eq!(r.unwrap_err(), ExtractionError::DecodeFailed("expected value at line 1".to_string()));
}

#[test]
fn empty_batch_has_no_results() {
    let r = collect_records(Vec::new(), "ytsearch1:asdkfjasdkfj");
    assert_eq!(r.unwrap_err(), ExtractionError::NoResults("ytsearch1:asdkfjasdkfj".to_string()));
}

#[test]
fn batch_keeps_order() {
    let r = collect_records(vec![Ok(record("a")), Ok(record("b")), Ok(record("c"))], "q").unwrap();
    let urls: Vec<&str> = r.iter().map(|x| x.source.url.as_str()).collect();
    assert_eq!(urls, vec!["a", "b", "c"]);
}

#[test]
fn manifest_protocol_gives_manifest_stream() {
    let mut o = record("https://cdn.example/index.m3u8");
    o.protocol = s("m3u8_native");
    o.filesize = Some(1000);
    assert_eq!(o.transport(), TransportKind::SegmentedManifest);
    let plan = plan_stream(&o.into_record().source);
    assert_eq!(plan.transport, TransportKind::SegmentedManifest);
    assert_eq!(plan.url, "https://cdn.example/index.m3u8");
    assert_eq!(plan.content_length, None);
}

#[test]
fn other_protocols_give_direct_stream() {
    for p in [s("https"), s("m3u8"), s("M3U8_NATIVE"), None] {
        let mut o = record("https://cdn.example/a.webm");
        o.protocol = p;
        o.filesize = Some(4096);
        let plan = plan_stream(&o.into_record().source);
        assert_eq!(plan.transport, TransportKind::DirectHttp);
        assert_eq!(plan.content_length, Some(4096));
    }
}

#[test]
fn malformed_headers_are_dropped() {
    let headers = vec![
        ("User-Agent".to_string(), "Mozilla/5.0".to_string()),
        ("bad name".to_string(), "x".to_string()),
        ("Accept".to_string(), "text/html\n".to_string()),
        ("".to_string(), "x".to_string()),
        ("Accept-Language".to_string(), "en-us,en;q=0.5".to_string()),
        ("X-Tab".to_string(), "a\tb".to_string()),
    ];
    let kept = filter_headers(&headers);
    assert_eq!(
        kept,
        vec![
            ("User-Agent".to_string(), "Mozilla/5.0".to_string()),
            ("Accept-Language".to_string(), "en-us,en;q=0.5".to_string()),
            ("X-Tab".to_string(), "a\tb".to_string()),
        ]
    );
}

#[test]
fn plan_sends_only_well_formed_headers() {
    let mut o = record("https://cdn.example/a.webm");
    o.http_headers = Some(vec![
        ("Referer".to_string(), "https://www.youtube.com/".to_string()),
        ("Bad:Name".to_string(), "x".to_string()),
    ]);
    let plan = plan_stream(&o.into_record().source);
    assert_eq!(plan.headers, vec![("Referer".to_string(), "https://www.youtube.com/".to_string())]);
}
