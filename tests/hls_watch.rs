use stream_lib::forward::{FetchAction, Forwarder};
use stream_lib::named_watch::{select_variant, MasterStep, NamedHlsWatch};
use stream_lib::playlist::{parse_master_playlist, parse_media_playlist, MediaInfo};
use stream_lib::urls::{base_url, resolve_segment};
use stream_lib::watch::{HlsQueue, HlsWatch, WatchUpdate, HLS_MAX_RETRIES};
use stream_lib::Error;

fn keep_all(_: &str) -> bool {
    true
}

fn media(target: u64, segments: &[(&str, &str)], end: bool) -> String {
    let mut s = format!("#EXTM3U\n#EXT-X-TARGETDURATION:{}\n", target);
    for (duration, uri) in segments {
        s.push_str(&format!("#EXTINF:{},\n{}\n", duration, uri));
    }
    if end {
        s.push_str("#EXT-X-ENDLIST\n");
    }
    s
}

fn parse(text: &str) -> MediaInfo {
    match parse_media_playlist(text) {
        Ok(m) => m,
        Err(e) => panic!("playlist rejected: {:?}", e),
    }
}

fn queue(update: &WatchUpdate) -> Vec<HlsQueue> {
    let mut q: Vec<HlsQueue> = update.urls.iter().map(|u| HlsQueue::Url(u.clone())).collect();
    if update.stream_over {
        q.push(HlsQueue::StreamOver);
    }
    q
}

#[test]
fn simple_hls_enqueues_three_segments_then_stream_over() {
    let mut w = HlsWatch::new("https://host/live/x.m3u8").unwrap();
    let p = parse(&media(2, &[("2.0", "a.ts"), ("2.0", "b.ts"), ("2.0", "c.ts")], true));
    assert_eq!(p.target_duration, 2);
    let up = w.on_playlist(&p, keep_all);
    assert_eq!(
        up.urls,
        vec![
            "https://host/live/a.ts".to_string(),
            "https://host/live/b.ts".to_string(),
            "https://host/live/c.ts".to_string()
        ]
    );
    assert!(up.stream_over);
    assert!(w.finished());

    let mut f = Forwarder::new();
    let actions: Vec<FetchAction> = queue(&up).into_iter().map(|i| f.on_item(i)).collect();
    assert_eq!(actions.len(), 4);
    assert!(matches!(&actions[0], FetchAction::Fetch(u) if u == "https://host/live/a.ts"));
    assert!(matches!(&actions[1], FetchAction::Fetch(u) if u == "https://host/live/b.ts"));
    assert!(matches!(&actions[2], FetchAction::Fetch(u) if u == "https://host/live/c.ts"));
    assert!(matches!(&actions[3], FetchAction::End));
}

#[test]
fn live_hls_with_gap_fetches_each_segment_once_in_order() {
    let mut w = HlsWatch::new("https://host/live/x.m3u8").unwrap();
    let refreshes = [
        media(2, &[("2.0", "s1.ts"), ("2.0", "s2.ts")], false),
        media(2, &[("2.0", "s2.ts"), ("2.0", "s3.ts")], false),
        media(2, &[("2.0", "s3.ts"), ("2.0", "s4.ts")], false),
        media(2, &[("2.0", "s4.ts"), ("2.0", "s5.ts")], true),
    ];
    let mut all = Vec::new();
    let mut over = Vec::new();
    for text in refreshes.iter() {
        let up = w.on_playlist(&parse(text), keep_all);
        all.extend(up.urls.clone());
        over.push(up.stream_over);
    }
    let expected: Vec<String> =
        (1..=5).map(|k| format!("https://host/live/s{}.ts", k)).collect();
    assert_eq!(all, expected);
    assert_eq!(over, vec![false, false, false, true]);
}

#[test]
fn segment_failure_is_reported_and_download_continues() {
    let mut f = Forwarder::new();
    let a = f.on_item(HlsQueue::Url("https://host/live/a.ts".to_string()));
    assert!(matches!(a, FetchAction::Fetch(_)));
    let b = f.on_item(HlsQueue::Url("https://host/live/b.ts".to_string()));
    assert!(matches!(b, FetchAction::Fetch(_)));
    let event = f.segment_failed(Error::Http(500));
    assert!(matches!(event, stream_lib::Event::Error(Error::Http(500))));
    let c = f.on_item(HlsQueue::Url("https://host/live/c.ts".to_string()));
    assert!(matches!(c, FetchAction::Fetch(u) if u == "https://host/live/c.ts"));
    assert!(matches!(f.on_item(HlsQueue::StreamOver), FetchAction::End));
}

#[test]
fn nothing_follows_end() {
    let mut f = Forwarder::new();
    assert!(matches!(f.on_item(HlsQueue::StreamOver), FetchAction::End));
    assert!(matches!(f.on_item(HlsQueue::Url("https://h/a.ts".to_string())), FetchAction::Stop));
    assert!(matches!(f.on_item(HlsQueue::StreamOver), FetchAction::Stop));
}

const MASTER: &str = "#EXTM3U
#EXT-X-MEDIA:TYPE=VIDEO,GROUP-ID=\"lo\",NAME=\"low\",AUTOSELECT=YES
#EXT-X-MEDIA:TYPE=VIDEO,GROUP-ID=\"hi\",NAME=\"src\",AUTOSELECT=YES
#EXT-X-STREAM-INF:BANDWIDTH=200000,VIDEO=\"lo\"
https://host/low/index.m3u8
#EXT-X-STREAM-INF:BANDWIDTH=900000,VIDEO=\"hi\"
https://host/high/index.m3u8
";

#[test]
fn named_master_follows_the_associated_variant() {
    let master = parse_master_playlist(MASTER).unwrap();
    assert_eq!(select_variant(&master, &Some("src".to_string())), Some(1));
    assert_eq!(select_variant(&master, &None), Some(0));

    let mut w = NamedHlsWatch::new("https://host/master.m3u8", "src".to_string()).unwrap();
    let step = w.on_master(&master);
    assert!(matches!(step, MasterStep::Fetch(u) if u == "https://host/high/index.m3u8"));
    let up = w.watch.on_playlist(&parse(&media(2, &[("2.0", "seg1.ts")], true)), keep_all);
    assert_eq!(up.urls, vec!["https://host/high/seg1.ts".to_string()]);
    assert!(up.stream_over);
}

#[test]
fn named_master_with_absent_name_ends_after_retry_limit() {
    let master = parse_master_playlist(MASTER).unwrap();
    assert_eq!(select_variant(&master, &Some("absent".to_string())), None);
    let mut w = NamedHlsWatch::new("https://host/master.m3u8", "absent".to_string()).unwrap();
    let mut rounds = 0;
    loop {
        rounds += 1;
        match w.on_master(&master) {
            MasterStep::Retry => assert!(rounds <= HLS_MAX_RETRIES),
            MasterStep::Over => break,
            MasterStep::Fetch(u) => panic!("unexpected variant {}", u),
        }
    }
    assert_eq!(rounds, HLS_MAX_RETRIES + 1);
    assert!(w.watch.finished());
}

#[test]
fn first_listed_variant_is_chosen_without_a_name() {
    let master = parse_master_playlist(MASTER).unwrap();
    let mut w = NamedHlsWatch::new_first("https://host/master.m3u8").unwrap();
    assert!(matches!(w.on_master(&master), MasterStep::Fetch(u) if u == "https://host/low/index.m3u8"));
}

#[test]
fn absolute_and_relative_uris() {
    let mut w = HlsWatch::new("https://host/live/x.m3u8").unwrap();
    let p = parse(&media(2, &[("2.0", "https://cdn/a.ts"), ("2.0", "b.ts")], false));
    let up = w.on_playlist(&p, keep_all);
    assert_eq!(
        up.urls,
        vec!["https://cdn/a.ts".to_string(), "https://host/live/b.ts".to_string()]
    );
    assert!(!up.stream_over);
}

#[test]
fn single_segment_with_end_list() {
    let mut w = HlsWatch::new("https://host/live/x.m3u8").unwrap();
    let up = w.on_playlist(&parse(&media(4, &[("4.0", "only.ts")], true)), keep_all);
    assert_eq!(up.urls, vec!["https://host/live/only.ts".to_string()]);
    assert!(up.stream_over);
    let mut f = Forwarder::new();
    let actions: Vec<FetchAction> = queue(&up).into_iter().map(|i| f.on_item(i)).collect();
    assert_eq!(actions.len(), 2);
    assert!(matches!(&actions[0], FetchAction::Fetch(_)));
    assert!(matches!(&actions[1], FetchAction::End));
}

#[test]
fn end_list_stops_polling() {
    let mut w = HlsWatch::new("https://host/live/x.m3u8").unwrap();
    let up = w.on_playlist(&parse(&media(2, &[("2.0", "a.ts")], true)), keep_all);
    assert!(up.stream_over && w.finished());
    let later = w.on_playlist(&parse(&media(2, &[("2.0", "z.ts")], false)), keep_all);
    assert!(later.urls.is_empty());
    assert!(!later.stream_over);
    assert!(!w.record_failure());
}

#[test]
fn excess_duration_of_ten_seconds_is_accepted() {
    assert!(parse_media_playlist(&media(2, &[("12", "a.ts")], true)).is_ok());
}

#[test]
fn excess_duration_of_eleven_seconds_is_rejected() {
    let r = parse_media_playlist(&media(2, &[("13", "a.ts")], true));
    assert!(matches!(r, Err(Error::Parse(_))));
    let mut w = HlsWatch::new("https://host/live/x.m3u8").unwrap();
    assert!(!w.record_failure());
}

#[test]
fn query_is_stripped_from_the_base() {
    assert_eq!(
        base_url("https://host/live/x.m3u8?aid=abc&t=1"),
        Some("https://host/live/".to_string())
    );
    let mut w = HlsWatch::new("https://host/live/x.m3u8?aid=abc").unwrap();
    let up = w.on_playlist(&parse(&media(2, &[("2.0", "b.ts")], false)), keep_all);
    assert_eq!(up.urls, vec!["https://host/live/b.ts".to_string()]);
}

#[test]
fn unresolvable_uri_is_dropped() {
    assert_eq!(resolve_segment("", "b.ts"), None);
    assert_eq!(resolve_segment("https://host/", "b.ts"), Some("https://host/b.ts".to_string()));
    assert!(HlsWatch::new("not a url").is_err());
}

#[test]
fn idle_rounds_end_the_stream() {
    let mut w = HlsWatch::new("https://host/live/x.m3u8").unwrap();
    let p = parse(&media(2, &[("2.0", "a.ts")], false));
    let first = w.on_playlist(&p, keep_all);
    assert_eq!(first.urls.len(), 1);
    assert!(!first.stream_over);
    let mut idle = 0;
    loop {
        idle += 1;
        let up = w.on_playlist(&p, keep_all);
        assert!(up.urls.is_empty());
        if up.stream_over {
            break;
        }
    }
    assert_eq!(idle, HLS_MAX_RETRIES);
    assert!(w.finished());
}

#[test]
fn same_playlist_twice_adds_nothing() {
    let mut w = HlsWatch::new("https://host/live/x.m3u8").unwrap();
    let p = parse(&media(2, &[("2.0", "a.ts"), ("2.0", "b.ts"), ("2.0", "a.ts")], false));
    let first = w.on_playlist(&p, keep_all);
    assert_eq!(first.urls.len(), 2);
    let second = w.on_playlist(&p, keep_all);
    assert!(second.urls.is_empty());
}

#[test]
fn filter_drops_preloading_segments_but_marks_them_seen() {
    let mut w = HlsWatch::new("https://host/live/x.m3u8").unwrap();
    let p = parse(&media(2, &[("2.0", "preloading1.ts"), ("2.0", "a.ts")], false));
    let up = w.on_playlist(&p, |u: &str| !u.contains("preloading"));
    assert_eq!(up.urls, vec!["https://host/live/a.ts".to_string()]);
    let again = w.on_playlist(&p, keep_all);
    assert!(again.urls.is_empty());
}

#[test]
fn uris_are_trimmed() {
    let mut w = HlsWatch::new("https://host/live/x.m3u8").unwrap();
    let p = MediaInfo {
        target_duration: 2,
        segment_uris: vec!["  a.ts ".to_string(), "a.ts".to_string()],
        has_end_list: false,
    };
    let up = w.on_playlist(&p, keep_all);
    assert_eq!(up.urls, vec!["https://host/live/a.ts".to_string()]);
}

#[test]
fn round_trip_keeps_segment_uris() {
    let text = media(2, &[("2.0", "a.ts"), ("2.0", "https://cdn/b.ts"), ("2.0", "c.ts")], true);
    let first = parse(&text);
    let printed = hls_m3u8::MediaPlaylist::try_from(text.as_str()).unwrap().to_string();
    let second = parse(&printed);
    assert_eq!(first.segment_uris, second.segment_uris);
    assert_eq!(first.target_duration, second.target_duration);
    assert_eq!(first.has_end_list, second.has_end_list);
}

#[test]
fn negative_segment_duration_is_refused_without_panic() {
    let text = "#EXTM3U\n#EXT-X-TARGETDURATION:2\n#EXTINF:-1,\na.ts\n";
    assert!(matches!(parse_media_playlist(text), Err(Error::Parse(_))));
    assert!(matches!(parse_master_playlist("#EXTM3U\n#EXTINF:-1,\n"), Err(Error::Parse(_))));
    assert!(matches!(
        parse_media_playlist("#EXTM3U\n#EXT-X-TARGETDURATION:2\n#EXTINF:inf,\na.ts\n"),
        Err(Error::Parse(_))
    ));
}

#[test]
fn huge_target_duration_is_refused_without_panic() {
    let text = "#EXTM3U\n#EXT-X-TARGETDURATION:18446744073709551615\n#EXTINF:2,\na.ts\n";
    assert!(matches!(parse_media_playlist(text), Err(Error::Parse(_))));
}

#[test]
fn bad_date_range_duration_is_refused_without_panic() {
    let text = "#EXTM3U\n#EXT-X-TARGETDURATION:2\n#EXT-X-DATERANGE:ID=\"ad\",START-DATE=\"2020-01-01T00:00:00Z\",DURATION=-1\n#EXTINF:2,\na.ts\n";
    assert!(matches!(parse_media_playlist(text), Err(Error::Parse(_))));
}

#[test]
fn good_date_range_and_carriage_returns_are_accepted() {
    let text = "#EXTM3U\r\n#EXT-X-TARGETDURATION:2\r\n#EXT-X-MEDIA-SEQUENCE:42\r\n#EXT-X-DATERANGE:ID=\"ad\",START-DATE=\"2020-01-01T00:00:00Z\",DURATION=30.5\r\n#EXTINF:2.000,live\r\na.ts\r\n";
    let p = parse(text);
    assert_eq!(p.segment_uris, vec!["a.ts".to_string()]);
}

#[test]
fn lone_quote_value_is_refused_without_panic() {
    let text = "#EXTM3U\n#EXT-X-MEDIA:TYPE=VIDEO,GROUP-ID=\"hi\",NAME=\"\n";
    assert!(matches!(parse_master_playlist(text), Err(Error::Parse(_))));
}

#[test]
fn byte_ranges_are_refused_without_panic() {
    let text = "#EXTM3U\n#EXT-X-TARGETDURATION:2\n#EXTINF:2,\n#EXT-X-BYTERANGE:18446744073709551615@18446744073709551615\na.ts\n";
    assert!(matches!(parse_media_playlist(text), Err(Error::Parse(_))));
}

#[test]
fn byte_range_playlist_is_accepted() {
    let text = "#EXTM3U\n#EXT-X-VERSION:4\n#EXT-X-TARGETDURATION:2\n#EXTINF:2,\n#EXT-X-BYTERANGE:1000@0\nall.ts\n#EXTINF:2,\n#EXT-X-BYTERANGE:1000\nall.ts\n#EXT-X-ENDLIST\n";
    let p = parse(text);
    assert_eq!(p.segment_uris, vec!["all.ts".to_string(), "all.ts".to_string()]);
    assert!(p.has_end_list);
}

#[test]
fn duration_inside_a_uri_is_accepted() {
    let p = parse(&media(2, &[("2.0", "x/DURATION/a.ts"), ("2.0", "y/BYTERANGE=z/b.ts")], false));
    assert_eq!(
        p.segment_uris,
        vec!["x/DURATION/a.ts".to_string(), "y/BYTERANGE=z/b.ts".to_string()]
    );
}

#[test]
fn epoch_media_sequence_is_accepted() {
    let text = "#EXTM3U\n#EXT-X-TARGETDURATION:2\n#EXT-X-MEDIA-SEQUENCE:1700000000\n#EXTINF:2,\na.ts\n";
    assert_eq!(parse(text).segment_uris, vec!["a.ts".to_string()]);
}

#[test]
fn key_format_versions_are_accepted() {
    let text = "#EXTM3U\n#EXT-X-VERSION:5\n#EXT-X-TARGETDURATION:2\n#EXT-X-KEY:METHOD=AES-128,URI=\"https://k/key\",KEYFORMAT=\"identity\",KEYFORMATVERSIONS=\"1/2\"\n#EXTINF:2,\na.ts\n";
    assert_eq!(parse(text).segment_uris, vec!["a.ts".to_string()]);
}

#[test]
fn finished_named_watcher_answers_over() {
    let master = parse_master_playlist(MASTER).unwrap();
    let mut w = NamedHlsWatch::new("https://host/master.m3u8", "src".to_string()).unwrap();
    assert!(matches!(w.on_master(&master), MasterStep::Fetch(_)));
    let up = w.watch.on_playlist(&parse(&media(2, &[("2.0", "seg1.ts")], true)), keep_all);
    assert!(up.stream_over);
    assert!(matches!(w.on_master(&master), MasterStep::Over));
}

#[test]
fn unicode_white_space_is_trimmed_like_str_trim() {
    let mut w = HlsWatch::new("https://host/live/x.m3u8").unwrap();
    let raw = "\u{3000}\u{a0} a.ts\t\u{2028}".to_string();
    assert_eq!(raw.trim(), "a.ts");
    let p = MediaInfo { target_duration: 2, segment_uris: vec![raw, " ".to_string()], has_end_list: false };
    let up = w.on_playlist(&p, keep_all);
    assert_eq!(up.urls, vec!["https://host/live/a.ts".to_string(), "https://host/live/".to_string()]);
}
