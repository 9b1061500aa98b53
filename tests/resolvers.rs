use stream_lib::drdk::Drdk;
use stream_lib::names::strip_characters;
use stream_lib::tiktok::{video_default_name, LabelTop, PlayAddr, Video};
use stream_lib::sites::{get_site, Site};
use stream_lib::{Error, RsgetError, Status};

#[test]
fn strip_characters_removes_forbidden_file_name_characters() {
    assert_eq!(strip_characters("a<b>c:d\"e/f\\g|h?i*j", "<>:\"/\\|?*\0"), "abcdefghij");
    assert_eq!(strip_characters("", "abc"), "");
    assert_eq!(strip_characters("abc", ""), "abc");
    assert_eq!(strip_characters("päär", "ä"), "pr");
}

#[test]
fn rsget_error_new_and_description() {
    let e = RsgetError::new("Site not supported.");
    assert!(matches!(&e, RsgetError::Other(s) if s == "Site not supported."));
    assert_eq!(e.description(), "Site not supported.");
    assert_eq!(RsgetError::Offline.description(), "Stream offline");
}

#[test]
fn status_decides_whether_to_download() {
    assert!(Status::Online.may_download());
    assert!(Status::Unknown.may_download());
    assert!(!Status::Offline.may_download());
}

#[test]
fn drdk_accepts_only_channel_urls() {
    assert!(Drdk::check_url("https://www.dr.dk/drtv/kanal/dr1_20875").is_ok());
    assert!(Drdk::check_url("dr.dk/drtv/kanal/dr2").is_ok());
    assert!(matches!(Drdk::check_url("https://www.dr.dk/nyheder"), Err(RsgetError::Other(m)) if m == "unsupported url"));
    assert!(Drdk::check_url("https://www.dr.dk/drtv/kanal/dr1/extra").is_err());
}

#[test]
fn drdk_window_data_is_extracted_and_trimmed() {
    let html = "<html><script>window.__data = {\"a\": 1}  </script></html>";
    assert_eq!(Drdk::window_data(html).unwrap(), "{\"a\": 1}");
    assert!(matches!(Drdk::window_data("<html></html>"), Err(RsgetError::Other(m)) if m == "Could not find window data"));
}

#[test]
fn drdk_metadata_and_default_name() {
    let d = Drdk::from_parts("https://dr/master.m3u8".to_string(), "DR1".to_string());
    assert_eq!(d.hls_url(), "https://dr/master.m3u8");
    assert_eq!(d.get_title(), "DR1");
    assert_eq!(d.get_author(), "DR.DK");
    assert_eq!(d.get_ext(), "ts");
    assert!(matches!(d.is_online(), Status::Unknown));
    assert_eq!(d.get_default_name(2024, 3, 7, 9, 5), "DRTV-2024-03-07-09-05-DR1.ts");
    assert_eq!(d.get_default_name(12345, 12, 31, 23, 59), "DRTV-12345-12-31-23-59-DR1.ts");
    assert_eq!(d.get_default_name(7, 0, 0, 0, 0), "DRTV-0007-00-00-00-00-DR1.ts");
}

fn addr(urls: &[&str]) -> PlayAddr {
    PlayAddr {
        url_list: urls.iter().map(|s| s.to_string()).collect(),
        url_key: "k".to_string(),
        uri: "u".to_string(),
    }
}

fn label() -> LabelTop {
    LabelTop { url_list: vec![], uri: String::new() }
}

#[test]
fn tiktok_video_download_url_is_the_first_address() {
    let mut v = Video {
        ratio: "720p".to_string(),
        origin_cover: label(),
        play_addr: addr(&["https://play/1"]),
        cover: label(),
        height: 1280,
        width: 720,
        download_addr: addr(&["https://dl/1", "https://dl/2"]),
        has_watermark: false,
        play_addr_lowbr: addr(&[]),
        dynamic_cover: label(),
    };
    assert_eq!(v.download_url(), Some("https://dl/1".to_string()));
    v.download_addr = addr(&[]);
    assert_eq!(v.download_url(), None);
}

#[test]
fn tiktok_default_name() {
    assert_eq!(video_default_name("abc123", "dance", "someone", "mp4"), "abc123-dance-someone.mp4");
}

#[test]
fn sites_are_recognised_by_their_urls() {
    assert_eq!(get_site("https://www.dr.dk/drtv/kanal/dr1_20875").unwrap(), Site::Drdk);
    assert_eq!(get_site("https://www.twitch.tv/some_user").unwrap(), Site::Twitch);
    assert_eq!(get_site("live.bilibili.com/1234").unwrap(), Site::Bilibili);
    assert_eq!(get_site("https://play.afreecatv.com/bj/123").unwrap(), Site::Afreeca);
    assert_eq!(get_site("https://dlive.tv/someone").unwrap(), Site::DLive);
    assert_eq!(get_site("https://www.vlive.tv/video/12345").unwrap(), Site::Vlive);
    let e = get_site("https://example.com/stream").unwrap_err();
    assert_eq!(e.description(), "Site not supported.");
}

#[test]
fn error_descriptions_name_kind_and_cause() {
    assert_eq!(Error::Http(500).description(), "Http error: 500");
    assert_eq!(Error::Http(7).description(), "Http error: 7");
    assert_eq!(Error::Network("reset".to_string()).description(), "Network error: reset");
    assert_eq!(Error::Parse("bad".to_string()).description(), "Parse error: bad");
    assert_eq!(Error::Io("full".to_string()).description(), "Io error: full");
    assert_eq!(Error::Resolver("x".to_string()).description(), "Resolver error: x");
    assert_eq!(Error::Offline.description(), "Stream offline");
}
