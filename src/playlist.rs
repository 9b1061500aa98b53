use vstd::prelude::*;
use hls_m3u8::tags::VariantStream;
use vstd::string::*;
use crate::guard::{is_playlist_text_safe, playlist_text_safe};

verus! {

/// How far, in seconds, a segment's declared duration may exceed the
/// playlist's target duration before the playlist is rejected.
pub const ALLOWED_EXCESS_SECS: u64 = 10;

/// What the watcher reads of a parsed media playlist.
#[derive(Debug, Clone)]
pub struct MediaInfo {
    /// `#EXT-X-TARGETDURATION`, in seconds.
    pub target_duration: u64,
    /// The URI of each media segment, in declared order.
    pub segment_uris: Vec<String>,
    /// Whether `#EXT-X-ENDLIST` is present.
    pub has_end_list: bool,
}

/// The mathematical model of a [`MediaInfo`].
pub struct MediaView {
    pub target_duration: u64,
    pub segment_uris: Seq<Seq<char>>,
    pub has_end_list: bool,
}

/// The texts of a vector of strings.
pub open spec fn texts(v: Seq<String>) -> Seq<Seq<char>> {
    v.map_values(|s: String| s@)
}

impl View for MediaInfo {
    type V = MediaView;

    open spec fn view(&self) -> MediaView {
        MediaView {
            target_duration: self.target_duration,
            segment_uris: texts(self.segment_uris@),
            has_end_list: self.has_end_list,
        }
    }
}

/// What the master-playlist watcher reads of a parsed master playlist.
#[derive(Debug, Clone)]
pub struct MasterInfo {
    /// The `NAME` of each `#EXT-X-MEDIA` tag, in declared order.
    pub media_names: Vec<String>,
    /// The URI of each variant stream, in declared order.
    pub variant_uris: Vec<String>,
    /// `associated[i][j]`: whether variant stream `j` refers to the media
    /// group of media tag `i`.
    pub associated: Vec<Vec<bool>>,
}

/// The mathematical model of a [`MasterInfo`].
pub struct MasterView {
    pub media_names: Seq<Seq<char>>,
    pub variant_uris: Seq<Seq<char>>,
    pub associated: Seq<Seq<bool>>,
}

impl View for MasterInfo {
    type V = MasterView;

    open spec fn view(&self) -> MasterView {
        MasterView {
            media_names: texts(self.media_names@),
            variant_uris: texts(self.variant_uris@),
            associated: self.associated@.map_values(|row: Vec<bool>| row@),
        }
    }
}

/// The media playlist that `hls_m3u8` parses from a text, permitting segment
/// durations to exceed the target duration by `excess_secs`; `None` where the
/// text is rejected.
pub uninterp spec fn parsed_media(text: Seq<char>, excess_secs: u64) -> Option<MediaView>;

/// The master playlist that `hls_m3u8` parses from a text; `None` where the
/// text is rejected.
pub uninterp spec fn parsed_master(text: Seq<char>) -> Option<MasterView>;

/// A character with the Unicode `White_Space` property, which is what
/// `char::is_whitespace` tests.
pub open spec fn is_white_space(c: char) -> bool {
    let u = c as u32;
    ||| 0x09 <= u <= 0x0D
    ||| u == 0x20
    ||| u == 0x85
    ||| u == 0xA0
    ||| u == 0x1680
    ||| 0x2000 <= u <= 0x200A
    ||| u == 0x2028
    ||| u == 0x2029
    ||| u == 0x202F
    ||| u == 0x205F
    ||| u == 0x3000
}

/// `s` without its leading white space.
pub open spec fn trim_start(s: Seq<char>) -> Seq<char>
    decreases s.len(),
{
    if s.len() > 0 && is_white_space(s[0]) {
        trim_start(s.drop_first())
    } else {
        s
    }
}

/// `s` without its trailing white space.
pub open spec fn trim_end(s: Seq<char>) -> Seq<char>
    decreases s.len(),
{
    if s.len() > 0 && is_white_space(s.last()) {
        trim_end(s.drop_last())
    } else {
        s
    }
}

/// `s` without leading and trailing white space.
pub open spec fn trimmed(s: Seq<char>) -> Seq<char> {
    trim_end(trim_start(s))
}

/// Relies on `hls_m3u8::MediaPlaylistBuilder::parse`, with
/// `allowable_excess_duration` set: the playlist's target duration, segment
/// URIs and end-list flag, or the parser's message.
///
/// The parser panics on some texts: a segment or date-range duration that
/// `Duration::from_secs_f64` refuses, a target duration that overflows when
/// the excess is added, a media sequence that overflows when segment numbers
/// are added, a byte range whose start and length overflow when added, or a
/// quoted value that is a lone quote. `requires` leaves those texts out.
#[verifier::external_body]
fn parse_media_text(text: &str, excess_secs: u64) -> (r: Result<MediaInfo, String>)
    requires
        playlist_text_safe(text@),
        excess_secs <= 1_000_000_000_000_000_000,
    ensures
        match r {
            Ok(m) => parsed_media(text@, excess_secs) == Some(m@),
            Err(_) => parsed_media(text@, excess_secs) is None,
        },
{
    let mut builder = hls_m3u8::MediaPlaylist::builder();
    builder.allowable_excess_duration(std::time::Duration::from_secs(excess_secs));
    match builder.parse(text) {
        Ok(p) => Ok(MediaInfo {
            target_duration: p.target_duration.as_secs(),
            segment_uris: p.segments.iter().map(|(_, s)| s.uri().to_string()).collect(),
            has_end_list: p.has_end_list,
        }),
        Err(e) => Err(e.to_string()),
    }
}

/// Relies on `hls_m3u8::MasterPlaylist::try_from` and
/// `VariantStream::is_associated`: media names, variant URIs and which
/// variant belongs to which media group, or the parser's message.
///
/// Every line is parsed as a tag before media-only tags are refused, so the
/// texts that make the media-playlist parser panic are left out here too.
#[verifier::external_body]
fn parse_master_text(text: &str) -> (r: Result<MasterInfo, String>)
    requires
        playlist_text_safe(text@),
    ensures
        match r {
            Ok(m) => parsed_master(text@) == Some(m@),
            Err(_) => parsed_master(text@) is None,
        },
{
    match hls_m3u8::MasterPlaylist::try_from(text) {
        Ok(p) => Ok(MasterInfo {
            media_names: p.media.iter().map(|m| m.name().to_string()).collect(),
            variant_uris: p.variant_streams.iter().map(|v| match v {
                VariantStream::ExtXIFrame { uri, .. }
                | VariantStream::ExtXStreamInf { uri, .. } => uri.to_string(),
            }).collect(),
            associated: p.media.iter().map(|m| p.variant_streams.iter().map(|v| v.is_associated(m)).collect()).collect(),
        }),
        Err(e) => Err(e.to_string()),
    }
}

fn white_space_exec(c: char) -> (r: bool)
    ensures
        r == is_white_space(c),
{
    let u = c as u32;
    (0x09 <= u && u <= 0x0D) || u == 0x20 || u == 0x85 || u == 0xA0 || u == 0x1680 || (0x2000
        <= u && u <= 0x200A) || u == 0x2028 || u == 0x2029 || u == 0x202F || u == 0x205F || u
        == 0x3000
}

proof fn lemma_trim_start_skip(s: Seq<char>, a: int)
    requires
        0 <= a <= s.len(),
        forall|k: int| 0 <= k < a ==> is_white_space(s[k]),
    ensures
        trim_start(s) == trim_start(s.subrange(a, s.len() as int)),
    decreases a,
{
    if a > 0 {
        assert(s.drop_first() =~= s.subrange(1, s.len() as int));
        lemma_trim_start_skip(s.drop_first(), a - 1);
        assert(s.drop_first().subrange(a - 1, s.drop_first().len() as int) =~= s.subrange(
            a,
            s.len() as int,
        ));
    } else {
        assert(s.subrange(0, s.len() as int) =~= s);
    }
}

proof fn lemma_trim_end_skip(s: Seq<char>, b: int)
    requires
        0 <= b <= s.len(),
        forall|k: int| b <= k < s.len() ==> is_white_space(s[k]),
    ensures
        trim_end(s) == trim_end(s.subrange(0, b)),
    decreases s.len() - b,
{
    if b < s.len() {
        lemma_trim_end_skip(s.drop_last(), b);
        assert(s.drop_last().subrange(0, b) =~= s.subrange(0, b));
    } else {
        assert(s.subrange(0, b) =~= s);
    }
}

/// `s` without leading and trailing Unicode white space, as `str::trim`.
pub(crate) fn trim_text(s: &str) -> (r: &str)
    ensures
        r@ == trimmed(s@),
{
    let n = s.unicode_len();
    let mut a: usize = 0;
    while a < n && white_space_exec(s.get_char(a))
        invariant
            n == s@.len(),
            a <= n,
            forall|k: int| 0 <= k < a ==> is_white_space(s@[k]),
        decreases n - a,
    {
        a = a + 1;
    }
    proof {
        lemma_trim_start_skip(s@, a as int);
        assert(trim_start(s@.subrange(a as int, n as int)) == s@.subrange(a as int, n as int));
    }
    let mut b: usize = n;
    while b > a && white_space_exec(s.get_char(b - 1))
        invariant
            n == s@.len(),
            a <= b <= n,
            forall|k: int| b <= k < n ==> is_white_space(s@[k]),
        decreases b,
    {
        b = b - 1;
    }
    let ghost u = s@.subrange(a as int, n as int);
    proof {
        assert forall|k: int| (b - a) <= k < u.len() implies is_white_space(u[k]) by {
            assert(u[k] == s@[a + k]);
        }
        lemma_trim_end_skip(u, (b - a) as int);
        let v = u.subrange(0, (b - a) as int);
        assert(v =~= s@.subrange(a as int, b as int));
        if v.len() > 0 {
            assert(v.last() == s@[b - 1]);
        }
    }
    s.substring_char(a, b)
}

/// Parses a media playlist, permitting a segment to last up to
/// [`ALLOWED_EXCESS_SECS`] longer than the target duration. A text that is not
/// [`playlist_text_safe`] is refused without being parsed.
pub fn parse_media_playlist(text: &str) -> (r: Result<MediaInfo, crate::Error>)
    ensures
        match r {
            Ok(m) => playlist_text_safe(text@) && parsed_media(text@, ALLOWED_EXCESS_SECS) == Some(m@),
            Err(e) => e is Parse && (!playlist_text_safe(text@) || parsed_media(
                text@,
                ALLOWED_EXCESS_SECS,
            ) is None),
        },
{
    if !is_playlist_text_safe(text) {
        return Err(crate::Error::Parse(String::from_str("the playlist holds a value out of range")));
    }
    match parse_media_text(text, ALLOWED_EXCESS_SECS) {
        Ok(m) => Ok(m),
        Err(msg) => Err(crate::Error::Parse(msg)),
    }
}

/// Parses a master playlist. A text that is not [`playlist_text_safe`] is
/// refused without being parsed.
pub fn parse_master_playlist(text: &str) -> (r: Result<MasterInfo, crate::Error>)
    ensures
        match r {
            Ok(m) => playlist_text_safe(text@) && parsed_master(text@) == Some(m@),
            Err(e) => e is Parse && (!playlist_text_safe(text@) || parsed_master(text@) is None),
        },
{
    if !is_playlist_text_safe(text) {
        return Err(crate::Error::Parse(String::from_str("the playlist holds a value out of range")));
    }
    match parse_master_text(text) {
        Ok(m) => Ok(m),
        Err(msg) => Err(crate::Error::Parse(msg)),
    }
}

} // verus!
