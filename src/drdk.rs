use vstd::prelude::*;
use vstd::string::*;
use crate::error::RsgetError;
use crate::names::{padded, push_char, push_padded};
use crate::playlist::{trim_text, trimmed};
use crate::status::Status;

verus! {

/// Whether the regular expression `pattern` matches somewhere in `text`;
/// `None` where `pattern` does not compile.
pub uninterp spec fn regex_match(pattern: Seq<char>, text: Seq<char>) -> Option<bool>;

/// The first capture group of the first match of `pattern` in `text`:
/// `None` where `pattern` does not compile, `Some(None)` where nothing
/// matches or the group took no part in the match.
pub uninterp spec fn regex_group1(pattern: Seq<char>, text: Seq<char>) -> Option<Option<Seq<char>>>;

/// Relies on `regex::Regex::new` and `Regex::is_match`.
#[verifier::external_body]
pub(crate) fn regex_is_match(pattern: &str, text: &str) -> (r: Option<bool>)
    ensures
        r == regex_match(pattern@, text@),
{
    regex::Regex::new(pattern).ok().map(|re| re.is_match(text))
}

/// Relies on `regex::Regex::new`, `Regex::captures` and `Captures::get(1)`.
#[verifier::external_body]
fn regex_capture(pattern: &str, text: &str) -> (r: Option<Option<String>>)
    ensures
        match r {
            None => regex_group1(pattern@, text@) is None,
            Some(None) => regex_group1(pattern@, text@) == Some(None::<Seq<char>>),
            Some(Some(g)) => regex_group1(pattern@, text@) == Some(Some(g@)),
        },
{
    regex::Regex::new(pattern).ok().map(
        |re| re.captures(text).and_then(|c| c.get(1)).map(|m| m.as_str().to_string()),
    )
}

/// The addresses of a channel page of dr.dk.
pub open spec fn drdk_url_pattern() -> Seq<char> {
    "^(?:https?://)?(?:www\\.)?dr\\.dk/drtv/kanal/[a-zA-Z0-9-_]+$"@
}

/// Where a dr.dk page holds its state.
pub open spec fn window_data_pattern() -> Seq<char> {
    "<script>window.__data = (.+)</script>"@
}

/// A live channel of dr.dk.
#[derive(Debug, Clone)]
pub struct Drdk {
    hls_url: String,
    title: String,
}

impl Drdk {
    pub closed spec fn hls_url_view(&self) -> Seq<char> {
        self.hls_url@
    }

    pub closed spec fn title_view(&self) -> Seq<char> {
        self.title@
    }

    /// Accepts `url` only where it is the address of a dr.dk channel.
    pub fn check_url(url: &str) -> (r: Result<(), RsgetError>)
        ensures
            r is Ok <==> regex_match(drdk_url_pattern(), url@) == Some(true),
            r matches Err(RsgetError::Other(m)) ==> m@ == "unsupported url"@,
            r is Err ==> r->Err_0 is Other,
    {
        let pattern = "^(?:https?://)?(?:www\\.)?dr\\.dk/drtv/kanal/[a-zA-Z0-9-_]+$";
        proof {
            reveal_strlit("^(?:https?://)?(?:www\\.)?dr\\.dk/drtv/kanal/[a-zA-Z0-9-_]+$");
        }
        match regex_is_match(pattern, url) {
            Some(true) => Ok(()),
            _ => {
                proof {
                    reveal_strlit("unsupported url");
                }
                Err(RsgetError::new("unsupported url"))
            },
        }
    }

    /// The JSON text of the state that a channel page holds.
    pub fn window_data(html: &str) -> (r: Result<String, RsgetError>)
        ensures
            match regex_group1(window_data_pattern(), html@) {
                Some(Some(g)) => r is Ok && r->Ok_0@ == trimmed(g),
                _ => r matches Err(RsgetError::Other(m)) && m@ == "Could not find window data"@,
            },
    {
        let pattern = "<script>window.__data = (.+)</script>";
        proof {
            reveal_strlit("<script>window.__data = (.+)</script>");
        }
        match regex_capture(pattern, html) {
            Some(Some(g)) => Ok(String::from_str(trim_text(g.as_str()))),
            _ => {
                proof {
                    reveal_strlit("Could not find window data");
                }
                Err(RsgetError::new("Could not find window data"))
            },
        }
    }

    /// A channel with its playlist URL and title.
    pub fn from_parts(hls_url: String, title: String) -> (r: Drdk)
        ensures
            r.hls_url_view() == hls_url@,
            r.title_view() == title@,
    {
        Drdk { hls_url, title }
    }

    /// The URL of the channel's master playlist.
    pub fn hls_url(&self) -> (r: String)
        ensures
            r@ == self.hls_url_view(),
    {
        self.hls_url.clone()
    }

    pub fn get_title(&self) -> (r: String)
        ensures
            r@ == self.title_view(),
    {
        self.title.clone()
    }

    pub fn get_author(&self) -> (r: String)
        ensures
            r@ == "DR.DK"@,
    {
        proof {
            reveal_strlit("DR.DK");
        }
        String::from_str("DR.DK")
    }

    /// A channel's status cannot be told from its page.
    pub fn is_online(&self) -> (r: Status)
        ensures
            r == Status::Unknown,
    {
        Status::Unknown
    }

    pub fn get_ext(&self) -> (r: String)
        ensures
            r@ == "ts"@,
    {
        proof {
            reveal_strlit("ts");
        }
        String::from_str("ts")
    }

    /// The default file name of a recording started at the given local
    /// time: `DRTV-YYYY-MM-DD-HH-MM-<title>.ts`.
    pub fn get_default_name(&self, year: u32, month: u32, day: u32, hour: u32, minute: u32) -> (r: String)
        ensures
            r@ == "DRTV-"@ + padded(year as nat, 4) + seq!['-'] + padded(month as nat, 2) + seq!['-']
                + padded(day as nat, 2) + seq!['-'] + padded(hour as nat, 2) + seq!['-'] + padded(
                minute as nat,
                2,
            ) + seq!['-'] + self.title_view() + seq!['.'] + "ts"@,
    {
        proof {
            reveal_strlit("DRTV-");
        }
        let mut s = String::from_str("DRTV-");
        push_padded(&mut s, year as u64, 4);
        push_char(&mut s, '-');
        push_padded(&mut s, month as u64, 2);
        push_char(&mut s, '-');
        push_padded(&mut s, day as u64, 2);
        push_char(&mut s, '-');
        push_padded(&mut s, hour as u64, 2);
        push_char(&mut s, '-');
        push_padded(&mut s, minute as u64, 2);
        push_char(&mut s, '-');
        s.append(self.title.as_str());
        push_char(&mut s, '.');
        let ext = self.get_ext();
        s.append(ext.as_str());
        s
    }
}

} // verus!
