use vstd::prelude::*;
use crate::drdk::{regex_is_match, regex_match};
use crate::error::RsgetError;

verus! {

/// The sites a stream URL can be resolved on.
#[derive(Debug, Clone, Copy, PartialEq, Eq, Structural)]
pub enum Site {
    Afreeca,
    Bilibili,
    DLive,
    Drdk,
    Twitch,
    Vlive,
}

/// The sites, in the order their patterns are tried.
pub open spec fn site_order() -> Seq<Site> {
    seq![Site::Afreeca, Site::Bilibili, Site::DLive, Site::Drdk, Site::Twitch, Site::Vlive]
}

/// The pattern of the URLs of a site.
pub open spec fn site_pattern(s: Site) -> Seq<char> {
    match s {
        Site::Afreeca => "^(?:https?://)?(?:www\\.)?(?:play\\.)?afreecatv.com/[a-zA-Z0-9]+/?(?:/[0-9]+)?"@,
        Site::Bilibili => "^(?:https?://)?(?:www\\.)?live\\.bilibili\\.com/([0-9]+)"@,
        Site::DLive => "^(?:https?://)?(?:www\\.)?dlive\\.tv/[a-zA-Z0-9]+\\??.*"@,
        Site::Drdk => "^(?:https?://)?(?:www\\.)?dr\\.dk/drtv/kanal/[a-zA-Z0-9-_]+"@,
        Site::Twitch => "^(?:https?://)?(?:www\\.)?twitch\\.tv/([a-zA-Z0-9_]+)"@,
        Site::Vlive => "^(?:https?://)?(?:www\\.)?vlive\\.tv/video/(\\d+)"@,
    }
}

fn pattern_of(s: Site) -> (r: &'static str)
    ensures
        r@ == site_pattern(s),
{
    match s {
        Site::Afreeca => {
            let p = "^(?:https?://)?(?:www\\.)?(?:play\\.)?afreecatv.com/[a-zA-Z0-9]+/?(?:/[0-9]+)?";
            proof {
                reveal_strlit(
                    "^(?:https?://)?(?:www\\.)?(?:play\\.)?afreecatv.com/[a-zA-Z0-9]+/?(?:/[0-9]+)?",
                );
            }
            p
        },
        Site::Bilibili => {
            let p = "^(?:https?://)?(?:www\\.)?live\\.bilibili\\.com/([0-9]+)";
            proof {
                reveal_strlit("^(?:https?://)?(?:www\\.)?live\\.bilibili\\.com/([0-9]+)");
            }
            p
        },
        Site::DLive => {
            let p = "^(?:https?://)?(?:www\\.)?dlive\\.tv/[a-zA-Z0-9]+\\??.*";
            proof {
                reveal_strlit("^(?:https?://)?(?:www\\.)?dlive\\.tv/[a-zA-Z0-9]+\\??.*");
            }
            p
        },
        Site::Drdk => {
            let p = "^(?:https?://)?(?:www\\.)?dr\\.dk/drtv/kanal/[a-zA-Z0-9-_]+";
            proof {
                reveal_strlit("^(?:https?://)?(?:www\\.)?dr\\.dk/drtv/kanal/[a-zA-Z0-9-_]+");
            }
            p
        },
        Site::Twitch => {
            let p = "^(?:https?://)?(?:www\\.)?twitch\\.tv/([a-zA-Z0-9_]+)";
            proof {
                reveal_strlit("^(?:https?://)?(?:www\\.)?twitch\\.tv/([a-zA-Z0-9_]+)");
            }
            p
        },
        Site::Vlive => {
            let p = "^(?:https?://)?(?:www\\.)?vlive\\.tv/video/(\\d+)";
            proof {
                reveal_strlit("^(?:https?://)?(?:www\\.)?vlive\\.tv/video/(\\d+)");
            }
            p
        },
    }
}

fn site_at(i: usize) -> (r: Site)
    requires
        i < 6,
    ensures
        r == site_order()[i as int],
{
    if i == 0 {
        Site::Afreeca
    } else if i == 1 {
        Site::Bilibili
    } else if i == 2 {
        Site::DLive
    } else if i == 3 {
        Site::Drdk
    } else if i == 4 {
        Site::Twitch
    } else {
        Site::Vlive
    }
}

/// `url` matches the pattern of the `k`-th site.
pub open spec fn matches_site(url: Seq<char>, k: int) -> bool {
    regex_match(site_pattern(site_order()[k]), url) == Some(true)
}

/// Picks the site whose pattern matches `url`, trying them in
/// [`site_order`]; the first match wins.
pub fn get_site(url: &str) -> (r: Result<Site, RsgetError>)
    ensures
        match r {
            Ok(s) => exists|k: int| {
                &&& 0 <= k < 6
                &&& site_order()[k] == s
                &&& matches_site(url@, k)
                &&& forall|j: int| 0 <= j < k ==> !#[trigger] matches_site(url@, j)
            },
            Err(e) => {
                &&& forall|k: int| 0 <= k < 6 ==> !#[trigger] matches_site(url@, k)
                &&& e matches RsgetError::Other(m) && m@ == "Site not supported."@
            },
        },
{
    let mut i: usize = 0;
    while i < 6
        invariant
            i <= 6,
            forall|j: int| 0 <= j < i ==> !#[trigger] matches_site(url@, j),
        decreases 6 - i,
    {
        let s = site_at(i);
        if let Some(true) = regex_is_match(pattern_of(s), url) {
            proof {
                assert(matches_site(url@, i as int));
            }
            return Ok(s);
        }
        i = i + 1;
    }
    proof {
        reveal_strlit("Site not supported.");
    }
    Err(RsgetError::new("Site not supported."))
}

} // verus!
