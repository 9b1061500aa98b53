use vstd::prelude::*;
use vstd::string::*;
use crate::playlist::{MasterInfo, MasterView, MediaInfo};
use crate::urls::{base_url, joined_dot, opt_view, resolve_segment, resolved_url};
use crate::watch::{after_idle, HlsWatch};
use crate::Error;

verus! {

/// `i` is the first media tag of `m` whose name is `name`.
pub open spec fn is_first_named(m: MasterView, name: Seq<char>, i: int) -> bool {
    &&& 0 <= i < m.media_names.len()
    &&& m.media_names[i] == name
    &&& forall|k: int| 0 <= k < i ==> m.media_names[k] != name
}

/// Variant stream `j` of `m` belongs to the media group of media tag `i`.
pub open spec fn associated(m: MasterView, i: int, j: int) -> bool {
    &&& 0 <= i < m.associated.len()
    &&& 0 <= j < m.associated[i].len()
    &&& m.associated[i][j]
}

/// `j` is the first variant stream of `m` that belongs to media tag `i`.
pub open spec fn is_first_associated(m: MasterView, i: int, j: int) -> bool {
    &&& 0 <= j < m.variant_uris.len()
    &&& associated(m, i, j)
    &&& forall|k: int| 0 <= k < j ==> !associated(m, i, k)
}

/// The variant stream chosen from `m`: with no name the first one listed;
/// with a name the first variant of the first media tag of that name.
pub open spec fn chosen_variant(m: MasterView, name: Option<Seq<char>>, j: int) -> bool {
    match name {
        None => j == 0 && m.variant_uris.len() > 0,
        Some(n) => exists|i: int| is_first_named(m, n, i) && is_first_associated(m, i, j),
    }
}

/// Picks the variant stream to follow: the index of [`chosen_variant`], or
/// `None` where there is none.
pub fn select_variant(master: &MasterInfo, name: &Option<String>) -> (r: Option<usize>)
    ensures
        match r {
            Some(j) => chosen_variant(master@, opt_view(*name), j as int),
            None => forall|j: int| !chosen_variant(master@, opt_view(*name), j),
        },
{
    let ghost m = master@;
    match name {
        None => {
            if master.variant_uris.len() > 0 {
                Some(0)
            } else {
                None
            }
        },
        Some(n) => {
            let mut i: usize = 0;
            while i < master.media_names.len()
                invariant
                    m == master@,
                    opt_view(*name) == Some(n@),
                    i <= master.media_names.len(),
                    forall|k: int| 0 <= k < i ==> m.media_names[k] != n@,
                decreases master.media_names.len() - i,
            {
                if master.media_names[i].eq(n) {
                    proof {
                        assert(is_first_named(m, n@, i as int));
                        assert forall|a: int| #[trigger] is_first_named(m, n@, a) implies a == i by {
                            if a < i {
                                assert(m.media_names[a] != n@);
                            } else if a > i {
                                assert(m.media_names[i as int] != n@);
                            }
                        }
                    }
                    let vn = master.variant_uris.len();
                    let mut j: usize = 0;
                    while j < vn
                        invariant
                            m == master@,
                            opt_view(*name) == Some(n@),
                            i < master.media_names.len(),
                            vn == master.variant_uris.len(),
                            j <= vn,
                            is_first_named(m, n@, i as int),
                            forall|a: int| #[trigger] is_first_named(m, n@, a) ==> a == i,
                            forall|k: int| 0 <= k < j ==> !associated(m, i as int, k),
                        decreases vn - j,
                    {
                        if i < master.associated.len() && j < master.associated[i].len()
                            && master.associated[i][j] {
                            proof {
                                assert(is_first_associated(m, i as int, j as int));
                                assert(opt_view(*name) == Some(n@));
                                assert(is_first_named(m, n@, i as int) && is_first_associated(
                                    m,
                                    i as int,
                                    j as int,
                                ));
                            }
                            return Some(j);
                        }
                        proof {
                            assert(!associated(m, i as int, j as int));
                        }
                        j = j + 1;
                    }
                    proof {
                        assert(opt_view(*name) == Some(n@));
                        assert forall|b: int| !chosen_variant(master@, opt_view(*name), b) by {
                            if chosen_variant(master@, opt_view(*name), b) {
                                let a = choose|a: int|
                                    is_first_named(m, n@, a) && is_first_associated(m, a, b);
                                assert(a == i);
                                assert(!associated(m, i as int, b));
                            }
                        }
                    }
                    return None;
                }
                i = i + 1;
            }
            None
        },
    }
}

/// Only one variant stream is ever chosen.
pub proof fn lemma_chosen_unique(m: MasterView, name: Option<Seq<char>>, a: int, b: int)
    requires
        chosen_variant(m, name, a),
        chosen_variant(m, name, b),
    ensures
        a == b,
{
    if let Some(n) = name {
        let i = choose|i: int| is_first_named(m, n, i) && is_first_associated(m, i, a);
        let k = choose|k: int| is_first_named(m, n, k) && is_first_associated(m, k, b);
        if i < k {
            assert(m.media_names[i] != n);
        } else if k < i {
            assert(m.media_names[k] != n);
        }
        if a < b {
            assert(!associated(m, i, a));
        } else if b < a {
            assert(!associated(m, i, b));
        }
    }
}

/// The URL of the media playlist to follow: the chosen variant's URI
/// resolved against the master playlist's base URL.
pub open spec fn variant_url(base: Seq<char>, m: MasterView, name: Option<Seq<char>>) -> Option<Seq<char>> {
    if exists|j: int| chosen_variant(m, name, j) {
        let j = choose|j: int| chosen_variant(m, name, j);
        resolved_url(base, m.variant_uris[j])
    } else {
        None
    }
}

/// What the master-playlist watcher does after one master playlist.
#[derive(Debug, Clone)]
pub enum MasterStep {
    /// Fetch the media playlist at this URL.
    Fetch(String),
    /// No usable variant: the round failed; try again.
    Retry,
    /// No usable variant, and the retry budget is spent: the stream is over.
    Over,
}

/// A watcher that follows a variant of a master playlist.
///
/// Each round the caller fetches the master playlist and hands it to
/// [`NamedHlsWatch::on_master`]; where a media playlist URL comes back, it
/// fetches that playlist and hands it to the inner watcher. Where none comes
/// back, the round counts as failed.
pub struct NamedHlsWatch {
    /// The decisions on the media playlist of the chosen variant.
    pub watch: HlsWatch,
    /// The base URL of the master playlist.
    pub master_base: String,
    /// The media name the variant is chosen by; `None` for the first variant.
    pub name: Option<String>,
}

impl NamedHlsWatch {
    /// The base URL of the master playlist.
    pub open spec fn master_base(&self) -> Seq<char> {
        self.master_base@
    }

    /// The media name the variant is chosen by, if any.
    pub open spec fn name(&self) -> Option<Seq<char>> {
        opt_view(self.name)
    }

    /// A watcher of the master playlist at `master_url` that follows the
    /// variant of the media group named `name`.
    pub fn new(master_url: &str, name: String) -> (r: Result<NamedHlsWatch, Error>)
        ensures
            match r {
                Ok(w) => {
                    &&& w.watch.wf()
                    &&& joined_dot(master_url@) == Some(w.master_base())
                    &&& w.watch.base() == w.master_base()
                    &&& w.name() == Some(name@)
                    &&& w.watch.seen() == Set::<Seq<char>>::empty()
                    &&& w.watch.fail_count() == 0
                    &&& !w.watch.is_finished()
                },
                Err(e) => joined_dot(master_url@) is None && e is Parse,
            },
    {
        Self::with_name(master_url, Some(name))
    }

    /// A watcher of the master playlist at `master_url` that follows its
    /// first variant stream.
    pub fn new_first(master_url: &str) -> (r: Result<NamedHlsWatch, Error>)
        ensures
            match r {
                Ok(w) => {
                    &&& w.watch.wf()
                    &&& joined_dot(master_url@) == Some(w.master_base())
                    &&& w.watch.base() == w.master_base()
                    &&& w.name() is None
                    &&& w.watch.seen() == Set::<Seq<char>>::empty()
                    &&& w.watch.fail_count() == 0
                    &&& !w.watch.is_finished()
                },
                Err(e) => joined_dot(master_url@) is None && e is Parse,
            },
    {
        Self::with_name(master_url, None)
    }

    fn with_name(master_url: &str, name: Option<String>) -> (r: Result<NamedHlsWatch, Error>)
        ensures
            match r {
                Ok(w) => {
                    &&& w.watch.wf()
                    &&& joined_dot(master_url@) == Some(w.master_base())
                    &&& w.watch.base() == w.master_base()
                    &&& w.name() == opt_view(name)
                    &&& w.watch.seen() == Set::<Seq<char>>::empty()
                    &&& w.watch.fail_count() == 0
                    &&& !w.watch.is_finished()
                },
                Err(e) => joined_dot(master_url@) is None && e is Parse,
            },
    {
        match HlsWatch::new(master_url) {
            Ok(watch) => match base_url(master_url) {
                Some(master_base) => Ok(NamedHlsWatch { watch, master_base, name }),
                None => Err(Error::Parse(String::from_str("the playlist URL has no base"))),
            },
            Err(e) => Err(e),
        }
    }

    /// Takes one fetched master playlist. Once the watcher has finished, the
    /// answer is always `Over`. Otherwise, where a variant is chosen and its
    /// URL resolves, returns that URL to fetch and makes its directory the
    /// base of relative segment URIs. Otherwise the round counts as failed,
    /// and the stream is over once the retry budget is spent.
    pub fn on_master(&mut self, master: &MasterInfo) -> (r: MasterStep)
        requires
            old(self).watch.wf(),
        ensures
            final(self).master_base() == old(self).master_base(),
            final(self).name() == old(self).name(),
            final(self).watch.seen() == old(self).watch.seen(),
            final(self).watch.wf(),
            old(self).watch.is_finished() ==> {
                &&& r is Over
                &&& final(self).watch.base() == old(self).watch.base()
                &&& final(self).watch.fail_count() == old(self).watch.fail_count()
                &&& final(self).watch.is_finished()
            },
            !old(self).watch.is_finished() ==> match variant_url(old(self).master_base(), master@, old(self).name()) {
                Some(u) if joined_dot(u) is Some => {
                    &&& r matches MasterStep::Fetch(v) && v@ == u
                    &&& Some(final(self).watch.base()) == joined_dot(u)
                    &&& final(self).watch.fail_count() == old(self).watch.fail_count()
                    &&& final(self).watch.is_finished() == old(self).watch.is_finished()
                },
                _ => {
                    &&& final(self).watch.base() == old(self).watch.base()
                    &&& (r is Over) == final(self).watch.is_finished()
                    &&& !(r is Fetch)
                    &&& (final(self).watch.fail_count(), final(self).watch.is_finished())
                        == after_idle(old(self).watch.fail_count(), 1)
                },
            },
    {
        if self.watch.finished() {
            return MasterStep::Over;
        }
        match self.pick_variant(master) {
            Some(u) => MasterStep::Fetch(u),
            None => {
                if self.watch.record_failure() {
                    MasterStep::Over
                } else {
                    MasterStep::Retry
                }
            },
        }
    }

    fn pick_variant(&mut self, master: &MasterInfo) -> (r: Option<String>)
        ensures
            final(self).master_base() == old(self).master_base(),
            final(self).name() == old(self).name(),
            final(self).watch.seen() == old(self).watch.seen(),
            final(self).watch.fail_count() == old(self).watch.fail_count(),
            final(self).watch.is_finished() == old(self).watch.is_finished(),
            final(self).watch.wf() == old(self).watch.wf(),
            match variant_url(old(self).master_base(), master@, old(self).name()) {
                Some(u) if joined_dot(u) is Some => {
                    &&& opt_view(r) == Some(u)
                    &&& Some(final(self).watch.base()) == joined_dot(u)
                },
                _ => r is None && final(self).watch.base() == old(self).watch.base(),
            },
    {
        let ghost m = master@;
        let ghost nm = opt_view(self.name);
        match select_variant(master, &self.name) {
            Some(j) => {
                proof {
                    assert forall|b: int| #[trigger] chosen_variant(m, nm, b) implies b == j by {
                        lemma_chosen_unique(m, nm, b, j as int);
                    }
                    assert(m.variant_uris[j as int] == master.variant_uris[j as int]@);
                }
                match resolve_segment(self.master_base.as_str(), master.variant_uris[j].as_str()) {
                    Some(u) => match base_url(u.as_str()) {
                        Some(b) => {
                            self.watch.set_base(b);
                            Some(u)
                        },
                        None => None,
                    },
                    None => None,
                }
            },
            None => None,
        }
    }
}

} // verus!
