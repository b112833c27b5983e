//! Image handling: resolving a stored catalog path to the remote URL of
//! its representative image, and the supervisor that lets only the most
//! recently requested image update shared state.

use vstd::prelude::*;
use vstd::string::*;

use crate::manifest::Manifest;
use crate::paths::relative_path;
use crate::paths::relative_to_known_prefix;
use crate::text::rfind_char;
use crate::text::str_eq;

verus! {

/// The fixed base under which the served images live.
pub fn image_base_url() -> (url: &'static str)
    ensures
        url@ == "http://www.davidfaure.fr/kvideomanager/Films/"@,
{
    "http://www.davidfaure.fr/kvideomanager/Films/"
}

/// The remote URL of the representative image for a stored path: the first
/// known absolute prefix is stripped, the remainder's parent directory is
/// looked up in the manifest, and the filename found there completes the
/// URL.  When any step fails — no stored path, no known prefix, no parent
/// directory, or a directory the manifest does not map — the URL is empty
/// and no fetch is to be attempted.
pub open spec fn image_url_spec(
    maybe_path: Option<Seq<char>>,
    m: Map<Seq<char>, Seq<char>>,
) -> Seq<char> {
    match maybe_path {
        None => Seq::empty(),
        Some(path) => match relative_to_known_prefix(path) {
            None => Seq::empty(),
            Some(rel) => match rel.index_of_last('/') {
                None => Seq::empty(),
                Some(i) => {
                    let dir = rel.subrange(0, i);
                    if m.dom().contains(dir) {
                        "http://www.davidfaure.fr/kvideomanager/Films/"@ + dir + seq!['/']
                            + m[dir]
                    } else {
                        Seq::empty()
                    }
                },
            },
        },
    }
}

/// Resolves a stored catalog path to the remote image URL, or to the empty
/// string when any resolution step fails.
pub fn image_url(maybe_image_path: Option<String>, hash: &Manifest) -> (url: String)
    ensures
        url@ == image_url_spec(maybe_image_path.deep_view(), hash@),
{
    let path = match &maybe_image_path {
        Some(p) => p,
        None => {
            return String::new();
        },
    };
    let rel = match relative_path(path.as_str()) {
        Some(r) => r,
        None => {
            return String::new();
        },
    };
    proof {
        rel@.index_of_last_ensures('/');
    }
    let pos = match rfind_char(rel, '/') {
        Some(p) => p,
        None => {
            return String::new();
        },
    };
    let dir = rel.substring_char(0, pos);
    let file = match hash.lookup(dir) {
        Some(f) => f,
        None => {
            return String::new();
        },
    };
    proof {
        reveal_strlit("/");
        assert("/"@ =~= seq!['/']);
    }
    let mut url = String::from_str(image_base_url());
    url.append(dir);
    url.append("/");
    url.append(file.as_str());
    proof {
        assert(url@ =~= image_url_spec(maybe_image_path.deep_view(), hash@));
    }
    url
}

/// The token after a request: that request's URL is the one live request.
pub open spec fn requested(token: Option<Seq<char>>, url: Seq<char>) -> Option<Seq<char>> {
    Some(url)
}

/// Whether a finished download for `url` may update shared state: only
/// while its URL is still the live token.
pub open spec fn may_apply(token: Option<Seq<char>>, url: Seq<char>) -> bool {
    token == Some(url)
}

/// The token after a completion for `url` arrives: applying a download
/// consumes the token; a stale completion leaves it alone.
pub open spec fn after_completion(token: Option<Seq<char>>, url: Seq<char>) -> Option<Seq<char>> {
    if may_apply(token, url) {
        None
    } else {
        token
    }
}

/// The image-download supervisor: holds the URL of the most recently
/// requested image, and lets a completed download through only while its
/// URL still equals that token.
pub struct ImageSupervisor {
    pending: Option<String>,
}

impl ImageSupervisor {
    /// The URL of the live request, if any.
    pub closed spec fn pending_url(self) -> Option<Seq<char>> {
        match self.pending {
            Some(url) => Some(url@),
            None => None,
        }
    }

    /// A supervisor with no request outstanding.
    pub fn new() -> (s: ImageSupervisor)
        ensures
            s.pending_url() is None,
    {
        ImageSupervisor { pending: None }
    }

    /// Notes `url` as the one live request; any earlier request is
    /// superseded and its completion will be discarded.
    pub fn request_image(&mut self, url: String)
        ensures
            final(self).pending_url() == requested(old(self).pending_url(), url@),
    {
        self.pending = Some(url);
    }

    /// Decides whether a finished download for `url` may be applied: yes
    /// exactly when it is still the live request, and applying it consumes
    /// the token.
    pub fn accept_completion(&mut self, url: &str) -> (apply: bool)
        ensures
            apply == may_apply(old(self).pending_url(), url@),
            final(self).pending_url() == after_completion(old(self).pending_url(), url@),
    {
        let still_live = match &self.pending {
            Some(p) => str_eq(p.as_str(), url),
            None => false,
        };
        if still_live {
            self.pending = None;
        }
        still_live
    }

    /// Cancels image downloads: clears the token, so any still-in-flight
    /// completion is discarded whatever its URL.
    pub fn cancel_image_downloads(&mut self)
        ensures
            final(self).pending_url() is None,
    {
        self.pending = None;
    }
}

/// Last request wins: with requests for A then B both outstanding, A's
/// completion is discarded and leaves the token alone; only B's completion
/// may update shared state.
pub proof fn lemma_last_request_wins(token: Option<Seq<char>>, a: Seq<char>, b: Seq<char>)
    requires
        a != b,
    ensures
        ({
            let t = requested(requested(token, a), b);
            &&& !may_apply(t, a)
            &&& after_completion(t, a) == t
            &&& may_apply(t, b)
        }),
{
}

/// A cleared token discards every completion.
pub proof fn lemma_cancel_discards_all(url: Seq<char>)
    ensures
        !may_apply(None, url),
        after_completion(None, url) == None::<Seq<char>>,
{
}

} // verus!
