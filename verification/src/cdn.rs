//! CDN candidate descriptors and the two chunk-URL resolution strategies:
//! literal placeholder substitution on a candidate's URL template, and the
//! fixed-host scheme for redistributable dependency chunks.

use vstd::prelude::*;
use vstd::string::*;
use crate::strings::{push_char, replace_all, spec_dec, spec_replace, u64_to_dec};
use crate::urls::{append_shard_path, spec_redist_chunk_url, spec_shard_path};

verus! {

/// The named placeholder values a secure-link response supplies for one CDN
/// candidate. `base_url`, `path` and `token` are always present; the rest
/// appear only when the server sent them, and a template is expected to
/// name only placeholders that were sent.
pub struct CdnUrlParams {
    pub base_url: String,
    pub path: String,
    pub token: String,
    pub expires_at: Option<u64>,
    pub dirs: Option<u64>,
    pub ttl: Option<u64>,
    pub source: Option<String>,
    pub gog_token: Option<String>,
    pub l: Option<String>,
}

/// The mathematical value of a `CdnUrlParams`.
pub struct CdnUrlParamsView {
    pub base_url: Seq<char>,
    pub path: Seq<char>,
    pub token: Seq<char>,
    pub expires_at: Option<u64>,
    pub dirs: Option<u64>,
    pub ttl: Option<u64>,
    pub source: Option<Seq<char>>,
    pub gog_token: Option<Seq<char>>,
    pub l: Option<Seq<char>>,
}

impl View for CdnUrlParams {
    type V = CdnUrlParamsView;

    open spec fn view(&self) -> CdnUrlParamsView {
        CdnUrlParamsView {
            base_url: self.base_url@,
            path: self.path@,
            token: self.token@,
            expires_at: self.expires_at,
            dirs: self.dirs,
            ttl: self.ttl,
            source: match self.source {
                Some(ref s) => Some(s@),
                None => None,
            },
            gog_token: match self.gog_token {
                Some(ref s) => Some(s@),
                None => None,
            },
            l: match self.l {
                Some(ref s) => Some(s@),
                None => None,
            },
        }
    }
}

/// One CDN mirror authorized to serve a product's chunks: a URL template,
/// its placeholder values, and a priority (lower is tried first).
pub struct Cdn {
    pub url_format: String,
    pub parameters: CdnUrlParams,
    pub priority: u64,
}

/// The mathematical value of a `Cdn`.
pub struct CdnView {
    pub url_format: Seq<char>,
    pub parameters: CdnUrlParamsView,
    pub priority: u64,
}

impl View for Cdn {
    type V = CdnView;

    open spec fn view(&self) -> CdnView {
        CdnView { url_format: self.url_format@, parameters: self.parameters@, priority: self.priority }
    }
}

/// A secure-link response: the product it authorizes and the CDN candidates
/// allowed to serve its chunks.
pub struct SecureLinksResponse {
    pub product_id: u64,
    pub urls: Vec<Cdn>,
}

/// The candidate's template with every placeholder whose parameter is
/// present substituted by its literal value, in a fixed order.
pub open spec fn spec_substituted(template: Seq<char>, p: CdnUrlParamsView) -> Seq<char> {
    let u = spec_replace(template, "{path}"@, p.path);
    let u = spec_replace(u, "{token}"@, p.token);
    let u = spec_replace(u, "{base_url}"@, p.base_url);
    let u = match p.expires_at {
        Some(v) => spec_replace(u, "{expires_at}"@, spec_dec(v as nat)),
        None => u,
    };
    let u = match p.dirs {
        Some(v) => spec_replace(u, "{dirs}"@, spec_dec(v as nat)),
        None => u,
    };
    let u = match p.ttl {
        Some(v) => spec_replace(u, "{ttl}"@, spec_dec(v as nat)),
        None => u,
    };
    let u = match p.source {
        Some(s) => spec_replace(u, "{source}"@, s),
        None => u,
    };
    let u = match p.gog_token {
        Some(s) => spec_replace(u, "{gog_token}"@, s),
        None => u,
    };
    let u = match p.l {
        Some(s) => spec_replace(u, "{l}"@, s),
        None => u,
    };
    u
}

/// The templated strategy: the substituted template, then `/`, then the
/// sharded chunk path.
pub open spec fn spec_templated_chunk_url(cdn: CdnView, h: Seq<char>) -> Seq<char> {
    spec_substituted(cdn.url_format, cdn.parameters) + seq!['/'] + spec_shard_path(h)
}

/// The URL a candidate serves a chunk at, by the strategy the depot calls
/// for: redistributable depots use the fixed store, all others the
/// candidate's template.
pub open spec fn spec_chunk_url(cdn: CdnView, h: Seq<char>, is_redistributable_depot: bool) -> Seq<
    char,
> {
    if is_redistributable_depot {
        spec_redist_chunk_url(h)
    } else {
        spec_templated_chunk_url(cdn, h)
    }
}

impl Cdn {
    /// The redistributable-store strategy: ignores the template entirely and
    /// addresses the chunk on the fixed dependency mirror.
    pub fn parse_url_redist(&self, chunk_hash: &str) -> (r: String)
        requires
            chunk_hash@.len() >= 4,
        ensures
            r@ == spec_redist_chunk_url(chunk_hash@),
    {
        let mut out = "https://gog-cdn-fastly.gog.com/content-system/v2/dependencies/store/".to_owned();
        append_shard_path(&mut out, chunk_hash);
        out
    }

    /// The templated strategy: substitutes every present parameter into the
    /// candidate's URL template, then appends the sharded chunk path.
    pub fn parse_url(&self, chunk_hash: &str) -> (r: String)
        requires
            chunk_hash@.len() >= 4,
        ensures
            r@ == spec_templated_chunk_url(self@, chunk_hash@),
    {
        let mut url = replace_all(self.url_format.as_str(), "{path}", self.parameters.path.as_str());
        url = replace_all(url.as_str(), "{token}", self.parameters.token.as_str());
        url = replace_all(url.as_str(), "{base_url}", self.parameters.base_url.as_str());
        if let Some(expires_at) = self.parameters.expires_at {
            let d = u64_to_dec(expires_at);
            url = replace_all(url.as_str(), "{expires_at}", d.as_str());
        }
        if let Some(dirs) = self.parameters.dirs {
            let d = u64_to_dec(dirs);
            url = replace_all(url.as_str(), "{dirs}", d.as_str());
        }
        if let Some(ttl) = self.parameters.ttl {
            let d = u64_to_dec(ttl);
            url = replace_all(url.as_str(), "{ttl}", d.as_str());
        }
        if let Some(source) = &self.parameters.source {
            url = replace_all(url.as_str(), "{source}", source.as_str());
        }
        if let Some(gog_token) = &self.parameters.gog_token {
            url = replace_all(url.as_str(), "{gog_token}", gog_token.as_str());
        }
        if let Some(l) = &self.parameters.l {
            url = replace_all(url.as_str(), "{l}", l.as_str());
        }
        proof {
            assert(url@ == spec_substituted(self.url_format@, self.parameters@));
        }
        push_char(&mut url, '/');
        append_shard_path(&mut url, chunk_hash);
        proof {
            assert(url@ =~= spec_templated_chunk_url(self@, chunk_hash@));
        }
        url
    }

    /// Resolves the chunk URL by the strategy the depot's flag selects.
    pub fn resolve_chunk_url(&self, chunk_hash: &str, is_redistributable_depot: bool) -> (r:
        String)
        requires
            chunk_hash@.len() >= 4,
        ensures
            r@ == spec_chunk_url(self@, chunk_hash@, is_redistributable_depot),
    {
        if is_redistributable_depot {
            self.parse_url_redist(chunk_hash)
        } else {
            self.parse_url(chunk_hash)
        }
    }
}

} // verus!
