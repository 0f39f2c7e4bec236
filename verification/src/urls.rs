//! Construction of every endpoint URL the client requests: the
//! content-system build and secure-link endpoints, the catalog and
//! user-data endpoints, and the two content-addressed chunk schemes
//! (metadata and the redistributable dependency store), which shard a hash
//! into `hash[0..2] / hash[2..4] / hash`.

use vstd::prelude::*;
use vstd::string::*;
use crate::strings::{push_char, spec_dec, u64_to_dec};

verus! {

/// The content-addressed sharding of a hash: its first two characters, its
/// next two, then the whole hash, separated by slashes.
pub open spec fn spec_shard_path(h: Seq<char>) -> Seq<char>
    recommends
        h.len() >= 4,
{
    h.subrange(0, 2) + seq!['/'] + h.subrange(2, 4) + seq!['/'] + h
}

/// The URL of a depot manifest, addressed by its manifest hash.
pub open spec fn spec_metadata_url(manifest_id: Seq<char>) -> Seq<char> {
    "https://gog-cdn-fastly.gog.com/content-system/v2/meta/"@ + spec_shard_path(manifest_id)
}

/// The URL of a redistributable-store chunk: a fixed well-known mirror,
/// independent of any CDN candidate.
pub open spec fn spec_redist_chunk_url(chunk_hash: Seq<char>) -> Seq<char> {
    "https://gog-cdn-fastly.gog.com/content-system/v2/dependencies/store/"@ + spec_shard_path(
        chunk_hash,
    )
}

/// The build-listing endpoint for a product.
pub open spec fn spec_builds_url(game_id: nat) -> Seq<char> {
    "https://content-system.gog.com/products/"@ + spec_dec(game_id)
        + "/os/windows/builds?generation=2"@
}

/// The secure-link endpoint for a product.
pub open spec fn spec_secure_link_url(game_id: nat) -> Seq<char> {
    "https://content-system.gog.com/products/"@ + spec_dec(game_id)
        + "/secure_link?generation=2&_version=2&path=/"@
}

/// The catalog entry for a product.
pub open spec fn spec_product_details_url(game_id: nat) -> Seq<char> {
    "https://www.gogdb.org/data/products/"@ + spec_dec(game_id) + "/product.json"@
}

/// The endpoint listing the products the signed-in user owns.
pub open spec fn spec_owned_games_url() -> Seq<char> {
    "https://embed.gog.com/user/data/games"@
}

/// Appends `h[0..2] / h[2..4] / h` to `out`.
pub(crate) fn append_shard_path(out: &mut String, h: &str)
    requires
        h@.len() >= 4,
    ensures
        final(out)@ == old(out)@ + spec_shard_path(h@),
{
    let ghost out0 = out@;
    let a = h.substring_char(0, 2);
    out.append(a);
    push_char(out, '/');
    let b = h.substring_char(2, 4);
    out.append(b);
    push_char(out, '/');
    out.append(h);
    proof {
        assert(out@ =~= out0 + spec_shard_path(h@));
    }
}

/// Resolves the metadata URL for a depot manifest: a fixed metadata host
/// and the manifest hash split into a two/two/full three-segment path.
pub fn resolve_metadata_url(manifest_id: &str) -> (r: String)
    requires
        manifest_id@.len() >= 4,
    ensures
        r@ == spec_metadata_url(manifest_id@),
{
    let mut out = "https://gog-cdn-fastly.gog.com/content-system/v2/meta/".to_owned();
    append_shard_path(&mut out, manifest_id);
    out
}

/// The build-listing URL for a product.
pub fn builds_url(game_id: u64) -> (r: String)
    ensures
        r@ == spec_builds_url(game_id as nat),
{
    let mut out = "https://content-system.gog.com/products/".to_owned();
    let id = u64_to_dec(game_id);
    out.append(id.as_str());
    out.append("/os/windows/builds?generation=2");
    proof {
        assert(out@ =~= spec_builds_url(game_id as nat));
    }
    out
}

/// The secure-link URL for a product.
pub fn secure_link_url(game_id: u64) -> (r: String)
    ensures
        r@ == spec_secure_link_url(game_id as nat),
{
    let mut out = "https://content-system.gog.com/products/".to_owned();
    let id = u64_to_dec(game_id);
    out.append(id.as_str());
    out.append("/secure_link?generation=2&_version=2&path=/");
    proof {
        assert(out@ =~= spec_secure_link_url(game_id as nat));
    }
    out
}

/// The catalog URL for a product's human-readable details.
pub fn product_details_url(game_id: u64) -> (r: String)
    ensures
        r@ == spec_product_details_url(game_id as nat),
{
    let mut out = "https://www.gogdb.org/data/products/".to_owned();
    let id = u64_to_dec(game_id);
    out.append(id.as_str());
    out.append("/product.json");
    proof {
        assert(out@ =~= spec_product_details_url(game_id as nat));
    }
    out
}

/// The URL of the signed-in user's owned-products listing.
pub fn owned_games_url() -> (r: String)
    ensures
        r@ == spec_owned_games_url(),
{
    "https://embed.gog.com/user/data/games".to_owned()
}

/// Both content-addressed schemes embed `h[0..2]`, `h[2..4]` and `h`, in
/// that order and separated by slashes, after their fixed prefixes.
pub proof fn lemma_sharded_addressing(h: Seq<char>)
    requires
        h.len() == 32,
    ensures
        spec_metadata_url(h) == "https://gog-cdn-fastly.gog.com/content-system/v2/meta/"@ + (
        h.subrange(0, 2) + seq!['/'] + h.subrange(2, 4) + seq!['/'] + h),
        spec_redist_chunk_url(h)
            == "https://gog-cdn-fastly.gog.com/content-system/v2/dependencies/store/"@ + (
        h.subrange(0, 2) + seq!['/'] + h.subrange(2, 4) + seq!['/'] + h),
{
}

} // verus!
