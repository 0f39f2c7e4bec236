use gogdl::cdn::{Cdn, CdnUrlParams};
use gogdl::urls::{
    builds_url, owned_games_url, product_details_url, resolve_metadata_url, secure_link_url,
};

fn plain_params() -> CdnUrlParams {
    CdnUrlParams {
        base_url: String::from("https://x"),
        path: String::from("/p"),
        token: String::from("t"),
        expires_at: None,
        dirs: None,
        ttl: None,
        source: None,
        gog_token: None,
        l: None,
    }
}

#[test]
fn metadata_url_shards_the_manifest_hash() {
    let url = resolve_metadata_url("abcdef0123456789abcdef0123456789");
    assert_eq!(
        url,
        "https://gog-cdn-fastly.gog.com/content-system/v2/meta/ab/cd/abcdef0123456789abcdef0123456789"
    );
}

#[test]
fn redist_url_shards_the_chunk_hash() {
    let cdn = Cdn { url_format: String::from("ignored"), parameters: plain_params(), priority: 1 };
    let url = cdn.parse_url_redist("abcdef0123456789abcdef0123456789");
    assert_eq!(
        url,
        "https://gog-cdn-fastly.gog.com/content-system/v2/dependencies/store/ab/cd/abcdef0123456789abcdef0123456789"
    );
}

#[test]
fn sharded_segments_appear_in_order_in_both_schemes() {
    let h = "0123456789abcdef0123456789abcdef";
    let meta = resolve_metadata_url(h);
    let cdn = Cdn { url_format: String::new(), parameters: plain_params(), priority: 1 };
    let redist = cdn.parse_url_redist(h);
    for url in [meta, redist] {
        let i = url.find("01").expect("first segment");
        let rest = &url[i..];
        assert!(rest.starts_with("01/23/0123456789abcdef0123456789abcdef"));
    }
}

#[test]
fn templated_url_substitutes_and_appends_shard() {
    let cdn = Cdn {
        url_format: String::from("{base_url}{path}?token={token}"),
        parameters: plain_params(),
        priority: 1,
    };
    let url = cdn.parse_url("abcdef0123456789abcdef0123456789");
    assert_eq!(url, "https://x/p?token=t/ab/cd/abcdef0123456789abcdef0123456789");
}

#[test]
fn templated_url_substitutes_optional_parameters_when_present() {
    let mut params = plain_params();
    params.expires_at = Some(1700000000);
    params.dirs = Some(4);
    params.ttl = Some(86400);
    params.source = Some(String::from("cdn"));
    params.gog_token = Some(String::from("gt"));
    params.l = Some(String::from("en"));
    let cdn = Cdn {
        url_format: String::from(
            "{base_url}{path}?token={token}&expires_at={expires_at}&dirs={dirs}&ttl={ttl}&source={source}&gog_token={gog_token}&l={l}",
        ),
        parameters: params,
        priority: 1,
    };
    let url = cdn.parse_url("abcdef0123456789abcdef0123456789");
    assert_eq!(
        url,
        "https://x/p?token=t&expires_at=1700000000&dirs=4&ttl=86400&source=cdn&gog_token=gt&l=en/ab/cd/abcdef0123456789abcdef0123456789"
    );
}

#[test]
fn absent_optional_parameters_leave_placeholders_alone() {
    let cdn = Cdn {
        url_format: String::from("{base_url}{path}?token={token}&expires_at={expires_at}"),
        parameters: plain_params(),
        priority: 1,
    };
    let url = cdn.parse_url("abcdef0123456789abcdef0123456789");
    assert_eq!(
        url,
        "https://x/p?token=t&expires_at={expires_at}/ab/cd/abcdef0123456789abcdef0123456789"
    );
}

#[test]
fn resolve_chunk_url_selects_the_strategy_by_flag() {
    let cdn = Cdn {
        url_format: String::from("{base_url}{path}?token={token}"),
        parameters: plain_params(),
        priority: 1,
    };
    let h = "abcdef0123456789abcdef0123456789";
    assert_eq!(cdn.resolve_chunk_url(h, false), cdn.parse_url(h));
    assert_eq!(cdn.resolve_chunk_url(h, true), cdn.parse_url_redist(h));
}

#[test]
fn endpoint_urls_embed_the_product_id_in_decimal() {
    assert_eq!(
        builds_url(1207658924),
        "https://content-system.gog.com/products/1207658924/os/windows/builds?generation=2"
    );
    assert_eq!(
        secure_link_url(0),
        "https://content-system.gog.com/products/0/secure_link?generation=2&_version=2&path=/"
    );
    assert_eq!(
        product_details_url(105),
        "https://www.gogdb.org/data/products/105/product.json"
    );
    assert_eq!(owned_games_url(), "https://embed.gog.com/user/data/games");
    assert_eq!(
        product_details_url(u64::MAX),
        "https://www.gogdb.org/data/products/18446744073709551615/product.json"
    );
}
