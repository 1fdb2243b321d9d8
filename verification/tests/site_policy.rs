use base64::Engine;
use open_scribe::site::{
    asset_href, content_security_policy, hydration_script, hydration_script_hash, response_headers, AssetHashes,
    SiteOptions,
};
use sha2::Digest;

fn options(output_name: &str) -> SiteOptions {
    SiteOptions { output_name: output_name.to_owned(), site_pkg_dir: "pkg".to_owned() }
}

fn unhashed() -> AssetHashes {
    AssetHashes { js: String::new(), wasm: String::new(), css: String::new() }
}

#[test]
fn asset_paths_fall_back_to_the_package_name_and_carry_hashes() {
    assert_eq!(asset_href(&options(""), "js", ""), "/pkg/open-scribe-web.js");
    assert_eq!(asset_href(&options("site"), "wasm", "abc123"), "/pkg/site.abc123.wasm");
}

#[test]
fn hydration_script_quotes_both_asset_paths() {
    let script = hydration_script(&options(""), &unhashed());
    assert_eq!(
        script,
        "import(\"/pkg/open-scribe-web.js\").then(mod => { mod.default({ module_or_path: \"/pkg/open-scribe-web.wasm\" }).then(() => { mod.hydrate(); }); });"
    );
}

#[test]
fn release_policy_admits_only_the_hashed_hydration_script() {
    let hashes = AssetHashes { js: "j1".to_owned(), wasm: "w2".to_owned(), css: "c3".to_owned() };
    let script = hydration_script(&options(""), &hashes);
    let expected_hash = base64::engine::general_purpose::STANDARD.encode(sha2::Sha256::digest(script.as_bytes()));
    assert_eq!(hydration_script_hash(&options(""), &hashes), expected_hash);
    assert_eq!(expected_hash.len(), 44);

    let policy = content_security_policy(&options(""), &hashes, false);
    assert_eq!(
        policy,
        format!(
            "default-src 'self'; base-uri 'none'; object-src 'none'; frame-ancestors 'none'; form-action 'self'; img-src 'self' data:; connect-src 'self'; style-src 'self'; script-src 'self' 'sha256-{expected_hash}' 'wasm-unsafe-eval';"
        )
    );
    let development = content_security_policy(&options(""), &hashes, true);
    assert!(development.ends_with("script-src 'self' 'unsafe-inline' 'wasm-unsafe-eval';"));
}

#[test]
fn every_response_forbids_caching_sniffing_and_framing() {
    let headers = response_headers("default-src 'self';".to_owned());
    let names: Vec<&str> = headers.iter().map(|(name, _)| name.as_str()).collect();
    assert_eq!(
        names,
        vec!["cache-control", "x-content-type-options", "referrer-policy", "content-security-policy", "x-frame-options"]
    );
    assert_eq!(headers[0].1, "no-store");
    assert_eq!(headers[3].1, "default-src 'self';");
    assert_eq!(headers[4].1, "DENY");
}
