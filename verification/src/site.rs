//! The public site's delivery policy: hashed asset paths, the module script
//! that hydrates a served page, the content-security policy that admits
//! exactly that script, and the headers every response carries.
use base64::Engine;
use vstd::prelude::*;

use crate::journal::{sha256, sha256_of};
use crate::validation::utf8;

verus! {

/// The package the site's assets are named after when no output name is configured.
pub const SITE_PACKAGE_NAME: &'static str = "open-scribe-web";

/// What the site reads of its build configuration.
pub struct SiteOptions {
    pub output_name: String,
    pub site_pkg_dir: String,
}

/// Content hashes of the built assets; each is empty when the build did not hash it.
pub struct AssetHashes {
    pub js: String,
    pub wasm: String,
    pub css: String,
}

/// `/<pkg_dir>/<name>[.<hash>].<extension>`, the name falling back to the package name.
pub open spec fn asset_href_of(
    output_name: Seq<char>,
    site_pkg_dir: Seq<char>,
    extension: Seq<char>,
    hash: Seq<char>,
) -> Seq<char> {
    let name = if output_name.len() == 0 {
        SITE_PACKAGE_NAME@
    } else {
        output_name
    };
    let stem = "/"@ + site_pkg_dir + "/"@ + name;
    if hash.len() == 0 {
        stem + "."@ + extension
    } else {
        stem + "."@ + hash + "."@ + extension
    }
}

/// The path of one built asset.
pub fn asset_href(options: &SiteOptions, extension: &str, hash: &str) -> (href: String)
    ensures
        href@ == asset_href_of(options.output_name@, options.site_pkg_dir@, extension@, hash@),
{
    let mut href = String::from_str("/");
    href.append(options.site_pkg_dir.as_str());
    href.append("/");
    if options.output_name.as_str().unicode_len() == 0 {
        href.append(SITE_PACKAGE_NAME);
    } else {
        href.append(options.output_name.as_str());
    }
    href.append(".");
    if hash.unicode_len() > 0 {
        href.append(hash);
        href.append(".");
    }
    href.append(extension);
    href
}

/// The text `format!("{:?}", text)` writes: `text` as a quoted, escaped string literal.
pub uninterp spec fn debug_quoted_of(text: Seq<char>) -> Seq<char>;

/// `<str as Debug>::fmt`, through `format!`: the quoted, escaped form of `text`.
#[verifier::external_body]
fn debug_quoted(text: &str) -> (quoted: String)
    ensures
        quoted@ == debug_quoted_of(text@),
{
    format!("{text:?}")
}

/// The module script that loads the site's JavaScript and WebAssembly and hydrates the page.
pub open spec fn hydration_script_of(js_href: Seq<char>, wasm_href: Seq<char>) -> Seq<char> {
    "import("@ + debug_quoted_of(js_href) + ").then(mod => { mod.default({ module_or_path: "@ + debug_quoted_of(
        wasm_href,
    ) + " }).then(() => { mod.hydrate(); }); });"@
}

/// The hydration script of a build.
pub open spec fn build_script_of(options: SiteOptions, hashes: AssetHashes) -> Seq<char> {
    hydration_script_of(
        asset_href_of(options.output_name@, options.site_pkg_dir@, "js"@, hashes.js@),
        asset_href_of(options.output_name@, options.site_pkg_dir@, "wasm"@, hashes.wasm@),
    )
}

pub fn hydration_script(options: &SiteOptions, hashes: &AssetHashes) -> (script: String)
    ensures
        script@ == build_script_of(*options, *hashes),
{
    let js_href = asset_href(options, "js", hashes.js.as_str());
    let wasm_href = asset_href(options, "wasm", hashes.wasm.as_str());
    let mut script = String::from_str("import(");
    script.append(debug_quoted(js_href.as_str()).as_str());
    script.append(").then(mod => { mod.default({ module_or_path: ");
    script.append(debug_quoted(wasm_href.as_str()).as_str());
    script.append(" }).then(() => { mod.hydrate(); }); });");
    script
}

/// The digit of one six-bit group in the standard base64 alphabet.
pub open spec fn base64_digit(group: nat) -> char {
    if group < 26 {
        (65 + group) as char
    } else if group < 52 {
        (71 + group) as char
    } else if group < 62 {
        (group - 4) as char
    } else if group == 62 {
        '+'
    } else {
        '/'
    }
}

/// Standard base64 with padding (RFC 4648, section 4).
pub open spec fn base64_standard(bytes: Seq<u8>) -> Seq<char>
    decreases bytes.len(),
{
    if bytes.len() == 0 {
        Seq::empty()
    } else if bytes.len() == 1 {
        let a = bytes[0] as nat;
        seq![base64_digit(a / 4), base64_digit((a % 4) * 16), '=', '=']
    } else if bytes.len() == 2 {
        let a = bytes[0] as nat;
        let b = bytes[1] as nat;
        seq![base64_digit(a / 4), base64_digit((a % 4) * 16 + b / 16), base64_digit((b % 16) * 4), '=']
    } else {
        let a = bytes[0] as nat;
        let b = bytes[1] as nat;
        let c = bytes[2] as nat;
        seq![
            base64_digit(a / 4),
            base64_digit((a % 4) * 16 + b / 16),
            base64_digit((b % 16) * 4 + c / 64),
            base64_digit(c % 64),
        ] + base64_standard(bytes.skip(3))
    }
}

/// `base64::engine::general_purpose::STANDARD.encode`: standard base64 with
/// padding. The encoder sizes its buffer with checked arithmetic, which the
/// bound on the input's length keeps from overflowing.
#[verifier::external_body]
fn base64_encode(bytes: &[u8]) -> (text: String)
    requires
        bytes@.len() < usize::MAX / 2,
    ensures
        text@ == base64_standard(bytes@),
{
    base64::engine::general_purpose::STANDARD.encode(bytes)
}

/// The CSP source hash of a script: the base64 SHA-256 digest of its UTF-8 text.
pub open spec fn script_hash_of(script: Seq<char>) -> Seq<char> {
    base64_standard(sha256_of(utf8(script)))
}

pub fn hydration_script_hash(options: &SiteOptions, hashes: &AssetHashes) -> (hash: String)
    ensures
        hash@ == script_hash_of(build_script_of(*options, *hashes)),
{
    let script = hydration_script(options, hashes);
    let digest = sha256(script.as_str().as_bytes());
    base64_encode(digest.as_slice())
}

/// The policy every page is served under. A development build admits inline
/// scripts; a release build admits only the hydration script, by its hash.
pub open spec fn content_security_policy_of(debug_build: bool, script_hash: Seq<char>) -> Seq<char> {
    let script_sources = if debug_build {
        "'self' 'unsafe-inline' 'wasm-unsafe-eval'"@
    } else {
        "'self' 'sha256-"@ + script_hash + "' 'wasm-unsafe-eval'"@
    };
    "default-src 'self'; base-uri 'none'; object-src 'none'; frame-ancestors 'none'; form-action 'self'; img-src 'self' data:; connect-src 'self'; style-src 'self'; script-src "@
        + script_sources + ";"@
}

pub fn content_security_policy(options: &SiteOptions, hashes: &AssetHashes, debug_build: bool) -> (policy: String)
    ensures
        policy@ == content_security_policy_of(debug_build, script_hash_of(build_script_of(*options, *hashes))),
{
    let mut policy = String::from_str(
        "default-src 'self'; base-uri 'none'; object-src 'none'; frame-ancestors 'none'; form-action 'self'; img-src 'self' data:; connect-src 'self'; style-src 'self'; script-src ",
    );
    if debug_build {
        policy.append("'self' 'unsafe-inline' 'wasm-unsafe-eval'");
    } else {
        let hash = hydration_script_hash(options, hashes);
        policy.append("'self' 'sha256-");
        policy.append(hash.as_str());
        policy.append("' 'wasm-unsafe-eval'");
    }
    policy.append(";");
    policy
}

/// The headers every response carries, by lower-case name: no caching, no
/// content sniffing, a strict referrer, the content-security policy, and no framing.
pub fn response_headers(content_security_policy: String) -> (headers: Vec<(String, String)>)
    ensures
        headers@.len() == 5,
        headers@[0].0@ == "cache-control"@ && headers@[0].1@ == "no-store"@,
        headers@[1].0@ == "x-content-type-options"@ && headers@[1].1@ == "nosniff"@,
        headers@[2].0@ == "referrer-policy"@ && headers@[2].1@ == "strict-origin-when-cross-origin"@,
        headers@[3].0@ == "content-security-policy"@ && headers@[3].1 == content_security_policy,
        headers@[4].0@ == "x-frame-options"@ && headers@[4].1@ == "DENY"@,
{
    let mut headers: Vec<(String, String)> = Vec::new();
    headers.push((String::from_str("cache-control"), String::from_str("no-store")));
    headers.push((String::from_str("x-content-type-options"), String::from_str("nosniff")));
    headers.push((String::from_str("referrer-policy"), String::from_str("strict-origin-when-cross-origin")));
    headers.push((String::from_str("content-security-policy"), content_security_policy));
    headers.push((String::from_str("x-frame-options"), String::from_str("DENY")));
    headers
}

} // verus!
