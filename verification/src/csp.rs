//! Strict security headers applied to every response.
//!
//! The content security policy forbids inline script and any cross-origin
//! resource; pages load `/static/js/...` only. `headers()` gives the
//! `(name, value)` pairs that the router sets on each response.

use vstd::prelude::*;

verus! {

/// The content security policy. `data:` images are allowed for the inline
/// SVG caret of the stylesheet: bytes embedded in our own CSS, which no
/// request leaves the browser for.
pub const CSP: &'static str = "default-src 'self'; script-src 'self'; style-src 'self'; img-src 'self' data:; connect-src 'self'; font-src 'self'; base-uri 'none'; form-action 'self'; frame-ancestors 'none'; object-src 'none'";

/// Browser features that no page may use.
pub const PERMISSIONS_POLICY: &'static str = "geolocation=(), camera=(), microphone=(), interest-cohort=(), browsing-topics=()";

/// The headers every response carries, in the order they are set.
pub open spec fn headers_spec() -> Seq<(Seq<char>, Seq<char>)> {
    seq![
        ("content-security-policy"@, CSP@),
        ("referrer-policy"@, "no-referrer"@),
        ("x-content-type-options"@, "nosniff"@),
        ("x-frame-options"@, "DENY"@),
        ("permissions-policy"@, PERMISSIONS_POLICY@),
        ("cross-origin-opener-policy"@, "same-origin"@),
        ("cross-origin-resource-policy"@, "same-origin"@),
    ]
}

/// The `(name, value)` pairs of the security headers. The last one keeps
/// other origins from loading our responses as no-cors subresources;
/// with the opener policy before it, pages are cross-origin isolated.
pub fn headers() -> (h: Vec<(&'static str, &'static str)>)
    ensures
        h@.len() == headers_spec().len(),
        forall|i: int| 0 <= i < h@.len() ==> (#[trigger] h@[i].0@, h@[i].1@) == headers_spec()[i],
{
    let h = vec![
        ("content-security-policy", CSP),
        ("referrer-policy", "no-referrer"),
        ("x-content-type-options", "nosniff"),
        ("x-frame-options", "DENY"),
        ("permissions-policy", PERMISSIONS_POLICY),
        ("cross-origin-opener-policy", "same-origin"),
        ("cross-origin-resource-policy", "same-origin"),
    ];
    assert forall|i: int| 0 <= i < h@.len() implies (#[trigger] h@[i].0@, h@[i].1@) == headers_spec()[i] by {
        if i == 0 {} else if i == 1 {} else if i == 2 {} else if i == 3 {} else if i == 4 {} else if i == 5 {} else {}
    }
    h
}

} // verus!
