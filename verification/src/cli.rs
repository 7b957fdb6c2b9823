//! What the operator command line shows and checks, apart from talking to
//! the server: the base URL, the token requirement, and the list lines.

use crate::federation::route::{PeerView, TokenView};
use crate::text::push_char;
use vstd::prelude::*;

verus! {

/// `s` padded with spaces on the right to `width` characters (the `{:w}`
/// format of a string); longer text is kept whole.
pub open spec fn pad_spec(s: Seq<char>, width: nat) -> Seq<char> {
    if s.len() >= width { s } else { s + Seq::new((width - s.len()) as nat, |i: int| ' ') }
}

/// Pads `s` with spaces to `width` characters.
pub fn pad_right(s: &str, width: usize) -> (p: String)
    ensures
        p@ == pad_spec(s@, width as nat),
{
    let mut p = String::from_str(s);
    let n = crate::text::chars_of(s).len();
    if n >= width {
        return p;
    }
    let mut k: usize = n;
    while k < width
        invariant
            n <= k <= width,
            n == s@.len(),
            p@ == s@ + Seq::new((k - n) as nat, |i: int| ' '),
        decreases width - k,
    {
        push_char(&mut p, ' ');
        k = k + 1;
        assert(p@ =~= s@ + Seq::new((k - n) as nat, |i: int| ' '));
    }
    p
}

/// The server's base URL without trailing slashes, which every command
/// needs.
pub fn base_url(url: Option<String>) -> (r: Result<String, &'static str>)
    ensures
        url matches Some(u) ==> (r matches Ok(b) && b@ == crate::federation::pull::trim_slashes(u@)),
        url is None ==> r == Err::<String, &'static str>("LETHE_ADMIN_URL not set (or pass --url)"),
{
    match url {
        Some(u) => Ok(crate::federation::pull::trim_end_slashes(u.as_str())),
        None => Err("LETHE_ADMIN_URL not set (or pass --url)"),
    }
}

/// The admin token, which every command but `info` needs.
pub fn require_token(token: Option<&str>) -> (r: Result<&str, &'static str>)
    ensures
        token matches Some(t) ==> r == Ok::<&str, &'static str>(t),
        token is None ==> r == Err::<&str, &'static str>("LETHE_ADMIN_TOKEN not set"),
{
    match token {
        Some(t) => Ok(t),
        None => Err("LETHE_ADMIN_TOKEN not set"),
    }
}

/// A peer's line in `peers list`: status in 9 columns, label (or `-`) in
/// 24, then endpoint and key, two spaces apart.
pub open spec fn peer_line_spec(p: PeerView) -> Seq<char> {
    let status = if p.enabled { "enabled"@ } else { "disabled"@ };
    let label = match p.label { Some(l) => l@, None => "-"@ };
    pad_spec(status, 9) + "  "@ + pad_spec(label, 24) + "  "@ + p.endpoint@ + "  "@ + p.server_pubkey@
}

/// Formats a peer's line.
pub fn peer_line(p: &PeerView) -> (l: String)
    ensures
        l@ == peer_line_spec(*p),
{
    let status = if p.enabled { "enabled" } else { "disabled" };
    let label: &str = match &p.label {
        Some(l) => l.as_str(),
        None => "-",
    };
    let out = pad_right(status, 9)
        .concat("  ")
        .concat(pad_right(label, 24).as_str())
        .concat("  ")
        .concat(p.endpoint.as_str())
        .concat("  ")
        .concat(p.server_pubkey.as_str());
    assert(out@ =~= peer_line_spec(*p));
    out
}

/// A token's line in `tokens list`: label and creation date in 24
/// columns each, then `active` or `revoked <date>`.
pub open spec fn token_line_spec(t: TokenView) -> Seq<char> {
    let status = match t.revoked_at { Some(d) => "revoked "@ + d@, None => "active"@ };
    pad_spec(t.label@, 24) + " "@ + pad_spec(t.created_at@, 24) + " "@ + status
}

/// Formats a token's line.
pub fn token_line(t: &TokenView) -> (l: String)
    ensures
        l@ == token_line_spec(*t),
{
    let status = match &t.revoked_at {
        Some(d) => String::from_str("revoked ").concat(d.as_str()),
        None => String::from_str("active"),
    };
    let out = pad_right(t.label.as_str(), 24)
        .concat(" ")
        .concat(pad_right(t.created_at.as_str(), 24).as_str())
        .concat(" ")
        .concat(status.as_str());
    assert(out@ =~= token_line_spec(*t));
    out
}

} // verus!
