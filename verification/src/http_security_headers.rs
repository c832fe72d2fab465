//! The hardening headers that every response carries, HTML and JSON alike.
use vstd::prelude::*;

verus! {

pub const CONTENT_SECURITY_POLICY: &'static str = "content-security-policy";
pub const X_CONTENT_TYPE_OPTIONS: &'static str = "x-content-type-options";
pub const REFERRER_POLICY: &'static str = "referrer-policy";
pub const PERMISSIONS_POLICY: &'static str = "permissions-policy";

/// Only this origin may provide content; no plug-ins; no framing.
pub const CONTENT_SECURITY_POLICY_VALUE: &'static str = "default-src 'self'; base-uri 'self'; object-src 'none'; frame-ancestors 'none'";
/// Styles and scripts are refused when their MIME type does not fit.
pub const X_CONTENT_TYPE_OPTIONS_VALUE: &'static str = "nosniff";
/// Full referrer for same-origin requests, origin only across origins (and none on a downgrade).
pub const REFERRER_POLICY_VALUE: &'static str = "strict-origin-when-cross-origin";
/// An empty allow-list for each of these features disables it.
pub const PERMISSIONS_POLICY_VALUE: &'static str = "camera=(), microphone=(), geolocation=(), payment=(), usb=(), bluetooth=()";

/// The headers, name and value, in the order they are set.
pub open spec fn security_header_list() -> Seq<(Seq<char>, Seq<char>)> {
    seq![
        (CONTENT_SECURITY_POLICY@, CONTENT_SECURITY_POLICY_VALUE@),
        (X_CONTENT_TYPE_OPTIONS@, X_CONTENT_TYPE_OPTIONS_VALUE@),
        (REFERRER_POLICY@, REFERRER_POLICY_VALUE@),
        (PERMISSIONS_POLICY@, PERMISSIONS_POLICY_VALUE@),
    ]
}

/// The security headers to insert into a response, each as (name, value);
/// inserting replaces a header of the same name that the response had.
pub fn security_headers() -> (headers: Vec<(&'static str, &'static str)>)
    ensures
        headers@.len() == security_header_list().len(),
        forall|i: int| 0 <= i < headers@.len() ==> (#[trigger] headers@[i].0@, headers@[i].1@)
            == security_header_list()[i],
{
    let mut headers: Vec<(&'static str, &'static str)> = Vec::new();
    headers.push((CONTENT_SECURITY_POLICY, CONTENT_SECURITY_POLICY_VALUE));
    headers.push((X_CONTENT_TYPE_OPTIONS, X_CONTENT_TYPE_OPTIONS_VALUE));
    headers.push((REFERRER_POLICY, REFERRER_POLICY_VALUE));
    headers.push((PERMISSIONS_POLICY, PERMISSIONS_POLICY_VALUE));
    headers
}

/// The headers have pairwise distinct names, so none of them overwrites
/// another when they are inserted one after the other.
pub proof fn lemma_security_header_names_distinct()
    ensures
        forall|i: int, j: int|
            0 <= i < j < security_header_list().len() ==> (#[trigger] security_header_list()[i]).0
                != (#[trigger] security_header_list()[j]).0,
{
    reveal_strlit("content-security-policy");
    reveal_strlit("x-content-type-options");
    reveal_strlit("referrer-policy");
    reveal_strlit("permissions-policy");
    assert(CONTENT_SECURITY_POLICY@[0] != X_CONTENT_TYPE_OPTIONS@[0]);
    assert(CONTENT_SECURITY_POLICY@[0] != REFERRER_POLICY@[0]);
    assert(CONTENT_SECURITY_POLICY@[0] != PERMISSIONS_POLICY@[0]);
    assert(X_CONTENT_TYPE_OPTIONS@[0] != REFERRER_POLICY@[0]);
    assert(X_CONTENT_TYPE_OPTIONS@[0] != PERMISSIONS_POLICY@[0]);
    assert(REFERRER_POLICY@[0] != PERMISSIONS_POLICY@[0]);
}

} // verus!
