//! Security headers set on every response.
use vstd::prelude::*;
use vstd::string::*;

verus! {

/// The headers, as (lower-case name, value) pairs, in the order they are
/// set: no MIME sniffing, no framing, HSTS for two years with preload, a
/// deny-all content security policy, and no caching.
pub open spec fn security_headers_spec() -> Seq<(Seq<char>, Seq<char>)> {
    seq![
        ("x-content-type-options"@, "nosniff"@),
        ("x-frame-options"@, "DENY"@),
        ("strict-transport-security"@, "max-age=63072000; includeSubDomains; preload"@),
        ("content-security-policy"@, "default-src 'none'"@),
        ("cache-control"@, "no-store"@),
    ]
}

fn push_pair(v: &mut Vec<(String, String)>, name: &str, value: &str)
    ensures
        final(v)@.len() == old(v)@.len() + 1,
        forall|i: int| 0 <= i < old(v)@.len() ==> final(v)@[i] == old(v)@[i],
        final(v)@[old(v)@.len() as int].0@ == name@,
        final(v)@[old(v)@.len() as int].1@ == value@,
{
    v.push((name.to_owned(), value.to_owned()));
}

/// The security headers to set on a response.
pub fn security_header_values() -> (h: Vec<(String, String)>)
    ensures
        h@.len() == security_headers_spec().len(),
        forall|i: int|
            0 <= i < h@.len() ==> (#[trigger] h@[i]).0@ == security_headers_spec()[i].0 && h@[i].1@
                == security_headers_spec()[i].1,
{
    let mut h: Vec<(String, String)> = Vec::new();
    push_pair(&mut h, "x-content-type-options", "nosniff");
    push_pair(&mut h, "x-frame-options", "DENY");
    push_pair(&mut h, "strict-transport-security", "max-age=63072000; includeSubDomains; preload");
    push_pair(&mut h, "content-security-policy", "default-src 'none'");
    push_pair(&mut h, "cache-control", "no-store");
    h
}

} // verus!
