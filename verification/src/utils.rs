//! Names and address literals.
use crate::text::chars_of;
use crate::text::has_prefix;
use crate::text::matches_at;
use vstd::prelude::*;

verus! {

/// A display name and a domain suffix, joined by a period.
pub open spec fn fqdn(name: Seq<char>, domain: Seq<char>) -> Seq<char> {
    name + "."@ + domain
}

/// An address literal counts as private when it begins with one of four
/// strings: `fc` or `fd` (unique-local), `fe80` (link-local) or `::1`
/// (loopback in its short form). The comparison is of characters as
/// written: case matters, and the literal is not parsed as an address.
pub open spec fn is_private(ip: Seq<char>) -> bool {
    ||| has_prefix(ip, "fc"@)
    ||| has_prefix(ip, "fd"@)
    ||| has_prefix(ip, "fe80"@)
    ||| has_prefix(ip, "::1"@)
}

/// The fully-qualified name of a workload: its display name, a period,
/// and the domain suffix.
pub fn generate_fqdn(name: &str, domain: &str) -> (out: String)
    ensures
        out@ == fqdn(name@, domain@),
{
    let mut out = String::from_str(name);
    out.append(".");
    out.append(domain);
    out
}

/// Whether an address literal is taken to be publicly routable, that is,
/// begins with none of the private prefixes.
pub fn is_public_ipv6(ip: &str) -> (public: bool)
    ensures
        public == !is_private(ip@),
{
    let literal = chars_of(ip);
    let unique_local_c = chars_of("fc");
    let unique_local_d = chars_of("fd");
    let link_local = chars_of("fe80");
    let loopback = chars_of("::1");
    !(matches_at(&literal, &unique_local_c, 0) || matches_at(&literal, &unique_local_d, 0)
        || matches_at(&literal, &link_local, 0) || matches_at(&literal, &loopback, 0))
}

} // verus!
