//! The forwarding authority: a zone handler rooted at the DNS root that
//! stores no records itself but relays every query to a fixed upstream
//! resolver set and relays back the response. The handler itself is owned by
//! the `trust-dns` crates; this module states what its construction returns.

use vstd::prelude::*;

verus! {

#[verifier::external_type_specification]
#[verifier::external_body]
pub struct ExName(trust_dns_proto::rr::domain::Name);

#[verifier::external_type_specification]
#[verifier::external_body]
pub struct ExForwardAuthority(trust_dns_server::store::forwarder::ForwardAuthority);

#[verifier::external_type_specification]
#[verifier::external_body]
pub struct ExNameServerConfig(trust_dns_server::resolver::config::NameServerConfig);

#[verifier::external_type_specification]
#[verifier::external_body]
pub struct ExNameServerConfigGroup(
    trust_dns_server::resolver::config::NameServerConfigGroup,
);

/// The canonical text of a domain name, as the `trust-dns` crates render it:
/// each label followed by a dot.
pub uninterp spec fn name_text(n: trust_dns_proto::rr::domain::Name) -> Seq<char>;

/// What a name-server group holds: one entry per upstream connection, in
/// order — the nameserver address in its canonical text, the port, and
/// whether the connection is UDP (`true`) or TCP (`false`).
pub uninterp spec fn group_servers(
    g: trust_dns_server::resolver::config::NameServerConfigGroup,
) -> Seq<(Seq<char>, u16, bool)>;

/// The upstream resolver set an authority forwards every query to, in the
/// same form as `group_servers`.
pub uninterp spec fn authority_upstreams(
    a: trust_dns_server::store::forwarder::ForwardAuthority,
) -> Seq<(Seq<char>, u16, bool)>;

/// The fixed upstream resolver set: the well-known public provider's four
/// nameserver addresses, each reachable over UDP and over TCP on the
/// standard DNS port.
pub open spec fn upstream_servers() -> Seq<(Seq<char>, u16, bool)> {
    seq![
        ("1.1.1.1"@, 53u16, true),
        ("1.1.1.1"@, 53u16, false),
        ("1.0.0.1"@, 53u16, true),
        ("1.0.0.1"@, 53u16, false),
        ("2606:4700:4700::1111"@, 53u16, true),
        ("2606:4700:4700::1111"@, 53u16, false),
        ("2606:4700:4700::1001"@, 53u16, true),
        ("2606:4700:4700::1001"@, 53u16, false),
    ]
}

/// The canonical text of the origin zone an authority answers for.
pub uninterp spec fn authority_origin(
    a: trust_dns_server::store::forwarder::ForwardAuthority,
) -> Seq<char>;

/// The canonical text of the DNS root zone: the empty name, rendered `"."`.
pub open spec fn root_zone_text() -> Seq<char> {
    seq!['.']
}

/// Relies on `Name::root`: the name with no labels, whose canonical text
/// is `"."`.
#[verifier::external_body]
fn root_name() -> (r: trust_dns_proto::rr::domain::Name)
    ensures
        name_text(r) == root_zone_text(),
{
    trust_dns_proto::rr::domain::Name::root()
}

/// Relies on `NameServerConfigGroup::cloudflare`: the well-known public
/// resolver provider's address group — `1.1.1.1`, `1.0.0.1` and their two
/// IPv6 counterparts, each once over UDP and once over TCP, all on the
/// standard DNS port — used as the fixed upstream resolver set.
#[verifier::external_body]
fn upstream_name_servers() -> (r:
    trust_dns_server::resolver::config::NameServerConfigGroup)
    ensures
        group_servers(r) == upstream_servers(),
{
    trust_dns_server::resolver::config::NameServerConfigGroup::cloudflare()
}

/// Relies on `ForwardAuthority::try_from_config`, called with zone type
/// "forward" and default forwarding options: it builds an authority whose
/// origin is the lower-cased given origin, forwarding to the given name
/// servers. In this crate version its body always returns `Ok`; the built
/// authority forwards to exactly the given name servers, and the DNS root
/// lower-cases to itself, so an authority built at the root is rooted there.
#[verifier::external_body]
fn try_forward_authority(
    origin: trust_dns_proto::rr::domain::Name,
    name_servers: trust_dns_server::resolver::config::NameServerConfigGroup,
) -> (r: Result<trust_dns_server::store::forwarder::ForwardAuthority, String>)
    ensures
        r is Ok,
        r matches Ok(a) ==> (name_text(origin) == root_zone_text() ==> authority_origin(a)
            == root_zone_text()),
        r matches Ok(a) ==> authority_upstreams(a) == group_servers(name_servers),
{
    let config = trust_dns_server::store::forwarder::ForwardConfig {
        name_servers,
        options: None,
    };
    trust_dns_server::store::forwarder::ForwardAuthority::try_from_config(
        origin,
        trust_dns_server::authority::ZoneType::Forward,
        &config,
    )
}

/// Build the forwarding authority for this resolver: rooted at the DNS root,
/// forwarding every query to the fixed upstream resolver set. A failure
/// would be fatal for the run and is propagated to the caller unchanged.
pub fn forwarder_authority() -> (r: Result<
    trust_dns_server::store::forwarder::ForwardAuthority,
    String,
>)
    ensures
        r matches Ok(a) && authority_origin(a) == root_zone_text() && authority_upstreams(a)
            == upstream_servers(),
{
    try_forward_authority(root_name(), upstream_name_servers())
}

} // verus!
