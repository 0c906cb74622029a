//! The zone catalog: a routing table from lower-cased zone name to the
//! authority responsible for that zone. For this resolver the catalog
//! receives exactly one entry — the DNS root, mapped to the forwarding
//! authority — and is never mutated again for the rest of the run.

use vstd::prelude::*;
use crate::authority::authority_origin;
use crate::authority::authority_upstreams;
use crate::authority::forwarder_authority;
use crate::authority::root_zone_text;
use crate::authority::upstream_servers;

verus! {

#[verifier::external_type_specification]
#[verifier::external_body]
pub struct ExLowerName(trust_dns_proto::rr::LowerName);

#[verifier::external_type_specification]
#[verifier::external_body]
pub struct ExCatalog(trust_dns_server::authority::Catalog);

/// The canonical text of a lower-cased zone name.
pub uninterp spec fn lower_text(n: trust_dns_proto::rr::LowerName) -> Seq<char>;

/// What the catalog holds: for each zone name (by its canonical text), the
/// installed authority's origin text and its upstream resolver set.
pub uninterp spec fn catalog_entries(c: trust_dns_server::authority::Catalog) -> Map<
    Seq<char>,
    (Seq<char>, Seq<(Seq<char>, u16, bool)>),
>;

/// A catalog with no zone at all.
pub open spec fn no_entries() -> Map<Seq<char>, (Seq<char>, Seq<(Seq<char>, u16, bool)>)> {
    Map::empty()
}

/// The contents a fully assembled catalog must have: exactly one zone, the
/// DNS root, answered by an authority itself rooted there and forwarding
/// to the fixed upstream resolver set.
pub open spec fn root_only_entries() -> Map<
    Seq<char>,
    (Seq<char>, Seq<(Seq<char>, u16, bool)>),
> {
    Map::empty().insert(root_zone_text(), (root_zone_text(), upstream_servers()))
}

/// A fully assembled catalog holds exactly one zone entry — the DNS root —
/// and that entry is an authority rooted at the root, forwarding to the
/// fixed upstream resolver set.
pub proof fn lemma_assembled_catalog_is_root_only()
    ensures
        root_only_entries().dom() =~= set![root_zone_text()],
        root_only_entries().dom().len() == 1,
        root_only_entries()[root_zone_text()].0 == root_zone_text(),
        root_only_entries()[root_zone_text()].1 == upstream_servers(),
{
    assert(root_only_entries().dom() =~= set![root_zone_text()]);
    assert(set![root_zone_text()].len() == 1) by {
        assert(set![root_zone_text()] =~= Set::empty().insert(root_zone_text()));
    }
}

/// Relies on `Name::root` and `LowerName::new`: the lower-cased root zone
/// name, whose canonical text is `"."`.
#[verifier::external_body]
fn root_zone_name() -> (r: trust_dns_proto::rr::LowerName)
    ensures
        lower_text(r) == root_zone_text(),
{
    trust_dns_proto::rr::LowerName::new(&trust_dns_proto::rr::domain::Name::root())
}

/// Relies on `Catalog::new`: a catalog holding no zone at all.
#[verifier::external_body]
fn catalog_new() -> (r: trust_dns_server::authority::Catalog)
    ensures
        catalog_entries(r) == no_entries(),
{
    trust_dns_server::authority::Catalog::new()
}

/// Relies on `Catalog::upsert`: inserts the authority under the given zone
/// name, replacing whatever that name held before and touching no other
/// zone. The authority is handed over as a shared handle, read concurrently
/// by every query-handling task.
#[verifier::external_body]
fn catalog_upsert(
    c: &mut trust_dns_server::authority::Catalog,
    name: trust_dns_proto::rr::LowerName,
    authority: trust_dns_server::store::forwarder::ForwardAuthority,
)
    ensures
        catalog_entries(*final(c)) == catalog_entries(*old(c)).insert(
            lower_text(name),
            (authority_origin(authority), authority_upstreams(authority)),
        ),
{
    c.upsert(name, Box::new(std::sync::Arc::new(authority)));
}

/// Assemble the zone catalog for a resolver run: build the forwarding
/// authority and install it under the root zone name. After this call the
/// catalog holds exactly one entry — the DNS root, answered by an authority
/// itself rooted there — and is logically read-only for the rest of the run.
/// An authority-construction failure would be propagated unchanged.
pub fn assemble_catalog() -> (r: Result<trust_dns_server::authority::Catalog, String>)
    ensures
        r matches Ok(c) && catalog_entries(c) == root_only_entries(),
{
    let authority = match forwarder_authority() {
        Ok(a) => a,
        Err(e) => {
            return Err(e);
        },
    };
    let mut catalog = catalog_new();
    catalog_upsert(&mut catalog, root_zone_name(), authority);
    Ok(catalog)
}

} // verus!
