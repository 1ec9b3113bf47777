use vstd::prelude::*;

verus! {

/// Identity of one timeline of one tenant, as the pair of their raw
/// 128-bit identifiers.
#[derive(Clone, Copy, PartialEq, Eq, Structural, Debug)]
pub struct TenantTimelineId {
    pub tenant_id: u128,
    pub timeline_id: u128,
}

impl TenantTimelineId {
    pub fn new(tenant_id: u128, timeline_id: u128) -> (r: Self)
        ensures
            r.tenant_id == tenant_id,
            r.timeline_id == timeline_id,
    {
        TenantTimelineId { tenant_id, timeline_id }
    }
}

/// True when a task tagged with the given tenant and timeline identifiers is
/// selected by a shutdown request; a request of `None` for either field
/// matches every value of it.
pub fn shutdown_tag_matches(
    tag: &TenantTimelineId,
    tenant_id: Option<u128>,
    timeline_id: Option<u128>,
) -> (r: bool)
    ensures
        r <==> ((tenant_id is None || tenant_id == Some(tag.tenant_id))
            && (timeline_id is None || timeline_id == Some(tag.timeline_id))),
{
    let tenant_ok = match tenant_id {
        None => true,
        Some(t) => t == tag.tenant_id,
    };
    let timeline_ok = match timeline_id {
        None => true,
        Some(t) => t == tag.timeline_id,
    };
    tenant_ok && timeline_ok
}

} // verus!
