//! A tonic endpoint that is only ever made from a plan, and keeps the plan
//! it was made from.

use vstd::prelude::*;
use std::time::Duration;
use tonic::transport::Endpoint;
use crate::channel::EndpointPlan;

verus! {

#[verifier::external_type_specification]
#[verifier::external_body]
pub struct ExEndpoint(tonic::transport::Endpoint);

/// A tonic endpoint together with the plan it was made from. Its fields
/// are private and only `endpoint_for_plan` makes one, so the endpoint
/// inside is always the one made from the plan beside it.
pub struct PlannedEndpoint {
    endpoint: Endpoint,
    plan: EndpointPlan,
}

impl PlannedEndpoint {
    /// The plan this endpoint was made from.
    pub closed spec fn spec_plan(&self) -> EndpointPlan {
        self.plan
    }

    /// The plan this endpoint was made from.
    pub fn plan(&self) -> (p: &EndpointPlan)
        ensures
            *p == self.spec_plan(),
    {
        &self.plan
    }

    /// The tonic endpoint, ready to connect.
    pub fn into_endpoint(self) -> Endpoint {
        self.endpoint
    }
}

/// Whether tonic's `Endpoint::from_shared` accepts an address.
pub uninterp spec fn endpoint_accepts(addr: Seq<char>) -> bool;

/// The prefix that marks the address of a unix domain socket.
pub open spec fn unix_prefix() -> Seq<char> {
    "unix:"@
}

/// Makes the tonic endpoint of a plan: `Endpoint::from_shared` on the
/// plan's address, then `http2_keep_alive_interval`, `keep_alive_timeout`,
/// `keep_alive_while_idle`, `timeout` and `connect_timeout`, each with the
/// plan's setting of that name (seconds as `Duration::from_secs`). The
/// endpoint comes back beside the plan it was made from.
///
/// Claimed of it: it succeeds exactly on the addresses that
/// `endpoint_accepts` names; it always accepts an address that starts with
/// `unix:` (a socket path) and never the empty address (an empty URI); its
/// error is always of the kind whose text is `invalid URI`; the plan it
/// returns is the one it was given. The setters only record their value and
/// cannot fail. Which other addresses `http::Uri` parses is left to the
/// name; what the returned endpoint holds is not stated beyond this, since
/// the endpoint has no value that a contract can compare.
#[verifier::external_body]
pub(crate) fn endpoint_for_plan(plan: EndpointPlan) -> (res: Result<PlannedEndpoint, String>)
    ensures
        res is Ok <==> endpoint_accepts(plan.addr@),
        plan.addr@.len() >= 5 && plan.addr@.take(5) == unix_prefix() ==> res is Ok,
        plan.addr@.len() == 0 ==> res is Err,
        res matches Err(e) ==> e@ == "invalid URI"@,
        res matches Ok(p) ==> p.spec_plan() == plan,
{
    let ep = match Endpoint::from_shared(plan.addr.clone()) {
        Ok(ep) => ep,
        Err(e) => return Err(e.to_string()),
    };
    let s = plan.settings;
    let endpoint = ep
        .http2_keep_alive_interval(Duration::from_secs(s.keep_alive_interval_secs))
        .keep_alive_timeout(Duration::from_secs(s.keep_alive_timeout_secs))
        .keep_alive_while_idle(s.keep_alive_while_idle)
        .timeout(Duration::from_secs(s.request_timeout_secs))
        .connect_timeout(Duration::from_secs(s.connect_timeout_secs));
    Ok(PlannedEndpoint { endpoint, plan })
}

} // verus!
