//! The endpoint through which the gateway reaches an upstream gRPC
//! service, with the connection settings it uses for every service.

use vstd::prelude::*;
use crate::endpoint::{endpoint_accepts, endpoint_for_plan, unix_prefix, PlannedEndpoint};
use crate::error::{AppError, STATUS_BAD_GATEWAY, STATUS_INTERNAL_SERVER_ERROR};

verus! {

/// The connection settings of every upstream channel, in seconds.
#[derive(Clone, Copy, Debug, PartialEq, Eq)]
pub struct ChannelSettings {
    /// How often an HTTP/2 keep-alive ping is sent.
    pub keep_alive_interval_secs: u64,
    /// How long a keep-alive ping may go unanswered.
    pub keep_alive_timeout_secs: u64,
    /// Whether pings are sent while no call is open.
    pub keep_alive_while_idle: bool,
    /// How long one call may take.
    pub request_timeout_secs: u64,
    /// How long establishing the connection may take.
    pub connect_timeout_secs: u64,
}

impl ChannelSettings {
    /// The settings of the gateway's channels: a ping every 30 s that may
    /// wait 20 s for its answer, also while idle; 30 s per call; 10 s to
    /// connect.
    pub open spec fn spec_gateway() -> ChannelSettings {
        ChannelSettings {
            keep_alive_interval_secs: 30,
            keep_alive_timeout_secs: 20,
            keep_alive_while_idle: true,
            request_timeout_secs: 30,
            connect_timeout_secs: 10,
        }
    }

    /// The settings of the gateway's channels.
    pub fn gateway() -> (s: ChannelSettings)
        ensures
            s == Self::spec_gateway(),
    {
        ChannelSettings {
            keep_alive_interval_secs: 30,
            keep_alive_timeout_secs: 20,
            keep_alive_while_idle: true,
            request_timeout_secs: 30,
            connect_timeout_secs: 10,
        }
    }
}

/// What an endpoint is made of: the address of the service and the
/// settings of the channel to it.
#[derive(Clone, Debug, PartialEq, Eq)]
pub struct EndpointPlan {
    pub addr: String,
    pub settings: ChannelSettings,
}

/// The plan of the endpoint for the upstream service at `addr`: that
/// address, with the gateway's channel settings.
pub fn endpoint_plan(addr: &str) -> (p: EndpointPlan)
    ensures
        p.addr@ == addr@,
        p.settings == ChannelSettings::spec_gateway(),
{
    EndpointPlan { addr: String::from_str(addr), settings: ChannelSettings::gateway() }
}

/// The message of the error for an address that tonic refused, and why.
pub open spec fn spec_invalid_uri_message(addr: Seq<char>, reason: Seq<char>) -> Seq<char> {
    "invalid service uri: "@ + addr + " err: "@ + reason
}

/// The error for an address that tonic refused with the given reason: an
/// `Internal` error that names both.
pub fn invalid_uri_error(addr: &str, reason: &str) -> (e: AppError)
    ensures
        e matches AppError::Internal(m) && m@ == spec_invalid_uri_message(addr@, reason@),
{
    let mut msg = String::from_str("invalid service uri: ");
    msg.append(addr);
    msg.append(" err: ");
    msg.append(reason);
    AppError::Internal(msg)
}

/// The endpoint of the upstream service at `addr`, made from the plan of
/// that address with the gateway's channel settings; connecting to it is
/// left to the caller. An address that tonic does not accept gives an
/// `Internal` error (which answers with HTTP 500) naming the address.
pub fn configure_endpoint(addr: &str) -> (res: Result<PlannedEndpoint, AppError>)
    ensures
        res is Ok <==> endpoint_accepts(addr@),
        res matches Ok(p) ==> p.spec_plan().addr@ == addr@ && p.spec_plan().settings == ChannelSettings::spec_gateway(),
        addr@.len() >= 5 && addr@.take(5) == unix_prefix() ==> res is Ok,
        res matches Err(e) ==> e matches AppError::Internal(m) && m@ == spec_invalid_uri_message(addr@, "invalid URI"@),
        res matches Err(e) ==> e.spec_status() == STATUS_INTERNAL_SERVER_ERROR,
{
    let plan = endpoint_plan(addr);
    match endpoint_for_plan(plan) {
        Ok(planned) => Ok(planned),
        Err(reason) => Err(invalid_uri_error(addr, reason.as_str())),
    }
}

/// The outcome of connecting to a configured endpoint: the channel where
/// the connection was made; where it failed, a `GrpcTransport` error with
/// the text of the failure (which answers with HTTP 502).
pub fn connected_channel<C>(connected: Result<C, String>) -> (res: Result<C, AppError>)
    ensures
        match connected {
            Ok(c) => res == Ok::<C, AppError>(c),
            Err(t) => res matches Err(AppError::GrpcTransport(m)) && m@ == t@,
        },
        res matches Err(e) ==> e.spec_status() == STATUS_BAD_GATEWAY,
{
    match connected {
        Ok(c) => Ok(c),
        Err(t) => Err(AppError::GrpcTransport(t)),
    }
}

} // verus!
