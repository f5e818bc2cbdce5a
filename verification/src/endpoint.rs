use vstd::prelude::*;

verus! {

/// Transport parameters the server role configures: a keep-alive ping every
/// second, a five-second idle timeout, and no concurrently open one-way
/// channels from the peer.
pub struct ServerTransportPlan {
    pub keep_alive_secs: u64,
    pub idle_timeout_secs: u64,
    pub max_concurrent_uni_channels: u32,
}

/// The server role's transport parameters.
pub fn server_transport_plan() -> (r: ServerTransportPlan)
    ensures
        r.keep_alive_secs == 1,
        r.idle_timeout_secs == 5,
        r.max_concurrent_uni_channels == 0,
{
    ServerTransportPlan { keep_alive_secs: 1, idle_timeout_secs: 5, max_concurrent_uni_channels: 0 }
}

/// Transport parameters the client role configures: a keep-alive ping every
/// second, with early data and server-name indication enabled.
pub struct ClientTransportPlan {
    pub keep_alive_secs: u64,
    pub enable_early_data: bool,
    pub enable_sni: bool,
}

/// The client role's transport parameters.
pub fn client_transport_plan() -> (r: ClientTransportPlan)
    ensures
        r.keep_alive_secs == 1,
        r.enable_early_data,
        r.enable_sni,
{
    ClientTransportPlan { keep_alive_secs: 1, enable_early_data: true, enable_sni: true }
}

/// The ALPN restriction a configured protocol list imposes: none at all
/// when the list is empty, else exactly the listed protocols in order.
pub fn alpn_restriction(protos: Vec<Vec<u8>>) -> (r: Option<Vec<Vec<u8>>>)
    ensures
        protos@.len() == 0 ==> r is None,
        protos@.len() > 0 ==> (r matches Some(p) && p@ == protos@),
{
    if protos.len() == 0 {
        None
    } else {
        Some(protos)
    }
}

} // verus!
