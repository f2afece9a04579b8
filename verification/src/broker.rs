//! The broker bootstrap's fixed settings.
//!
//! The messaging transport itself is an external collaborator; the
//! library only decides the listener and router settings it is started
//! with. The binary converts them into the transport's own configuration
//! types, binds the listeners, and runs the broker for the lifetime of the
//! process.

use vstd::prelude::*;

verus! {

/// The settings of one listener endpoint, bound on all interfaces at the
/// given port.
pub struct ListenerSettings {
    pub port: u16,
    pub next_connection_delay_ms: u64,
    pub connection_timeout_ms: u16,
    pub max_payload_size: usize,
    pub max_inflight_count: usize,
}

/// The settings of the broker's message router.
pub struct RouterSettings {
    pub max_connections: usize,
    pub max_outgoing_packet_count: u64,
    pub max_segment_size: usize,
    pub max_segment_count: usize,
}

/// The whole broker configuration: a plain TCP listener, a web-socket
/// listener, and the router limits.
pub struct BrokerSettings {
    pub tcp: ListenerSettings,
    pub ws: ListenerSettings,
    pub router: RouterSettings,
}

/// The fixed settings the broker is started with: the plain listener on
/// port 8000 and the web-socket listener on port 8001, both with the same
/// connection limits, and the router limits.
pub fn broker_settings() -> (r: BrokerSettings)
    ensures
        r.tcp.port == 8000,
        r.tcp.next_connection_delay_ms == 1,
        r.tcp.connection_timeout_ms == 5000,
        r.tcp.max_payload_size == 20480,
        r.tcp.max_inflight_count == 500,
        r.ws.port == 8001,
        r.ws.next_connection_delay_ms == 1,
        r.ws.connection_timeout_ms == 5000,
        r.ws.max_payload_size == 20480,
        r.ws.max_inflight_count == 500,
        r.router.max_connections == 10010,
        r.router.max_outgoing_packet_count == 200,
        r.router.max_segment_size == 104856700,
        r.router.max_segment_count == 10,
{
    BrokerSettings {
        tcp: ListenerSettings {
            port: 8000,
            next_connection_delay_ms: 1,
            connection_timeout_ms: 5000,
            max_payload_size: 20480,
            max_inflight_count: 500,
        },
        ws: ListenerSettings {
            port: 8001,
            next_connection_delay_ms: 1,
            connection_timeout_ms: 5000,
            max_payload_size: 20480,
            max_inflight_count: 500,
        },
        router: RouterSettings {
            max_connections: 10010,
            max_outgoing_packet_count: 200,
            max_segment_size: 104856700,
            max_segment_count: 10,
        },
    }
}

} // verus!
