//! The event stores that runs can target: their names, default addresses,
//! container images and readiness polling, and the dummy store.

use vstd::prelude::*;

use crate::adapter::{ConnectionParams, EventData, ReadEvent, ReadRequest};
use crate::text::same_text;

verus! {

/// The address of a store where none is given: per store name, empty for
/// stores without one.
pub open spec fn default_uri_of(store: Seq<char>) -> Seq<char> {
    if store == "umadb"@ {
        "http://localhost:50051"@
    } else if store == "kurrentdb"@ {
        "esdb://localhost:2113?tls=false"@
    } else if store == "axonserver"@ {
        "http://localhost:8124"@
    } else if store == "eventsourcingdb"@ {
        "http://localhost:4000"@
    } else {
        Seq::empty()
    }
}

/// The address of a store where none is given.
pub fn default_uri(store: &str) -> (r: String)
    ensures
        r@ == default_uri_of(store@),
{
    if same_text(store, "umadb") {
        String::from_str("http://localhost:50051")
    } else if same_text(store, "kurrentdb") {
        String::from_str("esdb://localhost:2113?tls=false")
    } else if same_text(store, "axonserver") {
        String::from_str("http://localhost:8124")
    } else if same_text(store, "eventsourcingdb") {
        String::from_str("http://localhost:4000")
    } else {
        String::new()
    }
}

/// A store that accepts every append at once and holds nothing.
#[derive(Debug, Clone, Copy)]
pub struct DummyAdapter;

impl DummyAdapter {
    /// A dummy client; it needs no connection.
    pub fn new(_params: &ConnectionParams) -> (r: Result<Self, String>)
        ensures
            r is Ok,
    {
        Ok(DummyAdapter)
    }

    /// Accepts the event.
    pub fn append(&self, _evt: EventData) -> (ok: bool)
        ensures
            ok,
    {
        true
    }

    /// Reads nothing: the dummy store holds no events.
    pub fn read(&self, _req: &ReadRequest) -> (r: Vec<ReadEvent>)
        ensures
            r@.len() == 0,
    {
        Vec::new()
    }

    /// The round trip it reports, in microseconds.
    pub fn ping_us(&self) -> (r: u64)
        ensures
            r == 1000,
    {
        1000
    }
}

/// The dummy store; it runs without a container.
#[derive(Debug, Clone, Copy)]
pub struct DummyFactory;

impl DummyFactory {
    pub fn name(&self) -> (r: &'static str)
        ensures
            r@ == "dummy"@,
    {
        "dummy"
    }
}

/// UmaDB.
#[derive(Debug, Clone, Copy)]
pub struct UmaDbFactory;

impl UmaDbFactory {
    pub fn name(&self) -> (r: &'static str)
        ensures
            r@ == "umadb"@,
    {
        "umadb"
    }
}

/// KurrentDB.
#[derive(Debug, Clone, Copy)]
pub struct KurrentDbFactory;

impl KurrentDbFactory {
    pub fn name(&self) -> (r: &'static str)
        ensures
            r@ == "kurrentdb"@,
    {
        "kurrentdb"
    }
}

/// Axon Server.
#[derive(Debug, Clone, Copy)]
pub struct AxonServerFactory;

impl AxonServerFactory {
    pub fn name(&self) -> (r: &'static str)
        ensures
            r@ == "axonserver"@,
    {
        "axonserver"
    }
}

/// EventsourcingDB.
#[derive(Debug, Clone, Copy)]
pub struct EventsourcingDbFactory;

impl EventsourcingDbFactory {
    pub fn name(&self) -> (r: &'static str)
        ensures
            r@ == "eventsourcingdb"@,
    {
        "eventsourcingdb"
    }
}

/// Container port of UmaDB's gRPC API.
pub const UMADB_PORT: u16 = 50051;

/// Container port of KurrentDB's HTTP and gRPC API.
pub const KURRENTDB_PORT: u16 = 2113;

/// Container port of Axon Server's gRPC API.
pub const AXONSERVER_GRPC_PORT: u16 = 8124;

/// Container port of Axon Server's HTTP API and dashboard.
pub const AXONSERVER_HTTP_PORT: u16 = 8024;

/// Container port of EventsourcingDB's HTTP API.
pub const EVENTSOURCINGDB_PORT: u16 = 3000;

/// API token of the benchmarking EventsourcingDB container.
pub const EVENTSOURCINGDB_API_TOKEN: &'static str = "secret";

/// The UmaDB image: data on a volume at `volume_target`.
#[derive(Debug, Clone)]
pub struct UmaDb {
    pub volume_target: String,
}

impl UmaDb {
    pub fn name(&self) -> (r: &'static str)
        ensures
            r@ == "umadb/umadb"@,
    {
        "umadb/umadb"
    }

    pub fn tag(&self) -> (r: &'static str)
        ensures
            r@ == "0.4.0"@,
    {
        "0.4.0"
    }

    /// What the container prints once it serves.
    pub fn ready_message(&self) -> (r: Option<&'static str>)
        ensures
            r matches Some(m) && m@ == "UmaDB started"@,
    {
        Some("UmaDB started")
    }

    pub fn expose_ports(&self) -> (r: Vec<u16>)
        ensures
            r@ == seq![UMADB_PORT],
    {
        vec![UMADB_PORT]
    }
}

impl Default for UmaDb {
    fn default() -> (r: Self)
        ensures
            r.volume_target@ == "/data"@,
    {
        UmaDb { volume_target: String::from_str("/data") }
    }
}

/// The KurrentDB image: a single insecure node with its settings in
/// `env_vars` and data on a volume at `volume_target`.
#[derive(Debug, Clone)]
pub struct KurrentDb {
    pub env_vars: Vec<(&'static str, &'static str)>,
    pub volume_target: String,
}

impl KurrentDb {
    pub fn name(&self) -> (r: &'static str)
        ensures
            r@ == "docker.kurrent.io/kurrent-latest/kurrentdb"@,
    {
        "docker.kurrent.io/kurrent-latest/kurrentdb"
    }

    pub fn tag(&self) -> (r: &'static str)
        ensures
            r@ == "25.1.0-x64-8.0-bookworm-slim"@,
    {
        "25.1.0-x64-8.0-bookworm-slim"
    }

    pub fn expose_ports(&self) -> (r: Vec<u16>)
        ensures
            r@ == seq![KURRENTDB_PORT],
    {
        vec![KURRENTDB_PORT]
    }
}

impl Default for KurrentDb {
    fn default() -> (r: Self)
        ensures
            r.env_vars@.len() == 6,
            r.volume_target@ == "/var/lib/kurrentdb"@,
    {
        KurrentDb {
            env_vars: vec![
                ("KURRENTDB_INSECURE", "true"),
                ("KURRENTDB_RUN_PROJECTIONS", "All"),
                ("KURRENTDB_ENABLE_ATOM_PUB_OVER_HTTP", "true"),
                ("KURRENTDB_CLUSTER_SIZE", "1"),
                ("KURRENTDB_MEM_DB", "false"),
                ("KURRENTDB_TELEMETRY_OPTOUT", "true"),
            ],
            volume_target: String::from_str("/var/lib/kurrentdb"),
        }
    }
}

/// The Axon Server image: a standalone node with its settings in `env_vars`.
#[derive(Debug, Clone)]
pub struct AxonServer {
    pub env_vars: Vec<(&'static str, &'static str)>,
}

impl AxonServer {
    pub fn name(&self) -> (r: &'static str)
        ensures
            r@ == "axoniq/axonserver"@,
    {
        "axoniq/axonserver"
    }

    pub fn tag(&self) -> (r: &'static str)
        ensures
            r@ == "latest"@,
    {
        "latest"
    }

    /// What the container prints once it serves.
    pub fn ready_message(&self) -> (r: Option<&'static str>)
        ensures
            r matches Some(m) && m@ == "Started AxonServer"@,
    {
        Some("Started AxonServer")
    }

    pub fn expose_ports(&self) -> (r: Vec<u16>)
        ensures
            r@ == seq![AXONSERVER_GRPC_PORT, AXONSERVER_HTTP_PORT],
    {
        vec![AXONSERVER_GRPC_PORT, AXONSERVER_HTTP_PORT]
    }
}

impl Default for AxonServer {
    fn default() -> (r: Self)
        ensures
            r.env_vars@.len() == 3,
    {
        AxonServer {
            env_vars: vec![
                ("AXONIQ_AXONSERVER_NAME", "bench-axon-server"),
                ("AXONIQ_AXONSERVER_HOSTNAME", "bench-axon-server"),
                ("AXONIQ_AXONSERVER_STANDALONE_DCB", "true"),
            ],
        }
    }
}

/// The EventsourcingDB image: a server with temporary data, plain HTTP and
/// the benchmarking API token, with a volume at `volume_target`.
#[derive(Debug, Clone)]
pub struct EventsourcingDb {
    pub volume_target: String,
}

impl EventsourcingDb {
    pub fn name(&self) -> (r: &'static str)
        ensures
            r@ == "thenativeweb/eventsourcingdb"@,
    {
        "thenativeweb/eventsourcingdb"
    }

    pub fn tag(&self) -> (r: &'static str)
        ensures
            r@ == "1.2.0"@,
    {
        "1.2.0"
    }

    /// The arguments the server starts with.
    pub fn cmd(&self) -> (r: Vec<&'static str>)
        ensures
            r@.len() == 6,
    {
        vec![
            "run",
            "--data-directory-temporary",
            "--https-enabled=false",
            "--http-enabled",
            "--api-token",
            EVENTSOURCINGDB_API_TOKEN,
        ]
    }

    pub fn expose_ports(&self) -> (r: Vec<u16>)
        ensures
            r@ == seq![EVENTSOURCINGDB_PORT],
    {
        vec![EVENTSOURCINGDB_PORT]
    }
}

impl Default for EventsourcingDb {
    fn default() -> (r: Self)
        ensures
            r.volume_target@ == "/var/lib/esdb"@,
    {
        EventsourcingDb { volume_target: String::from_str("/var/lib/esdb") }
    }
}

/// How many readiness probes a container gets before its start fails.
pub const READINESS_ATTEMPTS: u32 = 60;

/// What follows a readiness probe.
#[derive(Debug, Clone, Copy, PartialEq, Eq, Structural)]
pub enum ReadinessStep {
    /// The store answered: the container is up.
    Ready,
    /// Wait a second, then probe again.
    RetryAfterSecond,
    /// The budget of probes is spent: the start fails.
    GiveUp,
}

/// The readiness polling of a starting container: up to
/// `READINESS_ATTEMPTS` probes, a second apart.
#[derive(Debug, Clone, Copy, PartialEq, Eq, Structural)]
pub struct Readiness {
    pub failed_probes: u32,
}

impl Readiness {
    pub fn new() -> (r: Self)
        ensures
            r.failed_probes == 0,
    {
        Readiness { failed_probes: 0 }
    }

    /// Whether the budget allows another probe.
    pub open spec fn may_probe(&self) -> bool {
        self.failed_probes < READINESS_ATTEMPTS
    }

    /// Hands in the result of a probe and says what follows.
    pub fn on_probe(&mut self, probe_ok: bool) -> (r: ReadinessStep)
        requires
            old(self).may_probe(),
        ensures
            probe_ok ==> r == ReadinessStep::Ready && *final(self) == *old(self),
            !probe_ok ==> final(self).failed_probes == old(self).failed_probes + 1,
            !probe_ok && final(self).may_probe() ==> r == ReadinessStep::RetryAfterSecond,
            !probe_ok && !final(self).may_probe() ==> r == ReadinessStep::GiveUp,
    {
        if probe_ok {
            return ReadinessStep::Ready;
        }
        self.failed_probes = self.failed_probes + 1;
        if self.failed_probes < READINESS_ATTEMPTS {
            ReadinessStep::RetryAfterSecond
        } else {
            ReadinessStep::GiveUp
        }
    }
}

} // verus!
