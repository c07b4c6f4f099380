//! What an application process runs: the client, the server, or both.
use vstd::prelude::*;

verus! {

/// Which local capabilities the application has.
///
/// `HostClient` runs the authoritative simulation and the presentation in one
/// process; it is meant for local development and debugging.
#[derive(Debug, Clone, Copy, PartialEq, Eq, Structural)]
pub enum AppMode {
    Client,
    Server,
    HostClient,
}

impl AppMode {
    /// The mode used when nothing else is asked for.
    pub fn default_mode() -> (m: AppMode)
        ensures
            m == AppMode::HostClient,
    {
        AppMode::HostClient
    }

    /// Whether the process presents the game to a player.
    pub fn has_client(self) -> (b: bool)
        ensures
            b <==> (self == AppMode::Client || self == AppMode::HostClient),
    {
        matches!(self, AppMode::Client | AppMode::HostClient)
    }

    /// Whether the process runs the authoritative simulation.
    pub fn has_server(self) -> (b: bool)
        ensures
            b <==> (self == AppMode::Server || self == AppMode::HostClient),
    {
        matches!(self, AppMode::Server | AppMode::HostClient)
    }
}

/// The network identity a client process uses: an explicit non-zero override
/// as given, otherwise the generated value, with zero (Lightyear's placeholder
/// for a missing identity) lifted to one.
pub fn choose_client_id(override_id: Option<u64>, generated: u64) -> (id: u64)
    ensures
        id != 0,
        (override_id matches Some(o) && o != 0) ==> id == override_id->0,
        !(override_id matches Some(o) && o != 0) ==> id == (if generated == 0 { 1 } else { generated }),
{
    if let Some(id) = override_id {
        if id != 0 {
            return id;
        }
    }
    if generated == 0 {
        1
    } else {
        generated
    }
}

/// The identity mixed for a client that was given none: the process id in
/// the high half, xor the wall-clock nanoseconds, xor a per-process sequence
/// number, and never zero.
pub open spec fn mixed_client_id(process_id: u32, timestamp_nanos: u64, sequence: u64) -> u64 {
    let mixed = (((process_id as u64) << 32u64) ^ timestamp_nanos) ^ sequence;
    if mixed == 0 {
        1
    } else {
        mixed
    }
}

/// Mixes a client identity from the process id, the time and a sequence
/// number; the caller reads those three from the machine.
pub fn generated_client_id(process_id: u32, timestamp_nanos: u64, sequence: u64) -> (id: u64)
    ensures
        id == mixed_client_id(process_id, timestamp_nanos, sequence),
        id != 0,
{
    let high: u64 = (process_id as u64) << 32u64;
    let mixed = (high ^ timestamp_nanos) ^ sequence;
    if mixed == 0 {
        1
    } else {
        mixed
    }
}

/// Two identities mixed from the same process and time but different
/// sequence numbers differ, unless one of them was lifted from zero.
pub proof fn law_sequence_separates_client_ids(
    process_id: u32,
    timestamp_nanos: u64,
    first: u64,
    second: u64,
)
    requires
        first != second,
        (((process_id as u64) << 32u64) ^ timestamp_nanos) ^ first != 0,
        (((process_id as u64) << 32u64) ^ timestamp_nanos) ^ second != 0,
    ensures
        mixed_client_id(process_id, timestamp_nanos, first) != mixed_client_id(
            process_id,
            timestamp_nanos,
            second,
        ),
{
    let base: u64 = ((process_id as u64) << 32u64) ^ timestamp_nanos;
    assert((base ^ first) == (base ^ second) ==> first == second) by (bit_vector);
}

/// The server address a mode uses: the command line's, else from the
/// settings, the one a client connects to (client and host-client modes) or
/// the one a server binds (server mode).
pub fn server_address(
    mode: AppMode,
    override_addr: Option<String>,
    client_server_addr: String,
    server_bind_addr: String,
) -> (addr: String)
    ensures
        override_addr matches Some(a) ==> addr@ == a@,
        override_addr is None && mode == AppMode::Server ==> addr@ == server_bind_addr@,
        override_addr is None && mode != AppMode::Server ==> addr@ == client_server_addr@,
{
    match override_addr {
        Some(a) => a,
        None => match mode {
            AppMode::Server => server_bind_addr,
            _ => client_server_addr,
        },
    }
}

} // verus!
