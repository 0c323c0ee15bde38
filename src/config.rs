use vstd::prelude::*;

verus! {

/// Loopback address the server binds to.
pub const HOST: &'static str = "127.0.0.1";

/// TCP port the server binds to.
pub const PORT: u16 = 8083;

/// URL prefix under which the static directory is served.
pub const STATIC_MOUNT: &'static str = "/static";

/// Local directory whose files are served under the mount.
pub const STATIC_DIR: &'static str = "static";

/// Line printed once when the server starts.
pub const LISTENING_MESSAGE: &'static str = "listening on localhost:8083";

/// Message with which the process stops when the address cannot be bound.
pub const BIND_FAILURE: &'static str = "Error binding to port";

/// Where the server listens and what it serves besides the root page.
pub struct ServerConfig {
    pub host: String,
    pub port: u16,
    pub static_mount: String,
    pub static_dir: String,
    pub show_listing: bool,
}

/// What the server does once it has tried to bind its address.
#[derive(PartialEq, Eq, Structural)]
pub enum Startup {
    /// The address is bound: accept and answer requests.
    Serve,
    /// Binding failed: stop the process without answering any request.
    Abort,
}

impl ServerConfig {
    /// The fixed settings: loopback address, port 8083, the `static`
    /// directory mounted at `/static` with directory listings shown.
    pub fn new() -> (r: ServerConfig)
        ensures
            r.host@ == HOST@,
            r.port == 8083,
            r.static_mount@ == STATIC_MOUNT@,
            r.static_dir@ == STATIC_DIR@,
            r.show_listing,
    {
        ServerConfig {
            host: String::from_str(HOST),
            port: PORT,
            static_mount: String::from_str(STATIC_MOUNT),
            static_dir: String::from_str(STATIC_DIR),
            show_listing: true,
        }
    }
}

/// The step after binding: serve only when the address was bound; a failed
/// bind is fatal, with no retry and no other port.
pub fn after_bind(bound: bool) -> (r: Startup)
    ensures
        r == Startup::Serve <==> bound,
        r == Startup::Abort <==> !bound,
{
    if bound {
        Startup::Serve
    } else {
        Startup::Abort
    }
}

} // verus!
