//! The server's configuration: the port it listens on, and the address that
//! follows from it.

use vstd::prelude::*;

verus! {

/// The environment variable that may name the port.
pub const PORT_VARIABLE: &'static str = "PORT";

/// The port that is used when the variable gives none.
pub const DEFAULT_PORT: &'static str = "4000";

/// The host part of the listening address: every interface.
pub const BIND_HOST: &'static str = "0.0.0.0";

/// What precedes the address in the line that announces the listener.
pub const LISTENING_PREFIX: &'static str = "listening on ";

/// The port that a value of the variable resolves to: the value as it is,
/// or the default where there is none.
pub open spec fn resolved_port(value: Option<Seq<char>>) -> Seq<char> {
    match value {
        Some(port) => port,
        None => DEFAULT_PORT@,
    }
}

/// The listening address for a port: the host, a colon, the port.
pub open spec fn address_of(port: Seq<char>) -> Seq<char> {
    BIND_HOST@.push(':') + port
}

/// The line that announces the listener at `address`.
pub open spec fn listening_line_of(address: Seq<char>) -> Seq<char> {
    LISTENING_PREFIX@ + address
}

/// The configuration of one server process. The port is kept as text and is
/// not checked: a value that is no port fails when the listener is bound.
#[derive(Debug, PartialEq, Eq)]
pub struct ServerConfig {
    pub port: String,
}

impl View for ServerConfig {
    type V = Seq<char>;

    open spec fn view(&self) -> Seq<char> {
        self.port@
    }
}

impl ServerConfig {
    /// Builds the configuration from what the port variable holds, `None`
    /// standing for a variable that is not set.
    pub fn from_variable(value: Option<String>) -> (config: ServerConfig)
        ensures
            config@ == resolved_port(value.deep_view()),
    {
        match value {
            Some(port) => ServerConfig { port },
            None => ServerConfig { port: String::from_str(DEFAULT_PORT) },
        }
    }

    /// The address to bind the listener to.
    pub fn bind_address(&self) -> (address: String)
        ensures
            address@ == address_of(self@),
    {
        let address = String::from_str(BIND_HOST).concat(":").concat(self.port.as_str());
        proof {
            reveal_strlit(":");
            assert(":"@ =~= seq![':']);
            assert(address@ =~= address_of(self@));
        }
        address
    }
}

/// The line that the server prints once it knows its address.
pub fn listening_line(address: &str) -> (line: String)
    ensures
        line@ == listening_line_of(address@),
{
    String::from_str(LISTENING_PREFIX).concat(address)
}

} // verus!
