//! The command-line surface: the store address and port, with their
//! defaults. Reading the actual arguments is the runner's business; this
//! module decides what they mean.

use vstd::prelude::*;

use crate::app::connection::Connection;

verus! {

/// The two command-line inputs: store address and port.
#[derive(Debug, Clone, PartialEq)]
pub struct CliArgs {
    pub addr: String,
    pub port: u16,
}

/// Fills the arguments with their defaults where none were given: address
/// "127.0.0.1", port 2181.
pub fn parse_cli(addr: Option<String>, port: Option<u16>) -> (r: CliArgs)
    ensures
        r.addr@ == (match addr {
            Some(a) => a@,
            None => "127.0.0.1"@,
        }),
        r.port == (match port {
            Some(p) => p,
            None => 2181u16,
        }),
{
    let addr = match addr {
        Some(a) => a,
        None => "127.0.0.1".to_owned(),
    };
    let port = match port {
        Some(p) => p,
        None => 2181,
    };
    CliArgs { addr, port }
}

impl CliArgs {
    /// The connection these arguments name.
    pub fn connection(&self) -> (r: Connection)
        ensures
            r@.addr == self.addr@,
            r@.port == self.port,
    {
        Connection { addr: self.addr.clone(), port: self.port }
    }
}

} // verus!
