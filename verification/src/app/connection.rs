//! The address/port pair the session connects to.

use vstd::prelude::*;

use crate::decimal::{spec_u64_string, u64_to_string};
use crate::text::push_char;

verus! {

/// A store address: host and port.
#[derive(Debug, Clone, PartialEq)]
pub struct Connection {
    pub addr: String,
    pub port: u16,
}

/// The mathematical shadow of `Connection`.
#[verifier::ext_equal]
pub ghost struct ConnectionView {
    pub addr: Seq<char>,
    pub port: u16,
}

impl View for Connection {
    type V = ConnectionView;

    open spec fn view(&self) -> ConnectionView {
        ConnectionView { addr: self.addr@, port: self.port }
    }
}

/// The connection string: "addr:port".
pub open spec fn spec_connection_string(c: ConnectionView) -> Seq<char> {
    c.addr + seq![':'] + spec_u64_string(c.port as int)
}

impl Connection {
    /// Writes the connection as "addr:port".
    pub fn connection_string(&self) -> (r: String)
        ensures
            r@ == spec_connection_string(self@),
    {
        let digits = u64_to_string(self.port as u64);
        let mut s = self.addr.clone();
        push_char(&mut s, ':');
        let joined = s.concat(digits.as_str());
        proof {
            assert(joined@ =~= spec_connection_string(self@));
        }
        joined
    }
}

} // verus!
