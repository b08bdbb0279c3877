//! The proxy server's control state: the loopback port it listens on and
//! the running flag its accept loop is guarded by.  Binding the listener,
//! accepting connections and spawning handler tasks are the runtime's; the
//! transitions and the bind-failure report are decided here.

use vstd::prelude::*;
use crate::handler::{dec_digits, u32_to_string, SockAddr};

verus! {

/// The proxy server's control state.  It starts stopped; a successful bind
/// sets the running flag the accept loop polls; stopping clears the flag so
/// no new connection is accepted, while connections already running drain
/// on their own.
pub struct ProxyServer {
    port: u16,
    running: bool,
}

impl ProxyServer {
    /// The port the server was created for.
    pub closed spec fn spec_port(&self) -> u16 {
        self.port
    }

    /// Whether the accept loop should keep accepting.
    pub closed spec fn spec_running(&self) -> bool {
        self.running
    }

    /// A stopped server for the given port.
    pub fn new(port: u16) -> (r: ProxyServer)
        ensures
            r.spec_port() == port,
            !r.spec_running(),
    {
        ProxyServer { port, running: false }
    }

    /// The port the server listens on.
    pub fn port(&self) -> (r: u16)
        ensures
            r == self.spec_port(),
    {
        self.port
    }

    /// Whether the server is accepting connections.
    pub fn is_running(&self) -> (r: bool)
        ensures
            r == self.spec_running(),
    {
        self.running
    }

    /// The loopback address the listener binds: 127.0.0.1 on the server's
    /// port, never a public interface.
    pub fn bind_addr(&self) -> (r: SockAddr)
        ensures
            r.ip_a == 127,
            r.ip_b == 0,
            r.ip_c == 0,
            r.ip_d == 1,
            r.port == self.spec_port(),
    {
        SockAddr { ip_a: 127, ip_b: 0, ip_c: 0, ip_d: 1, port: self.port }
    }

    /// Record the outcome of binding the listener: success starts the
    /// accept loop; failure leaves the server stopped and reports which
    /// port could not be bound and why.
    pub fn on_bind(&mut self, bound: bool, error: String) -> (r: Result<(), String>)
        ensures
            final(self).spec_port() == old(self).spec_port(),
            bound ==> r is Ok && final(self).spec_running(),
            !bound ==> {
                &&& r is Err
                &&& !final(self).spec_running()
                &&& r.unwrap_err()@ == "Failed to bind port "@ + dec_digits(
                    old(self).spec_port() as nat,
                ) + ": "@ + error@
            },
    {
        if bound {
            self.running = true;
            Ok(())
        } else {
            self.running = false;
            let mut msg = "Failed to bind port ".to_owned();
            let port_text = u32_to_string(self.port as u32);
            assert(port_text@ == dec_digits(self.port as nat));
            msg.append(port_text.as_str());
            msg.append(": ");
            msg.append(error.as_str());
            assert(msg@ == "Failed to bind port "@ + dec_digits(old(self).spec_port() as nat)
                + ": "@ + error@);
            Err(msg)
        }
    }

    /// Stop accepting new connections; in-flight connections drain.
    pub fn stop(&mut self)
        ensures
            final(self).spec_port() == old(self).spec_port(),
            !final(self).spec_running(),
    {
        self.running = false;
    }
}

} // verus!
