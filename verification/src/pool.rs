//! Connection-pool bookkeeping: the directory of port names with live
//! connections. Opening, probing and closing the serial port are I/O and
//! stay with the caller, which reports their outcomes; the pool decides
//! what each outcome means and guarantees one entry per port name.

use vstd::prelude::*;
use vstd::string::StringExecFns;

verus! {

/// What the pool reports for a named port.
#[derive(Debug, Clone, PartialEq)]
pub enum ConnectionState {
    Disconnected,
    Connected,
    Error(String),
}

/// Identity of one serial port as shown to clients.
#[derive(Debug, Clone, PartialEq)]
pub struct COMPortInfo {
    pub port: String,
    pub description: String,
    pub manufacturer: Option<String>,
    pub serial_number: Option<String>,
    pub vendor_id: Option<u16>,
    pub product_id: Option<u16>,
    pub port_type: String,
}

/// The directory of connected port names. Each name appears at most
/// once; the serial handles themselves live with the caller, keyed by
/// the same names.
pub struct ConnectionPool {
    ports: Vec<String>,
}

impl ConnectionPool {
    /// The connected port names, in insertion order.
    pub closed spec fn names(self) -> Seq<Seq<char>> {
        self.ports@.map_values(|s: String| s@)
    }

    /// Whether the named port has a pool entry.
    pub open spec fn contains_name(self, name: Seq<char>) -> bool {
        self.names().contains(name)
    }

    /// No port name appears twice.
    pub open spec fn wf(self) -> bool {
        forall|i: int, j: int|
            0 <= i < j < self.names().len() ==> self.names()[i] != self.names()[j]
    }

    /// An empty pool.
    pub fn new() -> (r: ConnectionPool)
        ensures
            r.wf(),
            r.names().len() == 0,
    {
        let r = ConnectionPool { ports: Vec::new() };
        proof {
            assert(r.names() =~= Seq::<Seq<char>>::empty());
        }
        r
    }

    /// Whether the named port has a pool entry.
    pub fn contains_port(&self, port_name: &String) -> (r: bool)
        ensures
            r == self.contains_name(port_name@),
    {
        let mut k: usize = 0;
        while k < self.ports.len()
            invariant
                0 <= k <= self.ports@.len(),
                forall|i: int| 0 <= i < k ==> self.names()[i] != port_name@,
            decreases self.ports@.len() - k,
        {
            if self.ports[k] == *port_name {
                assert(self.names()[k as int] == port_name@);
                return true;
            }
            k = k + 1;
        }
        false
    }

    /// Insert the named port, treating a name already present as already
    /// connected. The caller opens the serial port only when the name is
    /// new and passes the outcome in `open_ok`; on a failed open nothing
    /// is inserted.
    pub fn connect_to_port(&mut self, port_name: String, open_ok: bool) -> (r: Result<
        String,
        String,
    >)
        requires
            old(self).wf(),
        ensures
            final(self).wf(),
            old(self).contains_name(port_name@) ==> ((r matches Ok(m) && m@
                == "Already connected to "@ + port_name@) && final(self).names() == old(
                self,
            ).names()),
            !old(self).contains_name(port_name@) && open_ok ==> ((r matches Ok(m) && m@
                == "Connected to "@ + port_name@) && final(self).names() == old(
                self,
            ).names().push(port_name@)),
            !old(self).contains_name(port_name@) && !open_ok ==> ((r matches Err(m) && m@
                == "Failed to open port "@ + port_name@) && final(self).names() == old(
                self,
            ).names()),
    {
        if self.contains_port(&port_name) {
            let mut m = "Already connected to ".to_owned();
            m.append(port_name.as_str());
            Ok(m)
        } else if open_ok {
            let ghost old_names = self.names();
            let mut m = "Connected to ".to_owned();
            m.append(port_name.as_str());
            let ghost name_view = port_name@;
            self.ports.push(port_name);
            proof {
                assert(self.names() =~= old_names.push(name_view));
            }
            Ok(m)
        } else {
            let mut m = "Failed to open port ".to_owned();
            m.append(port_name.as_str());
            Err(m)
        }
    }

    /// Remove the named port's entry; the caller then closes its serial
    /// handle. A name with no entry is an error.
    #[verifier::loop_isolation(false)]
    pub fn disconnect_from_port(&mut self, port_name: &String) -> (r: Result<String, String>)
        requires
            old(self).wf(),
        ensures
            final(self).wf(),
            old(self).contains_name(port_name@) ==> ((r matches Ok(m) && m@
                == "Disconnected from "@ + port_name@) && !final(self).contains_name(port_name@)
                && exists|i: int|
                0 <= i < old(self).names().len() && old(self).names()[i] == port_name@
                    && final(self).names() == old(self).names().remove(i)),
            !old(self).contains_name(port_name@) ==> ((r matches Err(m) && m@
                == "No connection found for "@ + port_name@) && final(self).names()
                == old(self).names()),
    {
        let ghost old_names = self.names();
        let mut k: usize = 0;
        while k < self.ports.len()
            invariant
                0 <= k <= self.ports@.len(),
                forall|i: int| 0 <= i < k ==> self.names()[i] != port_name@,
                self.names() == old_names,
                *self == *old(self),
            decreases self.ports@.len() - k,
        {
            if self.ports[k] == *port_name {
                assert(self.names()[k as int] == port_name@);
                self.ports.remove(k);
                proof {
                    old_names.remove_ensures(k as int);
                    assert(old_names == old(self).names());
                    assert(self.names() =~= old_names.remove(k as int));
                    assert forall|i: int| 0 <= i < self.names().len() implies self.names()[i]
                        != port_name@ by {
                        if i < k {
                            assert(self.names()[i] == old_names[i]);
                        } else {
                            assert(self.names()[i] == old_names[i + 1]);
                            assert(old(self).names()[k as int] != old(self).names()[i + 1]);
                        }
                    }
                    assert forall|a: int, b: int|
                        0 <= a < b < self.names().len() implies self.names()[a]
                        != self.names()[b] by {
                        if b < k {
                            assert(self.names()[a] == old_names[a]);
                            assert(self.names()[b] == old_names[b]);
                            assert(old(self).names()[a] != old(self).names()[b]);
                        } else if a < k {
                            assert(self.names()[a] == old_names[a]);
                            assert(self.names()[b] == old_names[b + 1]);
                            assert(old(self).names()[a] != old(self).names()[b + 1]);
                        } else {
                            assert(self.names()[a] == old_names[a + 1]);
                            assert(self.names()[b] == old_names[b + 1]);
                            assert(old(self).names()[a + 1] != old(self).names()[b + 1]);
                        }
                    }
                }
                let mut m = "Disconnected from ".to_owned();
                m.append(port_name.as_str());
                return Ok(m);
            }
            k = k + 1;
        }
        let mut m = "No connection found for ".to_owned();
        m.append(port_name.as_str());
        Err(m)
    }

    /// The state of the named port: `Disconnected` without an entry;
    /// with one, the outcome of the caller's liveness probe (a PING
    /// write, which is only attempted for pooled ports) decides between
    /// `Connected` and a connection-lost error.
    pub fn get_connection_status(&self, port_name: &String, probe_ok: bool) -> (r: ConnectionState)
        ensures
            !self.contains_name(port_name@) ==> r == ConnectionState::Disconnected,
            self.contains_name(port_name@) && probe_ok ==> r == ConnectionState::Connected,
            self.contains_name(port_name@) && !probe_ok ==> (r matches ConnectionState::Error(m)
                && m@ == "Connection lost"@),
    {
        if !self.contains_port(port_name) {
            ConnectionState::Disconnected
        } else if probe_ok {
            ConnectionState::Connected
        } else {
            ConnectionState::Error("Connection lost".to_owned())
        }
    }
}

} // verus!
