//! The adapter's status report and the port states decoded from it.
use vstd::prelude::*;

use crate::text::{hex_char, hex_digit};

verus! {

/// Length in bytes of a status report.
pub const REPORT_LEN: usize = 37;

/// Number of controller ports on the adapter.
pub const PORT_COUNT: usize = 4;

/// Length in bytes of one port's record in the report.
pub const PORT_RECORD_LEN: usize = 9;

/// Status byte of a port with a wired controller plugged in.
pub const STATUS_WIRED: u8 = 0x10;

/// Status byte of a port with a wireless controller plugged in.
pub const STATUS_WIRELESS: u8 = 0x14;

/// Whether a port's status byte says that something is plugged in.
pub open spec fn status_plugged(b: u8) -> bool {
    b == STATUS_WIRED || b == STATUS_WIRELESS
}

/// Offset in the report of port `p`'s status byte.
pub open spec fn status_offset(p: int) -> int {
    9 * p + 1
}

/// Whether port `p` is plugged in according to `report`.
pub open spec fn port_plugged(report: Seq<u8>, p: int) -> bool {
    status_plugged(report[status_offset(p)])
}

/// Plugged state of each of the four ports, port 0 first.
#[derive(Clone, Copy, Debug, PartialEq, Eq)]
pub struct PortStates {
    pub plugged: [bool; 4],
}

/// The port states that `report` decodes to.
pub open spec fn decode_spec(report: [u8; 37]) -> PortStates {
    PortStates {
        plugged: [
            port_plugged(report@, 0),
            port_plugged(report@, 1),
            port_plugged(report@, 2),
            port_plugged(report@, 3),
        ],
    }
}

/// Whether port `port` (numbered from 0) is plugged in according to `report`.
pub fn port_plugged_in(report: &[u8; 37], port: usize) -> (r: bool)
    requires
        port < PORT_COUNT,
    ensures
        r == port_plugged(report@, port as int),
        r <==> (report@[9 * port + 1] == 20 || report@[9 * port + 1] == 16),
{
    let b = report[PORT_RECORD_LEN * port + 1];
    b == STATUS_WIRED || b == STATUS_WIRELESS
}

/// Decodes the four port states of a status report.
pub fn decode_report(report: &[u8; 37]) -> (r: PortStates)
    ensures
        r == decode_spec(*report),
        forall|p: int|
            0 <= p < 4 ==> #[trigger] r.plugged@[p] == (report@[9 * p + 1] == 20 || report@[9 * p
                + 1] == 16),
{
    let r = PortStates {
        plugged: [
            port_plugged_in(report, 0),
            port_plugged_in(report, 1),
            port_plugged_in(report, 2),
            port_plugged_in(report, 3),
        ],
    };
    assert(r.plugged@[0] == port_plugged(report@, 0));
    assert(r.plugged@[1] == port_plugged(report@, 1));
    assert(r.plugged@[2] == port_plugged(report@, 2));
    assert(r.plugged@[3] == port_plugged(report@, 3));
    r
}

/// The line that reports port `p` (numbered from 0; shown numbered from 1).
pub open spec fn port_line_text(p: nat, plugged: bool) -> Seq<char> {
    "GC Adapter port "@ + seq![hex_char(p + 1)] + if plugged {
        ": plugged in"@
    } else {
        ": unplugged"@
    }
}

/// The line that reports port `port` (numbered from 0) as plugged in or not.
pub fn port_line(port: usize, plugged: bool) -> (r: String)
    requires
        port < PORT_COUNT,
    ensures
        r@ == port_line_text(port as nat, plugged),
{
    let mut s = String::from_str("GC Adapter port ");
    s.append(hex_digit(port as u16 + 1));
    if plugged {
        s.append(": plugged in");
    } else {
        s.append(": unplugged");
    }
    s
}

impl PortStates {
    /// Whether port `port` (numbered from 0) is plugged in.
    pub fn is_plugged_in(&self, port: usize) -> (r: bool)
        requires
            port < PORT_COUNT,
        ensures
            r == self.plugged@[port as int],
    {
        self.plugged[port]
    }

    /// One line per port, port 0 first, saying whether it is plugged in.
    pub fn lines(&self) -> (r: Vec<String>)
        ensures
            r@.len() == PORT_COUNT,
            forall|p: int|
                0 <= p < 4 ==> #[trigger] r@[p]@ == port_line_text(p as nat, self.plugged@[p]),
    {
        let mut r: Vec<String> = Vec::new();
        let mut port: usize = 0;
        while port < PORT_COUNT
            invariant
                port <= PORT_COUNT,
                r@.len() == port,
                forall|p: int|
                    0 <= p < port ==> #[trigger] r@[p]@ == port_line_text(
                        p as nat,
                        self.plugged@[p],
                    ),
            decreases PORT_COUNT - port,
        {
            r.push(port_line(port, self.plugged[port]));
            port = port + 1;
        }
        r
    }
}

} // verus!
