use vstd::prelude::*;
use vstd::string::*;

use crate::types::TcpInfo;

verus! {

/// The canonical display form of a TCP flag set: eight characters, one per
/// flag in the fixed order CWR, ECE, URG, ACK, PSH, RST, SYN, FIN, with the
/// flag's letter when it is set and `.` when it is not.
pub open spec fn tcp_flags_seq(t: TcpInfo) -> Seq<char> {
    seq![
        if t.cwr { 'C' } else { '.' },
        if t.ece { 'E' } else { '.' },
        if t.urg { 'U' } else { '.' },
        if t.ack { 'A' } else { '.' },
        if t.psh { 'P' } else { '.' },
        if t.rst { 'R' } else { '.' },
        if t.syn { 'S' } else { '.' },
        if t.fin { 'F' } else { '.' },
    ]
}

/// Formats a TCP flag set as its fixed 8-character display string.
pub fn tcp_flags_as_string(t: &TcpInfo) -> (r: String)
    ensures
        r@ == tcp_flags_seq(*t),
{
    proof {
        reveal_strlit("C");
        reveal_strlit("E");
        reveal_strlit("U");
        reveal_strlit("A");
        reveal_strlit("P");
        reveal_strlit("R");
        reveal_strlit("S");
        reveal_strlit("F");
        reveal_strlit(".");
    }
    let mut s = String::new();
    s.append(if t.cwr { "C" } else { "." });
    s.append(if t.ece { "E" } else { "." });
    s.append(if t.urg { "U" } else { "." });
    s.append(if t.ack { "A" } else { "." });
    s.append(if t.psh { "P" } else { "." });
    s.append(if t.rst { "R" } else { "." });
    s.append(if t.syn { "S" } else { "." });
    s.append(if t.fin { "F" } else { "." });
    proof {
        assert(s@ =~= tcp_flags_seq(*t));
    }
    s
}

} // verus!
