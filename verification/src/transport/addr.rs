//! Socket addresses as plain values, and their stable text form.
use vstd::prelude::*;

use crate::text::{decimal, hexadecimal, joined, push_decimal, push_hexadecimal};

verus! {

/// An address that a transport listens on or connects to.
#[allow(inconsistent_fields)]
#[derive(Clone, Copy, Debug, PartialEq, Eq, PartialOrd, Ord, Hash)]
pub enum TransportSocketAddr {
    V4 { addr: [u8; 4], port: u16 },
    V6 { addr: [u16; 8], port: u16 },
}

/// The segments of an address in hexadecimal.
pub open spec fn segment_texts(addr: Seq<u16>) -> Seq<Seq<char>> {
    addr.map_values(|segment: u16| hexadecimal(segment as nat))
}

/// The text form of an address: dotted decimal with a port, or all eight segments in lower-case
/// hexadecimal, between brackets and without compression, with a port.
pub open spec fn addr_text(addr: TransportSocketAddr) -> Seq<char> {
    match addr {
        TransportSocketAddr::V4 { addr, port } => decimal(addr@[0] as nat) + "."@ + decimal(
            addr@[1] as nat,
        ) + "."@ + decimal(addr@[2] as nat) + "."@ + decimal(addr@[3] as nat) + ":"@ + decimal(
            port as nat,
        ),
        TransportSocketAddr::V6 { addr, port } => "["@ + joined(segment_texts(addr@), ":"@)
            + "]:"@ + decimal(port as nat),
    }
}

impl TransportSocketAddr {
    /// The segments of the address, where it has any.
    pub fn as_ipv6_addr(&self) -> (segments: Option<[u16; 8]>)
        ensures
            segments is Some <==> *self is V6,
            segments is Some ==> segments->0 == self->V6_addr,
    {
        match self {
            TransportSocketAddr::V6 { addr, .. } => Some(*addr),
            TransportSocketAddr::V4 { .. } => None,
        }
    }

    /// The text form of the address.
    pub fn to_text(&self) -> (text: String)
        ensures
            text@ == addr_text(*self),
    {
        let mut text = String::new();
        match self {
            TransportSocketAddr::V4 { addr, port } => {
                push_decimal(&mut text, addr[0] as u64);
                proof {
                    assert(Seq::<char>::empty() + decimal(addr@[0] as nat) =~= decimal(
                        addr@[0] as nat,
                    ));
                }
                text.append(".");
                push_decimal(&mut text, addr[1] as u64);
                text.append(".");
                push_decimal(&mut text, addr[2] as u64);
                text.append(".");
                push_decimal(&mut text, addr[3] as u64);
                text.append(":");
                push_decimal(&mut text, *port as u64);
            },
            TransportSocketAddr::V6 { addr, port } => {
                text.append("[");
                proof {
                    assert(text@ =~= "["@);
                }
                let ghost all = segment_texts(addr@);
                proof {
                    assert(text@ + joined(all.take(0), ":"@) =~= text@);
                }
                let mut i: usize = 0;
                while i < 8
                    invariant
                        i <= 8,
                        all == segment_texts(addr@),
                        text@ == "["@ + joined(all.take(i as int), ":"@),
                    decreases 8 - i,
                {
                    proof {
                        assert(all.take(i + 1).drop_last() == all.take(i as int));
                        if i == 0 {
                            assert("["@ + Seq::<char>::empty() + all[0] =~= "["@ + all[0]);
                        } else {
                            assert("["@ + joined(all.take(i as int), ":"@) + ":"@ + all[i as int]
                                =~= "["@ + joined(all.take(i + 1), ":"@));
                        }
                    }
                    if i > 0 {
                        text.append(":");
                    }
                    push_hexadecimal(&mut text, addr[i] as u64);
                    i = i + 1;
                }
                proof {
                    assert(all.take(8) == all);
                }
                text.append("]:");
                push_decimal(&mut text, *port as u64);
            },
        }
        text
    }
}

} // verus!
