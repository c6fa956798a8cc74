//! Addresses, endpoints and the TCP segment as the engine reads and writes it.

use vstd::prelude::*;
use crate::sequence::SeqNumber;

verus! {

/// An IPv4 address, as its 32 bits in network order.
#[derive(Clone, Copy, Debug, PartialEq, Eq, Structural)]
pub struct Ipv4Address {
    pub bits: u32,
}

/// A link-layer address, as its 48 bits in the low part of a `u64`.
#[derive(Clone, Copy, Debug, PartialEq, Eq, Structural)]
pub struct MacAddress {
    pub bits: u64,
}

/// One side of a connection.
#[derive(Clone, Copy, Debug, PartialEq, Eq, Structural)]
pub struct Endpoint {
    pub addr: Ipv4Address,
    pub port_no: u16,
}

impl Endpoint {
    pub fn new(addr: Ipv4Address, port_no: u16) -> (r: Endpoint)
        ensures
            r.addr == addr,
            r.port_no == port_no,
    {
        Endpoint { addr, port_no }
    }

    pub fn address(&self) -> (r: Ipv4Address)
        ensures
            r == self.addr,
    {
        self.addr
    }

    pub fn port(&self) -> (r: u16)
        ensures
            r == self.port_no,
    {
        self.port_no
    }
}

/// The header fields of one TCP segment, with the IPv4 addresses it travels
/// between.
#[derive(Clone, Copy, Debug, PartialEq, Eq)]
pub struct TcpSegment {
    pub src_ipv4_addr: Option<Ipv4Address>,
    pub src_port: Option<u16>,
    pub dest_ipv4_addr: Option<Ipv4Address>,
    pub dest_port: Option<u16>,
    pub seq_num: SeqNumber,
    pub ack_num: SeqNumber,
    pub window_size: u16,
    pub window_scale: Option<u8>,
    pub mss: Option<u16>,
    pub syn: bool,
    pub ack: bool,
    pub fin: bool,
    pub rst: bool,
}

/// The segment with nothing set: no addresses, no flags, all numbers zero.
pub open spec fn empty_segment() -> TcpSegment {
    TcpSegment {
        src_ipv4_addr: None,
        src_port: None,
        dest_ipv4_addr: None,
        dest_port: None,
        seq_num: SeqNumber { value: 0 },
        ack_num: SeqNumber { value: 0 },
        window_size: 0,
        window_scale: None,
        mss: None,
        syn: false,
        ack: false,
        fin: false,
        rst: false,
    }
}

impl Default for TcpSegment {
    fn default() -> (r: TcpSegment)
        ensures
            r == empty_segment(),
    {
        TcpSegment {
            src_ipv4_addr: None,
            src_port: None,
            dest_ipv4_addr: None,
            dest_port: None,
            seq_num: SeqNumber { value: 0 },
            ack_num: SeqNumber { value: 0 },
            window_size: 0,
            window_scale: None,
            mss: None,
            syn: false,
            ack: false,
            fin: false,
            rst: false,
        }
    }
}

impl TcpSegment {
    pub fn src_ipv4_addr(self, addr: Ipv4Address) -> (r: TcpSegment)
        ensures
            r == (TcpSegment { src_ipv4_addr: Some(addr), ..self }),
    {
        TcpSegment { src_ipv4_addr: Some(addr), ..self }
    }

    pub fn src_port(self, port: u16) -> (r: TcpSegment)
        ensures
            r == (TcpSegment { src_port: Some(port), ..self }),
    {
        TcpSegment { src_port: Some(port), ..self }
    }

    pub fn dest_ipv4_addr(self, addr: Ipv4Address) -> (r: TcpSegment)
        ensures
            r == (TcpSegment { dest_ipv4_addr: Some(addr), ..self }),
    {
        TcpSegment { dest_ipv4_addr: Some(addr), ..self }
    }

    pub fn dest_port(self, port: u16) -> (r: TcpSegment)
        ensures
            r == (TcpSegment { dest_port: Some(port), ..self }),
    {
        TcpSegment { dest_port: Some(port), ..self }
    }

    pub fn seq_num(self, value: SeqNumber) -> (r: TcpSegment)
        ensures
            r == (TcpSegment { seq_num: value, ..self }),
    {
        TcpSegment { seq_num: value, ..self }
    }

    /// Sets the acknowledgment number and raises the ACK flag.
    pub fn ack(self, value: SeqNumber) -> (r: TcpSegment)
        ensures
            r == (TcpSegment { ack: true, ack_num: value, ..self }),
    {
        TcpSegment { ack: true, ack_num: value, ..self }
    }

    pub fn window_size(self, value: u16) -> (r: TcpSegment)
        ensures
            r == (TcpSegment { window_size: value, ..self }),
    {
        TcpSegment { window_size: value, ..self }
    }

    pub fn window_scale(self, value: u8) -> (r: TcpSegment)
        ensures
            r == (TcpSegment { window_scale: Some(value), ..self }),
    {
        TcpSegment { window_scale: Some(value), ..self }
    }

    pub fn mss(self, value: u16) -> (r: TcpSegment)
        ensures
            r == (TcpSegment { mss: Some(value), ..self }),
    {
        TcpSegment { mss: Some(value), ..self }
    }

    pub fn syn(self) -> (r: TcpSegment)
        ensures
            r == (TcpSegment { syn: true, ..self }),
    {
        TcpSegment { syn: true, ..self }
    }

    pub fn fin(self) -> (r: TcpSegment)
        ensures
            r == (TcpSegment { fin: true, ..self }),
    {
        TcpSegment { fin: true, ..self }
    }

    pub fn rst(self) -> (r: TcpSegment)
        ensures
            r == (TcpSegment { rst: true, ..self }),
    {
        TcpSegment { rst: true, ..self }
    }
}

/// A segment ready for the wire: the header fields with the IPv4 source filled
/// in, and the link-layer addresses of the hop it takes.
#[derive(Clone, Copy, Debug, PartialEq, Eq)]
pub struct Frame {
    pub segment: TcpSegment,
    pub src_link_addr: MacAddress,
    pub dest_link_addr: MacAddress,
}

/// The frame that carries `segment` from this host to `dest_link_addr`: the
/// segment's IPv4 source becomes this host's address.
pub open spec fn spec_frame(
    segment: TcpSegment,
    my_ipv4_addr: Ipv4Address,
    my_link_addr: MacAddress,
    dest_link_addr: MacAddress,
) -> Frame {
    Frame {
        segment: TcpSegment { src_ipv4_addr: Some(my_ipv4_addr), ..segment },
        src_link_addr: my_link_addr,
        dest_link_addr,
    }
}

/// Addresses `segment` for transmission from this host to `dest_link_addr`.
pub fn frame(
    segment: TcpSegment,
    my_ipv4_addr: Ipv4Address,
    my_link_addr: MacAddress,
    dest_link_addr: MacAddress,
) -> (r: Frame)
    ensures
        r == spec_frame(segment, my_ipv4_addr, my_link_addr, dest_link_addr),
{
    Frame {
        segment: segment.src_ipv4_addr(my_ipv4_addr),
        src_link_addr: my_link_addr,
        dest_link_addr,
    }
}

} // verus!
