//! Network addresses as plain numbers.

use vstd::prelude::*;

verus! {

/// An IP address, as the number that its bytes make in network order.
#[derive(Debug, Clone, Copy, PartialEq, Eq, Structural)]
pub enum IpAddr {
    V4(u32),
    V6(u128),
}

impl IpAddr {
    /// The IPv4 address `a.b.c.d`.
    pub fn v4(a: u8, b: u8, c: u8, d: u8) -> (ip: IpAddr)
        ensures
            ip == IpAddr::V4((a * 0x100_0000 + b * 0x1_0000 + c * 0x100 + d) as u32),
    {
        IpAddr::V4(a as u32 * 0x100_0000 + b as u32 * 0x1_0000 + c as u32 * 0x100 + d as u32)
    }

    /// Whether the address is a loopback address: `127.0.0.0/8`, or `::1`.
    pub fn is_loopback(&self) -> (loopback: bool)
        ensures
            loopback == loopback_ip(*self),
    {
        match *self {
            IpAddr::V4(bits) => bits / 0x100_0000 == 127,
            IpAddr::V6(bits) => bits == 1,
        }
    }
}

/// `127.0.0.0/8`, or `::1`.
pub open spec fn loopback_ip(ip: IpAddr) -> bool {
    match ip {
        IpAddr::V4(bits) => bits / 0x100_0000 == 127,
        IpAddr::V6(bits) => bits == 1,
    }
}

/// An IP address and a port.
#[derive(Debug, Clone, Copy, PartialEq, Eq, Structural)]
pub struct SocketAddr {
    pub ip: IpAddr,
    pub port: u16,
}

impl SocketAddr {
    /// The address `ip:port`.
    pub fn new(ip: IpAddr, port: u16) -> (addr: SocketAddr)
        ensures
            addr == (SocketAddr { ip, port }),
    {
        SocketAddr { ip, port }
    }

    /// The address's IP.
    pub fn ip(&self) -> (ip: IpAddr)
        ensures
            ip == self.ip,
    {
        self.ip
    }

    /// The address's port.
    pub fn port(&self) -> (port: u16)
        ensures
            port == self.port,
    {
        self.port
    }
}

/// The loopback addresses are those of `127.0.0.0` to `127.255.255.255`, and `::1`.
pub proof fn loopback_is_one_network(a: u8, b: u8, c: u8, d: u8, bits: u128)
    ensures
        loopback_ip(IpAddr::V4((a * 0x100_0000 + b * 0x1_0000 + c * 0x100 + d) as u32)) <==> a
            == 127,
        loopback_ip(IpAddr::V6(bits)) <==> bits == 1,
{
    let whole: int = a * 0x100_0000 + b * 0x1_0000 + c * 0x100 + d;
    assert(0 <= whole <= u32::MAX);
    assert(whole / 0x100_0000 == a) by (nonlinear_arith)
        requires
            whole == a * 0x100_0000 + b * 0x1_0000 + c * 0x100 + d,
            0 <= b <= 255,
            0 <= c <= 255,
            0 <= d <= 255,
    ;
}

} // verus!
