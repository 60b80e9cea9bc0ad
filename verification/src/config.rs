//! The configuration that a link is built from.

use crate::comms::LinkCommType;
use vstd::prelude::*;

verus! {

/// Version of the message protocol that runs over the link.
#[derive(Clone, Copy, Debug, PartialEq, Eq, Structural)]
pub enum PprzProtocolVersion {
    ProtocolV1,
    ProtocolV2,
}

/// Class of the messages that the link accepts.
#[derive(Clone, Copy, Debug, PartialEq, Eq, Structural)]
pub enum PprzMsgClassID {
    Telemetry,
    Datalink,
    Ground,
    Alert,
    Intermcu,
}

/// Everything a link is built from. Either the serial fields (`port`,
/// `baudrate`) or the UDP fields (`udp_port`, `remote_addr`,
/// `udp_uplink_port`) are in use, as `udp` selects; the others are ignored.
pub struct LinkConfig {
    /// Period of the ping messages, in milliseconds.
    pub ping_period: u64,
    /// Period of the status messages, in milliseconds.
    pub status_period: u64,
    /// Speed of the serial line, in bits per second.
    pub baudrate: usize,
    /// Path of the serial device.
    pub port: String,
    /// Whether the link runs over UDP; over the serial device otherwise.
    pub udp: bool,
    /// Local port on which datagrams are received.
    pub udp_port: u16,
    /// Port of the remote peer, to which datagrams are sent.
    pub udp_uplink_port: u16,
    /// Version of the message protocol on this link.
    pub pprzlink_version: PprzProtocolVersion,
    /// Address of the message bus.
    pub ivy_bus: String,
    /// Root directory of the protocol resources.
    pub pprz_root: String,
    /// Address of the remote peer.
    pub remote_addr: String,
    /// Identifier under which this end sends.
    pub sender_id: String,
    /// Class of received messages to match against.
    pub rx_msg_class: PprzMsgClassID,
}

/// The character of a decimal digit.
pub open spec fn digit_char(d: nat) -> char
    recommends
        d < 10,
{
    ('0' as nat + d) as char
}

/// The decimal notation of `n`, without leading zeros.
pub open spec fn decimal(n: nat) -> Seq<char>
    decreases n,
{
    if n < 10 {
        seq![digit_char(n)]
    } else {
        decimal(n / 10).push(digit_char(n % 10))
    }
}

/// Calls `String::push`. Trusted: the character is appended at the end of
/// the string and the rest is kept.
#[verifier::external_body]
fn push_char(s: &mut String, c: char)
    ensures
        final(s)@ == old(s)@.push(c),
{
    s.push(c)
}

/// The character of the decimal digit `d`.
fn digit(d: u8) -> (c: char)
    requires
        d < 10,
    ensures
        c == digit_char(d as nat),
{
    ('0' as u8 + d) as char
}

/// Appends the decimal notation of `n` to `s`.
fn push_decimal(s: &mut String, n: u16)
    ensures
        final(s)@ == old(s)@ + decimal(n as nat),
    decreases n,
{
    if n >= 10 {
        push_decimal(s, n / 10);
    }
    push_char(s, digit((n % 10) as u8));
}

impl LinkConfig {
    /// The medium that this configuration selects.
    pub open spec fn spec_medium(&self) -> LinkCommType {
        if self.udp {
            LinkCommType::Udp
        } else {
            LinkCommType::Serial
        }
    }

    /// The medium that this configuration selects.
    #[verifier::when_used_as_spec(spec_medium)]
    pub fn medium(&self) -> (medium: LinkCommType)
        ensures
            medium == self.spec_medium(),
    {
        if self.udp {
            LinkCommType::Udp
        } else {
            LinkCommType::Serial
        }
    }

    /// The remote peer as `address:port`.
    pub open spec fn spec_remote_endpoint(&self) -> Seq<char> {
        self.remote_addr@ + seq![':'] + decimal(self.udp_uplink_port as nat)
    }

    /// The remote peer in the form in which a socket is connected to it:
    /// the remote address, a colon, and the uplink port in decimal.
    pub fn remote_endpoint(&self) -> (endpoint: String)
        ensures
            endpoint@ == self.spec_remote_endpoint(),
    {
        let mut endpoint = self.remote_addr.clone();
        push_char(&mut endpoint, ':');
        push_decimal(&mut endpoint, self.udp_uplink_port);
        endpoint
    }
}

} // verus!
