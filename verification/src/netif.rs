//! The interface pump: the virtual interface that feeds the engine raw IP
//! packets and hands accepted connections on to the application.

use vstd::prelude::*;
use vstd::string::StringExecFns;
use crate::text::decimal;
use crate::text::push_decimal;
use crate::connection::TcpConnection;
use crate::connection::SINGLE_CONNECTION_BUFFER_SIZE;
use crate::model::ConnectionView;
use crate::status::ERR_OK;
use crate::status::TCP_CLOSED;

verus! {

/// Milliseconds between two runs of the engine's timeout processing.
pub const TIMER_INTERVAL_MS: u64 = 500;

/// The IPv4 address and port of a connection's peer.
#[derive(Clone, Copy, Debug, PartialEq, Eq)]
pub struct PeerAddr {
    pub octets: [u8; 4],
    pub port: u16,
}

/// An address in dotted form, a colon and the port, as in `10.0.0.5:4000`.
pub open spec fn peer_text(octets: Seq<u8>, port: u16) -> Seq<char> {
    decimal(octets[0] as nat) + seq!['.'] + decimal(octets[1] as nat) + seq!['.'] + decimal(
        octets[2] as nat,
    ) + seq!['.'] + decimal(octets[3] as nat) + seq![':'] + decimal(port as nat)
}

/// The number that the engine takes for an interface address: the four
/// octets read as one big-endian word.
pub open spec fn spec_address_word(octets: Seq<u8>) -> int {
    octets[0] * 0x100_0000 + octets[1] * 0x1_0000 + octets[2] * 0x100 + octets[3]
}

/// The length with which a packet goes into the engine, if it goes at all:
/// the engine's buffers count their bytes in sixteen bits, and a packet that
/// cannot have a buffer of its exact length is dropped.
pub open spec fn inject_len(len: nat) -> Option<u16> {
    if len <= u16::MAX {
        Some(len as u16)
    } else {
        None
    }
}

impl PeerAddr {
    /// The address as text, as in `10.0.0.5:4000`.
    pub fn to_string(&self) -> (text: String)
        ensures
            text@ == peer_text(self.octets@, self.port),
    {
        proof {
            reveal_strlit(".");
            reveal_strlit(":");
        }
        let mut text = String::new();
        push_decimal(&mut text, self.octets[0] as usize);
        text.append(".");
        push_decimal(&mut text, self.octets[1] as usize);
        text.append(".");
        push_decimal(&mut text, self.octets[2] as usize);
        text.append(".");
        push_decimal(&mut text, self.octets[3] as usize);
        text.append(":");
        push_decimal(&mut text, self.port as usize);
        assert(text@ =~= peer_text(self.octets@, self.port));
        text
    }
}

/// Turns the octets of an interface address, netmask or gateway into the
/// word that the engine takes.
pub fn address_word(octets: [u8; 4]) -> (word: u32)
    ensures
        word == spec_address_word(octets@),
{
    (octets[0] as u32) * 0x100_0000 + (octets[1] as u32) * 0x1_0000 + (octets[2] as u32) * 0x100
        + (octets[3] as u32)
}

/// The application's side of the accept dispatch: what is done with a
/// connection is the delegate's business alone.
pub trait Pipe<H, W> {
    fn handle_new_connection(&self, conn: TcpConnection<H, W>, dst: PeerAddr);
}

/// What holds once a call of the delegate `pipe` with `conn` and `dst` has
/// returned: the postcondition of `handle_new_connection` for these
/// arguments. Only such a call establishes it.
pub open spec fn takes<H, W, P: Pipe<H, W>>(pipe: P, conn: TcpConnection<H, W>, dst: PeerAddr) -> bool {
    call_ensures(P::handle_new_connection, (&pipe, conn, dst), ())
}

/// Whether the delegate `pipe` has been handed an accepted connection: a
/// call of it has returned that got the peer's address `dst` and a
/// connection on which nothing has happened yet, around the engine's handle
/// `pcb` and with the default buffer capacity.
pub open spec fn handed_over<H, W, P: Pipe<H, W>>(pipe: P, pcb: H, dst: PeerAddr) -> bool {
    exists|conn: TcpConnection<H, W>|
        conn@ == ConnectionView::<H, W>::fresh(pcb, SINGLE_CONNECTION_BUFFER_SIZE as nat)
            && #[trigger] takes::<H, W, P>(pipe, conn, dst)
}

/// Whether an accept event goes on to ask the engine for the peer's
/// address: it does unless the engine reported an error with it, which then
/// goes back to the engine as it came.
pub open spec fn accept_admits(status: i8) -> bool {
    status == ERR_OK
}

/// The virtual interface: its addresses, the delegate that takes the
/// connections which the engine accepts on it, and the sink for the packets
/// that the engine sends out on it, once one is registered.
pub struct TunNetif<P, S: Fn(&[u8])> {
    ip_addr: [u8; 4],
    net_mask: [u8; 4],
    gateway: [u8; 4],
    pipe: P,
    output: Option<S>,
}

/// The mathematical state of an interface.
pub struct NetifView<P, S> {
    pub ip_addr: Seq<u8>,
    pub net_mask: Seq<u8>,
    pub gateway: Seq<u8>,
    pub pipe: P,
    pub output: Option<S>,
}

impl<P, S: Fn(&[u8])> View for TunNetif<P, S> {
    type V = NetifView<P, S>;

    closed spec fn view(&self) -> NetifView<P, S> {
        NetifView {
            ip_addr: self.ip_addr@,
            net_mask: self.net_mask@,
            gateway: self.gateway@,
            pipe: self.pipe,
            output: self.output,
        }
    }
}

/// Whether a sink takes every packet.
pub open spec fn takes_every_packet<S: Fn(&[u8])>(sink: S) -> bool {
    forall|packet: &[u8]| call_requires(sink, (packet,))
}

impl<P, S: Fn(&[u8])> TunNetif<P, S> {
    #[verifier::type_invariant]
    spec fn sink_is_total(self) -> bool {
        self.output matches Some(sink) ==> takes_every_packet(sink)
    }

    /// An interface with its address, netmask and gateway, and the delegate
    /// for accepted connections. It has no sink yet.
    pub fn new(ip_addr: [u8; 4], net_mask: [u8; 4], gateway: [u8; 4], pipe: P) -> (netif: Self)
        ensures
            netif@ == (NetifView {
                ip_addr: ip_addr@,
                net_mask: net_mask@,
                gateway: gateway@,
                pipe,
                output: None::<S>,
            }),
    {
        TunNetif { ip_addr, net_mask, gateway, pipe, output: None }
    }

    /// The three words with which the interface is registered with the
    /// engine: address, netmask and gateway.
    pub fn address_words(&self) -> (words: (u32, u32, u32))
        ensures
            words.0 == spec_address_word(self@.ip_addr),
            words.1 == spec_address_word(self@.net_mask),
            words.2 == spec_address_word(self@.gateway),
    {
        (address_word(self.ip_addr), address_word(self.net_mask), address_word(self.gateway))
    }

    /// The delegate for accepted connections.
    pub fn pipe(&self) -> (pipe: &P)
        ensures
            *pipe == self@.pipe,
    {
        &self.pipe
    }

    /// The first step of feeding the engine one inbound packet: says how
    /// long the engine buffer is that takes `data`, or with `None` that the
    /// packet is dropped. Nothing tells the sender of a dropped packet.
    pub fn input_data(&self, data: &[u8]) -> (buffer_len: Option<u16>)
        ensures
            buffer_len == inject_len(data@.len()),
            buffer_len matches Some(len) ==> len == data@.len(),
    {
        let len = data.len();
        if len <= u16::MAX as usize {
            Some(len as u16)
        } else {
            None
        }
    }

    /// Registers the sink for outbound packets, in place of the one before.
    pub fn set_output_fn(&mut self, output: S)
        requires
            takes_every_packet(output),
        ensures
            final(self)@ == (NetifView { output: Some(output), ..old(self)@ }),
    {
        self.output = Some(output);
    }

    /// The engine's output callback: `packet` is to leave on the
    /// interface. The sink gets it, as it is and at once, if one is
    /// registered; else the packet is lost. The engine is told success
    /// either way.
    pub fn output_data(&self, packet: &[u8]) -> (code: i8)
        ensures
            code == ERR_OK,
            self@.output matches Some(sink) ==> call_ensures(sink, (packet,), ()),
    {
        proof {
            use_type_invariant(self);
        }
        match &self.output {
            Some(sink) => {
                sink(packet);
            },
            None => {},
        }
        ERR_OK
    }

    /// The first step of the accept callback, for an event that the engine
    /// reports with `status`: says whether the peer's address is asked for.
    /// Where it is not, `status` goes back to the engine as it came.
    pub fn begin_accept(&self, status: i8) -> (ask: bool)
        ensures
            ask == accept_admits(status),
    {
        status == ERR_OK
    }

    /// The last step of the accept callback for the connection `pcb`,
    /// which the engine shows in `engine_state`, once the engine has
    /// answered the query for the peer's address with `query_status`, and on
    /// success with `octets` and `port`.
    ///
    /// On success the delegate gets a fresh connection around `pcb`
    /// together with the peer's address, once. On failure no connection is
    /// made and the engine gets the query's status back. A connection that
    /// the engine has closed already is none to accept.
    pub fn accept<H, W>(
        &self,
        pcb: H,
        engine_state: u32,
        query_status: i8,
        octets: [u8; 4],
        port: u16,
    ) -> (code: i8)
        where P: Pipe<H, W>
        requires
            query_status == ERR_OK ==> engine_state != TCP_CLOSED,
        ensures
            code == query_status,
            code == ERR_OK ==> handed_over::<H, W, P>(self@.pipe, pcb, PeerAddr { octets, port }),
    {
        if query_status != ERR_OK {
            return query_status;
        }
        let (conn, dst) = new_connection::<H, W>(pcb, engine_state, octets, port);
        let ghost fresh = conn;
        self.pipe.handle_new_connection(conn, dst);
        assert(takes::<H, W, P>(self@.pipe, fresh, dst));
        ERR_OK
    }
}

/// What the delegate is handed for an accepted connection, which the
/// engine shows in `engine_state`: a fresh adapter around the engine's
/// handle, and the peer's address.
pub fn new_connection<H, W>(pcb: H, engine_state: u32, octets: [u8; 4], port: u16) -> (accepted: (
    TcpConnection<H, W>,
    PeerAddr,
))
    requires
        engine_state != TCP_CLOSED,
    ensures
        accepted.0@ == ConnectionView::<H, W>::fresh(pcb, SINGLE_CONNECTION_BUFFER_SIZE as nat),
        accepted.1 == (PeerAddr { octets, port }),
{
    (TcpConnection::new(pcb, engine_state), PeerAddr { octets, port })
}

} // verus!
