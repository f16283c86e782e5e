//! The packet data model: a packet is a single message or a bundle of nested
//! packets, and flattening a packet yields its message leaves in pre-order,
//! depth-first order.
//!
//! Floating-point arguments are carried as their IEEE 754 bit patterns, so a
//! message passes through the relay byte-for-byte unchanged unless a
//! translator rewrites it.

use vstd::prelude::*;

verus! {

broadcast use vstd::seq::group_seq_axioms;

/// An OSC time tag (NTP format: whole seconds and fractional part).
#[derive(Clone, Copy, Debug, PartialEq, Eq, Structural)]
pub struct TimeTag {
    pub seconds: u32,
    pub fractional: u32,
}

/// An RGBA color argument.
#[derive(Clone, Copy, Debug, PartialEq, Eq, Structural)]
pub struct ColorRgba {
    pub red: u8,
    pub green: u8,
    pub blue: u8,
    pub alpha: u8,
}

/// The parts of a MIDI message tunneled over the protocol.
#[derive(Clone, Copy, Debug, PartialEq, Eq, Structural)]
pub struct MidiMsg {
    pub port: u8,
    pub status: u8,
    pub data1: u8,
    pub data2: u8,
}

/// A typed message argument. `Float` and `Double` hold the IEEE 754 bit
/// pattern of the value; the translators read them by numeric truncation
/// and everything else carries them through unchanged.
#[derive(Debug)]
pub enum Arg {
    Int(i32),
    /// Bit pattern of an IEEE 754 single-precision value.
    Float(u32),
    Str(String),
    Blob(Vec<u8>),
    Time(TimeTag),
    Long(i64),
    /// Bit pattern of an IEEE 754 double-precision value.
    Double(u64),
    Char(char),
    Color(ColorRgba),
    Midi(MidiMsg),
    Bool(bool),
    Array(ArgArray),
    Nil,
    Inf,
}

/// A nested array of arguments.
#[derive(Debug)]
pub struct ArgArray {
    pub content: Vec<Arg>,
}

/// A message: a hierarchical address plus an ordered argument list.
#[derive(Debug)]
pub struct Message {
    pub addr: String,
    pub args: Vec<Arg>,
}

/// A bundle: a time tag plus an ordered list of nested packets.
#[derive(Debug)]
pub struct Bundle {
    pub timetag: TimeTag,
    pub content: Vec<Packet>,
}

/// A packet: a single message, or a bundle of nested packets.
#[derive(Debug)]
pub enum Packet {
    Message(Message),
    Bundle(Bundle),
}

/// The message leaves of a packet, in pre-order, depth-first order.
pub open spec fn flatten_packet(p: Packet) -> Seq<Message>
    decreases p,
{
    match p {
        Packet::Message(m) => seq![m],
        Packet::Bundle(b) => flatten_packets(b.content@),
    }
}

/// The concatenated message leaves of a sequence of packets, in order.
pub open spec fn flatten_packets(s: Seq<Packet>) -> Seq<Message>
    decreases s,
{
    if s.len() == 0 {
        Seq::empty()
    } else {
        flatten_packet(s[0]) + flatten_packets(s.drop_first())
    }
}

/// The number of message leaves in a packet.
pub open spec fn message_count(p: Packet) -> nat
    decreases p,
{
    match p {
        Packet::Message(m) => 1,
        Packet::Bundle(b) => messages_count(b.content@),
    }
}

/// The total number of message leaves in a sequence of packets.
pub open spec fn messages_count(s: Seq<Packet>) -> nat
    decreases s,
{
    if s.len() == 0 {
        0
    } else {
        message_count(s[0]) + messages_count(s.drop_first())
    }
}

/// The flat sequence of a packet has exactly one entry per message leaf.
pub proof fn lemma_flatten_message_count(p: Packet)
    ensures
        flatten_packet(p).len() == message_count(p),
    decreases p,
{
    match p {
        Packet::Message(m) => {},
        Packet::Bundle(b) => {
            lemma_flattens_messages_count(b.content@);
        },
    }
}

/// The flat sequence of a packet list has one entry per message leaf.
pub proof fn lemma_flattens_messages_count(s: Seq<Packet>)
    ensures
        flatten_packets(s).len() == messages_count(s),
    decreases s,
{
    if s.len() > 0 {
        lemma_flatten_message_count(s[0]);
        lemma_flattens_messages_count(s.drop_first());
    }
}

/// A lone message flattens to exactly that message.
pub proof fn lemma_flatten_single(m: Message)
    ensures
        flatten_packet(Packet::Message(m)) == seq![m],
{
}

/// An empty bundle flattens to the empty sequence.
pub proof fn lemma_flatten_empty_bundle(b: Bundle)
    requires
        b.content@.len() == 0,
    ensures
        flatten_packet(Packet::Bundle(b)) == Seq::<Message>::empty(),
{
}

impl Packet {
    /// Unfolds the packet onto the end of the given message buffer, in
    /// pre-order, depth-first order.
    pub fn unfold(self, msgs: &mut Vec<Message>)
        ensures
            final(msgs)@ == old(msgs)@ + flatten_packet(self),
        decreases self,
    {
        let ghost entry = self;
        match self {
            Packet::Message(m) => {
                msgs.push(m);
                assert(msgs@ =~= old(msgs)@ + flatten_packet(entry));
            },
            Packet::Bundle(b) => {
                proof {
                    assert(decreases_to!(entry => b));
                    assert(decreases_to!(b => b.content));
                    assert(decreases_to!(b.content => b.content@));
                }
                unfold_all(b.content, msgs);
            },
        }
    }

    /// Converts the packet into the flat vector of all messages contained
    /// within, in pre-order, depth-first order.
    pub fn into_msgs(self) -> (msgs: Vec<Message>)
        ensures
            msgs@ == flatten_packet(self),
    {
        let mut msgs = Vec::new();
        self.unfold(&mut msgs);
        msgs
    }
}

/// Unfolds each packet in order onto the end of the message buffer.
fn unfold_all(packets: Vec<Packet>, msgs: &mut Vec<Message>)
    ensures
        final(msgs)@ == old(msgs)@ + flatten_packets(packets@),
    decreases packets@,
{
    let ghost entry = packets@;
    let mut rest = packets;
    if rest.len() > 0 {
        let p = rest.remove(0);
        proof {
            assert(decreases_to!(entry => p));
        }
        p.unfold(msgs);
        proof {
            assert(decreases_to!(entry => rest@));
        }
        unfold_all(rest, msgs);
        assert(msgs@ =~= old(msgs)@ + flatten_packets(entry));
    } else {
        assert(msgs@ =~= old(msgs)@ + flatten_packets(entry));
    }
}

/// A constructor for a message from an address and arguments.
pub fn msg(addr: &str, args: Vec<Arg>) -> (m: Message)
    ensures
        m.addr@ == addr@,
        m.args == args,
{
    Message { addr: addr.to_owned(), args }
}

/// Errors that might occur while receiving, decoding or sending a packet.
/// Payloads carry a description of the underlying failure.
#[derive(Debug)]
pub enum CommunicationError {
    Io(String),
    Osc(String),
    Poisoned,
}

impl CommunicationError {
    /// A short description of the error kind.
    pub fn describe(&self) -> (r: &'static str)
        ensures
            *self is Io ==> r@ == "io error"@,
            *self is Osc ==> r@ == "failed to decode the packet"@,
            *self is Poisoned ==> r@ == "the inner buffer's mutex was poisoned"@,
    {
        match self {
            CommunicationError::Io(_) => "io error",
            CommunicationError::Osc(_) => "failed to decode the packet",
            CommunicationError::Poisoned => "the inner buffer's mutex was poisoned",
        }
    }
}

} // verus!
