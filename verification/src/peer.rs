//! The two endpoints of the relay: a controller (control surface) and an
//! instrument (audio engine), each with the addresses the relay listens on
//! and sends to for that peer.

use vstd::prelude::*;

verus! {

/// The logical identity of a peer.
#[derive(Clone, Copy, Debug, PartialEq, Eq, Structural)]
pub enum PeerKind {
    Controller,
    Instrument,
}

impl PeerKind {
    /// A display label for the peer kind.
    pub fn label(&self) -> (r: &'static str)
        ensures
            *self is Controller ==> r@ == "Controller"@,
            *self is Instrument ==> r@ == "Instrument"@,
    {
        match self {
            PeerKind::Controller => "Controller",
            PeerKind::Instrument => "Instrument",
        }
    }
}

/// Identity and connectivity of one endpoint. `local_*` is where the relay
/// listens for packets from this peer; `remote_*` is where it sends packets
/// to reach this peer.
#[derive(Debug)]
pub struct Peer {
    pub name: String,
    pub kind: PeerKind,
    pub local_ip: String,
    pub local_port: String,
    pub remote_ip: String,
    pub remote_port: String,
}

/// The view of an `ip:port` pair as one address string.
pub open spec fn spec_addr(ip: Seq<char>, port: Seq<char>) -> Seq<char> {
    ip + ":"@ + port
}

impl Peer {
    /// The address this relay sends to in order to reach this peer.
    pub fn remote_addr(&self) -> (r: String)
        ensures
            r@ == spec_addr(self.remote_ip@, self.remote_port@),
    {
        let mut s = self.remote_ip.clone();
        s.append(":");
        s.append(self.remote_port.as_str());
        s
    }

    /// The address this relay listens on for packets from this peer.
    pub fn local_addr(&self) -> (r: String)
        ensures
            r@ == spec_addr(self.local_ip@, self.local_port@),
    {
        let mut s = self.local_ip.clone();
        s.append(":");
        s.append(self.local_port.as_str());
        s
    }

    /// An exact copy of this peer.
    pub fn duplicate(&self) -> (r: Peer)
        ensures
            r == *self,
    {
        Peer {
            name: self.name.clone(),
            kind: self.kind,
            local_ip: self.local_ip.clone(),
            local_port: self.local_port.clone(),
            remote_ip: self.remote_ip.clone(),
            remote_port: self.remote_port.clone(),
        }
    }
}

} // verus!
