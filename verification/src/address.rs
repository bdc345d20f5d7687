//! Addresses of nodes.

use vstd::prelude::*;

verus! {

/// A multiaddress in its binary form.
#[derive(Debug, PartialEq, Eq)]
pub struct Multiaddr {
    pub bytes: Vec<u8>,
}

impl View for Multiaddr {
    type V = Seq<u8>;

    open spec fn view(&self) -> Seq<u8> {
        self.bytes@
    }
}

impl Clone for Multiaddr {
    fn clone(&self) -> (copy: Self)
        ensures
            copy@ == self@,
            copy.bytes@ == self.bytes@,
    {
        Multiaddr { bytes: self.bytes.clone() }
    }
}

/// The identity of a peer in its binary form.
#[derive(Debug, PartialEq, Eq)]
pub struct PeerId {
    pub bytes: Vec<u8>,
}

impl View for PeerId {
    type V = Seq<u8>;

    open spec fn view(&self) -> Seq<u8> {
        self.bytes@
    }
}

impl Clone for PeerId {
    fn clone(&self) -> (copy: Self)
        ensures
            copy@ == self@,
            copy.bytes@ == self.bytes@,
    {
        PeerId { bytes: self.bytes.clone() }
    }
}

/// Where a node listens, together with who it is.
#[derive(Debug, PartialEq, Eq)]
pub struct MultiaddrWithPeerId {
    pub multiaddr: Multiaddr,
    pub peer_id: PeerId,
}

/// What a `MultiaddrWithPeerId` says.
pub struct PeerAddress {
    pub multiaddr: Seq<u8>,
    pub peer_id: Seq<u8>,
}

impl View for MultiaddrWithPeerId {
    type V = PeerAddress;

    open spec fn view(&self) -> PeerAddress {
        PeerAddress { multiaddr: self.multiaddr@, peer_id: self.peer_id@ }
    }
}

impl Clone for MultiaddrWithPeerId {
    fn clone(&self) -> (copy: Self)
        ensures
            copy@ == self@,
            copy.multiaddr.bytes@ == self.multiaddr.bytes@,
            copy.peer_id.bytes@ == self.peer_id.bytes@,
    {
        MultiaddrWithPeerId { multiaddr: self.multiaddr.clone(), peer_id: self.peer_id.clone() }
    }
}

/// What a list of addresses says, in order.
pub open spec fn peer_addresses(nodes: Seq<MultiaddrWithPeerId>) -> Seq<PeerAddress> {
    nodes.map_values(|node: MultiaddrWithPeerId| node@)
}

/// The eight bytes of `n`, most significant first.
pub open spec fn big_endian(n: u64) -> Seq<u8> {
    Seq::new(8, |i: int| ((n >> ((56 - 8 * i) as u64)) & 0xff) as u8)
}

/// The multiaddress `/memory/<port>`: the code of the memory protocol as a variable-length
/// integer, then the port.
pub open spec fn memory_multiaddr(port: u64) -> Seq<u8> {
    seq![0x89u8, 0x06u8] + big_endian(port)
}

/// The conversion of `parity_multiaddr::Protocol` into `Multiaddr`, for the memory protocol: the
/// address consists of the protocol's code 777, written as a variable-length integer, and of the
/// port in eight bytes, most significant first.
#[verifier::external_body]
pub(crate) fn memory_address(port: u64) -> (address: Multiaddr)
    ensures
        address@ == memory_multiaddr(port),
{
    let address: parity_multiaddr::Multiaddr = parity_multiaddr::Protocol::Memory(port).into();
    Multiaddr { bytes: address.to_vec() }
}

/// Nodes that listen on different ports of the memory transport have different addresses.
pub proof fn law_memory_addresses_are_distinct(a: u64, b: u64)
    ensures
        memory_multiaddr(a) == memory_multiaddr(b) <==> a == b,
{
    if memory_multiaddr(a) == memory_multiaddr(b) {
        assert(memory_multiaddr(a)[2] == memory_multiaddr(b)[2]);
        assert(memory_multiaddr(a)[3] == memory_multiaddr(b)[3]);
        assert(memory_multiaddr(a)[4] == memory_multiaddr(b)[4]);
        assert(memory_multiaddr(a)[5] == memory_multiaddr(b)[5]);
        assert(memory_multiaddr(a)[6] == memory_multiaddr(b)[6]);
        assert(memory_multiaddr(a)[7] == memory_multiaddr(b)[7]);
        assert(memory_multiaddr(a)[8] == memory_multiaddr(b)[8]);
        assert(memory_multiaddr(a)[9] == memory_multiaddr(b)[9]);
        assert(a == b) by (bit_vector)
            requires
                ((a >> 56u64) & 0xff) as u8 == ((b >> 56u64) & 0xff) as u8,
                ((a >> 48u64) & 0xff) as u8 == ((b >> 48u64) & 0xff) as u8,
                ((a >> 40u64) & 0xff) as u8 == ((b >> 40u64) & 0xff) as u8,
                ((a >> 32u64) & 0xff) as u8 == ((b >> 32u64) & 0xff) as u8,
                ((a >> 24u64) & 0xff) as u8 == ((b >> 24u64) & 0xff) as u8,
                ((a >> 16u64) & 0xff) as u8 == ((b >> 16u64) & 0xff) as u8,
                ((a >> 8u64) & 0xff) as u8 == ((b >> 8u64) & 0xff) as u8,
                ((a >> 0u64) & 0xff) as u8 == ((b >> 0u64) & 0xff) as u8,
        ;
    }
}

/// What an address says is every byte of the multiaddress and of the peer id.
pub proof fn law_addresses_say_every_byte(addr: MultiaddrWithPeerId)
    ensures
        addr@.multiaddr == addr.multiaddr.bytes@,
        addr@.peer_id == addr.peer_id.bytes@,
        addr.multiaddr@ == addr.multiaddr.bytes@,
        addr.peer_id@ == addr.peer_id.bytes@,
{
}

/// A list of addresses says what each of its entries says, at the same place, and nothing else.
pub proof fn law_lists_say_what_their_entries_say(nodes: Seq<MultiaddrWithPeerId>)
    ensures
        peer_addresses(nodes).len() == nodes.len(),
        forall|i: int|
            #![trigger nodes[i]]
            #![trigger peer_addresses(nodes)[i]]
            0 <= i < nodes.len() ==> {
                &&& peer_addresses(nodes)[i].multiaddr == nodes[i].multiaddr.bytes@
                &&& peer_addresses(nodes)[i].peer_id == nodes[i].peer_id.bytes@
            },
{
}

/// The port can be read back from the address: after the variable-length form of the protocol's
/// code come the port's eight digits to the base 256, the most significant first.
pub proof fn law_port_can_be_read_back(port: u64)
    ensures
        memory_multiaddr(port).len() == 10,
        memory_multiaddr(port)[0] >= 128 > memory_multiaddr(port)[1],
        memory_multiaddr(port)[0] - 128 + 128 * memory_multiaddr(port)[1] == 777,
        port == 0x1_00_00_00_00_00_00_00 * memory_multiaddr(port)[2] + 0x1_00_00_00_00_00_00
            * memory_multiaddr(port)[3] + 0x1_00_00_00_00_00 * memory_multiaddr(port)[4]
            + 0x1_00_00_00_00 * memory_multiaddr(port)[5] + 0x1_00_00_00 * memory_multiaddr(port)[6]
            + 0x1_00_00 * memory_multiaddr(port)[7] + 0x1_00 * memory_multiaddr(port)[8]
            + memory_multiaddr(port)[9],
{
    assert(port == 0x1_00_00_00_00_00_00_00 * (((port >> 56u64) & 0xff) as u8)
        + 0x1_00_00_00_00_00_00 * (((port >> 48u64) & 0xff) as u8) + 0x1_00_00_00_00_00 * (((port
        >> 40u64) & 0xff) as u8) + 0x1_00_00_00_00 * (((port >> 32u64) & 0xff) as u8) + 0x1_00_00_00
        * (((port >> 24u64) & 0xff) as u8) + 0x1_00_00 * (((port >> 16u64) & 0xff) as u8) + 0x1_00
        * (((port >> 8u64) & 0xff) as u8) + (((port >> 0u64) & 0xff) as u8)) by (bit_vector);
}

} // verus!
