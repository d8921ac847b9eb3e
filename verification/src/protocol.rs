//! The protocol dispatcher: address filtering, handler registry, and the
//! request/response exchange primitive.
//!
//! The dispatcher owns one transport and an ordered registry of
//! handlers.  Its contracts speak of three histories it carries as
//! ghost state: every handler invocation (`spec_deliveries`), every
//! transmit attempt (`spec_transmissions`), and every packet obtained
//! from the transport (`spec_receipts`).  Each history is appended
//! exactly beside the call it records, so the contracts pin which
//! handlers fire for which packet, when the wire is written, and which
//! received packet an exchange accepts.

use vstd::prelude::*;

use crate::convert_packet::ConvertPacket;
use crate::interface::{Interface, InterfaceError};
use crate::packet::{Packet, PacketModel};

verus! {

/// The reserved address every device listens to.
pub const BROADCAST_ADDRESS: u16 = 0xffff;

/// Everything the dispatcher can report.
#[derive(Debug, PartialEq, Eq, Clone, Copy)]
pub enum ProtocolError {
    /// The transport failed.
    InterfaceError(InterfaceError),
    /// No handler carries the given id.
    NoSuchHandler,
    /// An exchange drained the transport without a matching reply.
    PacketTimeout,
}

/// A packet handler: called by the dispatcher with each delivered
/// packet and with the transport, so that a handler can send replies.
pub trait PacketHandler<I: Interface> {
    /// Handles one delivered packet.
    fn handle_packet(&mut self, packet: &Packet, interface: &mut I);
}

struct HandlerEntry<H> {
    id: u32,
    capture_all_addresses: bool,
    handler: H,
}

/// Whether a packet addressed to `address` belongs to the device at
/// `local_address`.
pub open spec fn spec_owned_address(address: u16, local_address: u16) -> bool {
    address == local_address || address == BROADCAST_ADDRESS
}

/// Whether `send_packet` delivers the packet to the local handlers.
pub open spec fn spec_delivers_locally(address: u16, local_address: u16) -> bool {
    address == local_address || address == BROADCAST_ADDRESS
}

/// Whether `send_packet` transmits the packet over the transport: a
/// packet addressed to the local device stays local, unless the local
/// device is the broadcast address.
pub open spec fn spec_transmits(address: u16, local_address: u16) -> bool {
    address != local_address || local_address == BROADCAST_ADDRESS
}

/// Whether some registry entry carries the given id.
pub open spec fn spec_registry_has_id(registry: Seq<(u32, bool)>, id: u32) -> bool {
    exists|k: int| 0 <= k < registry.len() && #[trigger] registry[k].0 == id
}

/// Law: a packet addressed to the local device is always delivered to
/// the local handlers, and goes out on the wire exactly when the local
/// device is the broadcast address.
pub proof fn lemma_local_send_policy(local_address: u16)
    ensures
        spec_delivers_locally(local_address, local_address),
        spec_transmits(local_address, local_address) <==> local_address == BROADCAST_ADDRESS,
{
}

/// The registry ids are strictly ascending, so each id names at most
/// one handler and handlers fire in id order.
pub open spec fn spec_ids_sorted(registry: Seq<(u32, bool)>) -> bool {
    forall|i: int, j: int| 0 <= i < j < registry.len() ==> registry[i].0 < registry[j].0
}

/// The invocations one delivered packet adds to the delivery history:
/// one per registered handler, in registry order, kept if the packet is
/// owned or the handler captures all addresses.
pub open spec fn spec_delivery_log(
    registry: Seq<(u32, bool)>,
    packet: PacketModel,
    owned: bool,
) -> Seq<(u32, PacketModel)>
    decreases registry.len(),
{
    if registry.len() == 0 {
        Seq::empty()
    } else {
        spec_delivery_log(registry.drop_last(), packet, owned) + (if owned
            || registry.last().1 {
            seq![(registry.last().0, packet)]
        } else {
            Seq::empty()
        })
    }
}

/// Law: a delivered packet that is owned reaches every registered
/// handler exactly once, in registry order, with that packet.
pub proof fn lemma_owned_delivery_reaches_all(registry: Seq<(u32, bool)>, packet: PacketModel)
    ensures
        spec_delivery_log(registry, packet, true).len() == registry.len(),
        forall|i: int|
            0 <= i < registry.len() ==> spec_delivery_log(registry, packet, true)[i] == (
            registry[i].0,
            packet,
            ),
    decreases registry.len(),
{
    if registry.len() > 0 {
        lemma_owned_delivery_reaches_all(registry.drop_last(), packet);
    }
}

/// Law: a handler registered without `capture_all_addresses` is invoked
/// for a packet exactly when the packet is owned by the local device.
pub proof fn lemma_capture_all_filter(
    registry: Seq<(u32, bool)>,
    packet: PacketModel,
    owned: bool,
    k: int,
)
    requires
        spec_ids_sorted(registry),
        0 <= k < registry.len(),
        !registry[k].1,
    ensures
        spec_delivery_log(registry, packet, owned).contains((registry[k].0, packet)) <==> owned,
    decreases registry.len(),
{
    let log = spec_delivery_log(registry, packet, owned);
    let short = registry.drop_last();
    if k == registry.len() - 1 {
        if owned {
            assert(log.last() == (registry[k].0, packet));
            assert(log.contains((registry[k].0, packet)));
        } else {
            assert(log =~= spec_delivery_log(short, packet, owned));
            if log.contains((registry[k].0, packet)) {
                lemma_delivery_log_ids(short, packet, owned, registry[k].0);
            }
        }
    } else {
        lemma_capture_all_filter(short, packet, owned, k);
        let id = registry[k].0;
        assert(short[k] == registry[k]);
        if owned || registry.last().1 {
            assert(log =~= spec_delivery_log(short, packet, owned) + seq![
                (registry.last().0, packet),
            ]);
            assert(registry[k].0 < registry.last().0);
            if log.contains((id, packet)) && !spec_delivery_log(short, packet, owned).contains(
                (id, packet),
            ) {
                assert(log.last() == (registry.last().0, packet));
                let w = choose|w: int| 0 <= w < log.len() && log[w] == (id, packet);
                assert(w == log.len() - 1);
            }
            if spec_delivery_log(short, packet, owned).contains((id, packet)) {
                let w = choose|w: int|
                    0 <= w < spec_delivery_log(short, packet, owned).len()
                        && spec_delivery_log(short, packet, owned)[w] == (id, packet);
                assert(log[w] == (id, packet));
            }
        } else {
            assert(log =~= spec_delivery_log(short, packet, owned));
        }
    }
}

/// Every id in a delivery log names some registry entry that the
/// delivery kept.
proof fn lemma_delivery_log_ids(
    registry: Seq<(u32, bool)>,
    packet: PacketModel,
    owned: bool,
    id: u32,
)
    requires
        spec_delivery_log(registry, packet, owned).contains((id, packet)),
    ensures
        exists|k: int|
            0 <= k < registry.len() && #[trigger] registry[k].0 == id && (owned || registry[k].1),
    decreases registry.len(),
{
    let log = spec_delivery_log(registry, packet, owned);
    if registry.len() > 0 {
        let short = registry.drop_last();
        let shortlog = spec_delivery_log(short, packet, owned);
        if owned || registry.last().1 {
            if log.last() == ((id, packet)) {
                assert(registry[registry.len() - 1].0 == id);
            } else {
                let w = choose|w: int| 0 <= w < log.len() && log[w] == (id, packet);
                assert(shortlog[w] == (id, packet));
                assert(shortlog.contains((id, packet)));
                lemma_delivery_log_ids(short, packet, owned, id);
                let k = choose|k: int|
                    0 <= k < short.len() && #[trigger] short[k].0 == id && (owned || short[k].1);
                assert(registry[k].0 == id);
            }
        } else {
            assert(log =~= shortlog);
            lemma_delivery_log_ids(short, packet, owned, id);
            let k = choose|k: int|
                0 <= k < short.len() && #[trigger] short[k].0 == id && (owned || short[k].1);
            assert(registry[k].0 == id);
        }
    }
}

/// Whether an exchange accepts a received packet as a reply of type
/// `R`: the address filter admits it and it decodes as an `R`.
pub open spec fn spec_reply_matches<R: ConvertPacket<R>>(
    packet: PacketModel,
    local_address: u16,
    capture_all_addresses: bool,
) -> bool {
    (capture_all_addresses || spec_owned_address(packet.device_address, local_address))
        && R::spec_try_from_packet(packet) is Ok
}

/// Every reply of type `R` among `packets`, in order.
pub open spec fn spec_replies<R: ConvertPacket<R>>(
    packets: Seq<PacketModel>,
    local_address: u16,
    capture_all_addresses: bool,
) -> Seq<<R as View>::V>
    decreases packets.len(),
{
    if packets.len() == 0 {
        Seq::empty()
    } else {
        spec_replies::<R>(packets.drop_last(), local_address, capture_all_addresses) + (
        if spec_reply_matches::<R>(packets.last(), local_address, capture_all_addresses) {
            seq![R::spec_try_from_packet(packets.last())->Ok_0]
        } else {
            Seq::empty()
        })
    }
}

/// The protocol dispatcher over one transport.
pub struct Protocol<I: Interface, H: PacketHandler<I>> {
    device_address: u16,
    interface: I,
    handlers: Vec<HandlerEntry<H>>,
    deliveries: Ghost<Seq<(u32, PacketModel)>>,
    transmissions: Ghost<Seq<PacketModel>>,
    receipts: Ghost<Seq<PacketModel>>,
}

impl<I: Interface, H: PacketHandler<I>> Protocol<I, H> {
    /// The local device's address.
    pub closed spec fn spec_device_address(&self) -> u16 {
        self.device_address
    }

    /// The registry: each handler's id and capture flag, in order.
    pub closed spec fn spec_registry(&self) -> Seq<(u32, bool)> {
        self.handlers@.map_values(|e: HandlerEntry<H>| (e.id, e.capture_all_addresses))
    }

    /// The history of handler invocations: which handler saw which
    /// packet, in order.
    pub closed spec fn spec_deliveries(&self) -> Seq<(u32, PacketModel)> {
        self.deliveries@
    }

    /// The history of transmit attempts handed to the transport.
    pub closed spec fn spec_transmissions(&self) -> Seq<PacketModel> {
        self.transmissions@
    }

    /// The history of packets obtained from the transport.
    pub closed spec fn spec_receipts(&self) -> Seq<PacketModel> {
        self.receipts@
    }

    /// The registry ids are strictly ascending.
    pub open spec fn wf(&self) -> bool {
        spec_ids_sorted(self.spec_registry())
    }

    /// Opens a dispatcher for the device at `device_address` over the
    /// given transport, with no handlers and empty histories.
    pub fn new(device_address: u16, interface: I) -> (r: Self)
        ensures
            r.wf(),
            r.spec_device_address() == device_address,
            r.spec_registry() == Seq::<(u32, bool)>::empty(),
            r.spec_deliveries() == Seq::<(u32, PacketModel)>::empty(),
            r.spec_transmissions() == Seq::<PacketModel>::empty(),
            r.spec_receipts() == Seq::<PacketModel>::empty(),
    {
        let r = Protocol {
            device_address,
            interface,
            handlers: Vec::new(),
            deliveries: Ghost(Seq::empty()),
            transmissions: Ghost(Seq::empty()),
            receipts: Ghost(Seq::empty()),
        };
        proof {
            assert(r.spec_registry() =~= Seq::<(u32, bool)>::empty());
        }
        r
    }

    /// Invokes the handlers the policy selects for one packet, in
    /// registry order, recording each invocation.
    fn deliver_packet(&mut self, packet: &Packet, owned: bool)
        requires
            old(self).wf(),
        ensures
            final (self).wf(),
            final (self).spec_device_address() == old(self).spec_device_address(),
            final (self).spec_registry() == old(self).spec_registry(),
            final (self).spec_transmissions() == old(self).spec_transmissions(),
            final (self).spec_receipts() == old(self).spec_receipts(),
            final (self).spec_deliveries() == old(self).spec_deliveries() + spec_delivery_log(
                old(self).spec_registry(),
                packet@,
                owned,
            ),
    {
        let ghost registry = self.spec_registry();
        let ghost deliveries0 = self.deliveries@;
        let mut i: usize = 0;
        while i < self.handlers.len()
            invariant
                i <= self.handlers@.len(),
                self.spec_registry() == registry,
                self.wf(),
                self.device_address == old(self).device_address,
                self.transmissions@ == old(self).transmissions@,
                self.receipts@ == old(self).receipts@,
                deliveries0 == old(self).deliveries@,
                self.deliveries@ == deliveries0 + spec_delivery_log(
                    registry.take(i as int),
                    packet@,
                    owned,
                ),
            decreases self.handlers@.len() - i,
        {
            let entry = &mut self.handlers[i];
            let ghost entry_id = entry.id;
            let ghost entry_capture = entry.capture_all_addresses;
            if owned || entry.capture_all_addresses {
                entry.handler.handle_packet(packet, &mut self.interface);
                proof {
                    self.deliveries@ = self.deliveries@.push((entry_id, packet@));
                }
            }
            proof {
                assert(self.spec_registry() =~= registry);
                assert(registry.take(i + 1).drop_last() =~= registry.take(i as int));
                assert(registry.take(i + 1).last() == registry[i as int]);
                assert(registry[i as int] == (entry_id, entry_capture));
                assert(self.deliveries@ =~= deliveries0 + spec_delivery_log(
                    registry.take(i + 1),
                    packet@,
                    owned,
                ));
            }
            i += 1;
        }
        proof {
            assert(registry.take(registry.len() as int) =~= registry);
        }
    }

    /// One receive tick: asks the transport for a packet and, if one
    /// arrived, delivers it to the handlers the address filter selects.
    /// An exhausted transport (`NoPacketReceived`) is not a failure.
    pub fn tick(&mut self) -> (r: Result<(), ProtocolError>)
        requires
            old(self).wf(),
        ensures
            final (self).wf(),
            final (self).spec_device_address() == old(self).spec_device_address(),
            final (self).spec_registry() == old(self).spec_registry(),
            final (self).spec_transmissions() == old(self).spec_transmissions(),
            match r {
                Ok(()) => (final (self).spec_receipts() == old(self).spec_receipts() && final (
                self).spec_deliveries() == old(self).spec_deliveries()) || (exists|p: PacketModel|
                    final (self).spec_receipts() == old(self).spec_receipts().push(p) && final (
                    self).spec_deliveries() == old(self).spec_deliveries() + #[trigger] spec_delivery_log(
                        old(self).spec_registry(),
                        p,
                        spec_owned_address(p.device_address, old(self).spec_device_address()),
                    )),
                Err(ProtocolError::InterfaceError(e)) => {
                    &&& e != InterfaceError::NoPacketReceived
                    &&& final (self).spec_receipts() == old(self).spec_receipts()
                    &&& final (self).spec_deliveries() == old(self).spec_deliveries()
                },
                _ => false,
            },
    {
        match self.interface.try_get_packet() {
            Ok(packet) => {
                proof {
                    self.receipts@ = self.receipts@.push(packet@);
                }
                let owned = packet.device_address == self.device_address
                    || packet.device_address == BROADCAST_ADDRESS;
                self.deliver_packet(&packet, owned);
                proof {
                    let p = packet@;
                    assert(self.spec_receipts() == old(self).spec_receipts().push(p));
                    assert(self.spec_deliveries() == old(self).spec_deliveries()
                        + spec_delivery_log(
                        old(self).spec_registry(),
                        p,
                        spec_owned_address(p.device_address, old(self).spec_device_address()),
                    ));
                }
                Ok(())
            },
            Err(err) => match err {
                InterfaceError::NoPacketReceived => Ok(()),
                _ => Err(ProtocolError::InterfaceError(err)),
            },
        }
    }

    /// Sends a packet: one addressed to the local device (or to
    /// broadcast) is delivered to every local handler; it goes out on
    /// the wire unless it was addressed to the local device alone.
    pub fn send_packet(&mut self, packet: &Packet) -> (r: Result<(), ProtocolError>)
        requires
            old(self).wf(),
        ensures
            final (self).wf(),
            final (self).spec_device_address() == old(self).spec_device_address(),
            final (self).spec_registry() == old(self).spec_registry(),
            final (self).spec_receipts() == old(self).spec_receipts(),
            final (self).spec_deliveries() == old(self).spec_deliveries() + (if spec_delivers_locally(
                packet@.device_address,
                old(self).spec_device_address(),
            ) {
                spec_delivery_log(old(self).spec_registry(), packet@, true)
            } else {
                Seq::empty()
            }),
            final (self).spec_transmissions() == old(self).spec_transmissions() + (if spec_transmits(
                packet@.device_address,
                old(self).spec_device_address(),
            ) {
                seq![packet@]
            } else {
                Seq::empty()
            }),
            !spec_transmits(packet@.device_address, old(self).spec_device_address()) ==> r == Ok::<
                (),
                ProtocolError,
            >(()),
            match r {
                Ok(()) => true,
                Err(ProtocolError::InterfaceError(_)) => spec_transmits(
                    packet@.device_address,
                    old(self).spec_device_address(),
                ),
                _ => false,
            },
    {
        let ghost deliveries0 = self.deliveries@;
        if packet.device_address == self.device_address || packet.device_address
            == BROADCAST_ADDRESS {
            self.deliver_packet(packet, true);
        } else {
            proof {
                assert(self.deliveries@ =~= deliveries0 + Seq::<(u32, PacketModel)>::empty());
            }
        }

        if packet.device_address == self.device_address && self.device_address
            != BROADCAST_ADDRESS {
            proof {
                assert(self.transmissions@ =~= old(self).transmissions@ + Seq::<
                    PacketModel,
                >::empty());
            }
            return Ok(());
        }

        proof {
            self.transmissions@ = self.transmissions@.push(packet@);
            assert(self.transmissions@ =~= old(self).transmissions@ + seq![packet@]);
        }
        match self.interface.try_send_packet(packet) {
            Ok(()) => Ok(()),
            Err(err) => Err(ProtocolError::InterfaceError(err)),
        }
    }

    /// Registers a handler and returns its id: the least id no current
    /// handler carries.
    pub fn add_packet_handler(&mut self, handler: H, capture_all_addresses: bool) -> (r: Result<
        u32,
        ProtocolError,
    >)
        requires
            old(self).wf(),
            old(self).spec_registry().len() < 0xffff_ffff,
        ensures
            final (self).wf(),
            final (self).spec_device_address() == old(self).spec_device_address(),
            final (self).spec_deliveries() == old(self).spec_deliveries(),
            final (self).spec_transmissions() == old(self).spec_transmissions(),
            final (self).spec_receipts() == old(self).spec_receipts(),
            match r {
                Ok(id) => {
                    &&& !spec_registry_has_id(old(self).spec_registry(), id)
                    &&& forall|j: u32|
                        j < id ==> #[trigger] spec_registry_has_id(old(self).spec_registry(), j)
                    &&& final (self).spec_registry() == old(self).spec_registry().insert(
                        id as int,
                        (id, capture_all_addresses),
                    )
                },
                Err(_) => false,
            },
    {
        let ghost registry = self.spec_registry();
        let mut i: usize = 0;
        while i < self.handlers.len()
            invariant
                self == old(self),
                self.spec_registry() == registry,
                spec_ids_sorted(registry),
                i <= registry.len() < 0xffff_ffff,
                forall|k: int| 0 <= k < i ==> #[trigger] registry[k].0 == k,
            ensures
                self == old(self),
                self.spec_registry() == registry,
                i <= registry.len() < 0xffff_ffff,
                forall|k: int| 0 <= k < i ==> #[trigger] registry[k].0 == k,
                i < registry.len() ==> registry[i as int].0 != i as u32,
            decreases self.handlers@.len() - i,
        {
            let entry = &self.handlers[i];
            proof {
                assert(registry[i as int] == (entry.id, entry.capture_all_addresses));
            }
            if entry.id != i as u32 {
                break ;
            }
            i += 1;
        }

        let id = i as u32;
        proof {
            assert forall|k: int| i <= k < registry.len() implies #[trigger] registry[k].0
                > id by {
                if k > i {
                    assert(registry[i as int].0 < registry[k].0);
                    assert(registry[i as int].0 >= i as u32 || registry[i as int].0 < i as u32);
                    if i > 0 {
                        assert(registry[i - 1].0 < registry[i as int].0);
                    }
                    assert(registry[i as int].0 != i as u32);
                    if registry[i as int].0 < i as u32 && i > 0 {
                        assert(registry[i - 1].0 == i - 1);
                    }
                } else {
                    assert(k == i);
                    if i > 0 {
                        assert(registry[i - 1].0 < registry[k].0);
                    }
                }
            }
            assert(!spec_registry_has_id(registry, id));
            assert forall|j: u32| j < id implies #[trigger] spec_registry_has_id(
                registry,
                j,
            ) by {
                assert(registry[j as int].0 == j);
            }
        }

        let entry = HandlerEntry { id, capture_all_addresses, handler };
        self.handlers.insert(i, entry);

        proof {
            assert(self.spec_registry() =~= registry.insert(
                id as int,
                (id, capture_all_addresses),
            ));
            assert forall|a: int, b: int|
                0 <= a < b < self.spec_registry().len() implies self.spec_registry()[a].0
                < self.spec_registry()[b].0 by {
                let now = self.spec_registry();
                if b < i {
                } else if a >= i + 1 {
                    assert(now[a] == registry[a - 1]);
                    assert(now[b] == registry[b - 1]);
                } else if a < i && b == i {
                    assert(now[a].0 == a);
                } else if a < i && b > i {
                    assert(now[a].0 == a && now[b] == registry[b - 1]);
                } else if a == i && b > i {
                    assert(now[b] == registry[b - 1]);
                }
            }
        }

        Ok(id)
    }

    /// Removes the handler with the given id; fails with
    /// `NoSuchHandler` if no handler carries it.
    pub fn remove_packet_handler(&mut self, id: u32) -> (r: Result<(), ProtocolError>)
        requires
            old(self).wf(),
        ensures
            final (self).wf(),
            final (self).spec_device_address() == old(self).spec_device_address(),
            final (self).spec_deliveries() == old(self).spec_deliveries(),
            final (self).spec_transmissions() == old(self).spec_transmissions(),
            final (self).spec_receipts() == old(self).spec_receipts(),
            match r {
                Ok(()) => exists|k: int|
                    0 <= k < old(self).spec_registry().len() && #[trigger] old(
                        self,
                    ).spec_registry()[k].0 == id && final (self).spec_registry() == old(
                        self,
                    ).spec_registry().remove(k),
                Err(ProtocolError::NoSuchHandler) => {
                    &&& final (self).spec_registry() == old(self).spec_registry()
                    &&& !spec_registry_has_id(old(self).spec_registry(), id)
                },
                _ => false,
            },
    {
        let ghost registry = self.spec_registry();
        let mut i: usize = 0;
        while i < self.handlers.len()
            invariant
                self == old(self),
                self.spec_registry() == registry,
                spec_ids_sorted(registry),
                i <= registry.len(),
                forall|k: int| 0 <= k < i ==> #[trigger] registry[k].0 != id,
            ensures
                self == old(self),
                self.spec_registry() == registry,
                i <= registry.len(),
                forall|k: int| 0 <= k < i ==> #[trigger] registry[k].0 != id,
                i < registry.len() ==> registry[i as int].0 == id,
            decreases self.handlers@.len() - i,
        {
            let entry = &self.handlers[i];
            proof {
                assert(registry[i as int] == (entry.id, entry.capture_all_addresses));
            }
            if entry.id == id {
                break ;
            }
            i += 1;
        }

        if i < self.handlers.len() {
            self.handlers.remove(i);
            proof {
                assert(self.spec_registry() =~= registry.remove(i as int));
                assert forall|a: int, b: int|
                    0 <= a < b < self.spec_registry().len() implies self.spec_registry()[a].0
                    < self.spec_registry()[b].0 by {
                    let now = self.spec_registry();
                    if a < i && b < i {
                    } else if a < i {
                        assert(now[b] == registry[b + 1]);
                    } else {
                        assert(now[a] == registry[a + 1]);
                        assert(now[b] == registry[b + 1]);
                    }
                }
                assert(old(self).spec_registry()[i as int].0 == id && self.spec_registry() == old(
                    self,
                ).spec_registry().remove(i as int));
            }
            return Ok(());
        }

                Err(ProtocolError::NoSuchHandler)
    }

    /// Sends a request, waits, then drains the transport and returns
    /// the first received packet that passes the address filter and
    /// decodes as an `R`.  Replies of other types are ignored without
    /// error; a drain that ends without a match is a `PacketTimeout`.
    pub fn exchange_packet<F: Fn(), R: ConvertPacket<R>>(
        &mut self,
        packet: Packet,
        capture_all_addresses: bool,
        wait_closure: F,
    ) -> (r: Result<R, ProtocolError>)
        requires
            old(self).wf(),
            wait_closure.requires(()),
        ensures
            final (self).wf(),
            final (self).spec_device_address() == old(self).spec_device_address(),
            final (self).spec_registry() == old(self).spec_registry(),
            final (self).spec_deliveries() == old(self).spec_deliveries() + (if spec_delivers_locally(
                packet@.device_address,
                old(self).spec_device_address(),
            ) {
                spec_delivery_log(old(self).spec_registry(), packet@, true)
            } else {
                Seq::empty()
            }),
            final (self).spec_transmissions() == old(self).spec_transmissions() + (if spec_transmits(
                packet@.device_address,
                old(self).spec_device_address(),
            ) {
                seq![packet@]
            } else {
                Seq::empty()
            }),
            final (self).spec_receipts().len() >= old(self).spec_receipts().len(),
            final (self).spec_receipts().take(old(self).spec_receipts().len() as int) == old(
                self,
            ).spec_receipts(),
            ({
                let drained = final (self).spec_receipts().skip(
                    old(self).spec_receipts().len() as int,
                );
                let local = old(self).spec_device_address();
                match r {
                    Ok(ev) => exists|i: int|
                        0 <= i < drained.len() && #[trigger] spec_reply_matches::<R>(
                            drained[i],
                            local,
                            capture_all_addresses,
                        ) && R::spec_try_from_packet(drained[i]) == Ok::<
                            <R as View>::V,
                            crate::convert_packet::ConvertPacketError,
                        >(ev@) && (forall|j: int|
                            0 <= j < i ==> !spec_reply_matches::<R>(
                                drained[j],
                                local,
                                capture_all_addresses,
                            )),
                    Err(ProtocolError::PacketTimeout) => forall|j: int|
                        0 <= j < drained.len() ==> !spec_reply_matches::<R>(
                            drained[j],
                            local,
                            capture_all_addresses,
                        ),
                    Err(ProtocolError::InterfaceError(_)) => forall|j: int|
                        0 <= j < drained.len() ==> !spec_reply_matches::<R>(
                            drained[j],
                            local,
                            capture_all_addresses,
                        ),
                    _ => false,
                }
            }),
    {
        match self.send_packet(&packet) {
            Ok(()) => {
            },
            Err(e) => {
                return Err(e);
            },
        }

        wait_closure();

        // The transport ends the drain with NoPacketReceived; the counter
        // only makes termination evident to the verifier.
        let ghost receipts0 = self.receipts@;
        let mut budget: usize = usize::MAX;
        while budget > 0
            invariant
                self.wf(),
                self.spec_device_address() == old(self).spec_device_address(),
                self.spec_registry() == old(self).spec_registry(),
                self.spec_deliveries() == old(self).spec_deliveries() + (if spec_delivers_locally(
                    packet@.device_address,
                    old(self).spec_device_address(),
                ) {
                    spec_delivery_log(old(self).spec_registry(), packet@, true)
                } else {
                    Seq::empty()
                }),
                self.spec_transmissions() == old(self).spec_transmissions() + (if spec_transmits(
                    packet@.device_address,
                    old(self).spec_device_address(),
                ) {
                    seq![packet@]
                } else {
                    Seq::empty()
                }),
                receipts0 == old(self).spec_receipts(),
                self.receipts@.len() >= receipts0.len(),
                self.receipts@.take(receipts0.len() as int) == receipts0,
                forall|j: int|
                    receipts0.len() <= j < self.receipts@.len() ==> !spec_reply_matches::<R>(
                        #[trigger] self.receipts@[j],
                        old(self).spec_device_address(),
                        capture_all_addresses,
                    ),
            ensures
                self.wf(),
                self.spec_device_address() == old(self).spec_device_address(),
                self.spec_registry() == old(self).spec_registry(),
                self.spec_deliveries() == old(self).spec_deliveries() + (if spec_delivers_locally(
                    packet@.device_address,
                    old(self).spec_device_address(),
                ) {
                    spec_delivery_log(old(self).spec_registry(), packet@, true)
                } else {
                    Seq::empty()
                }),
                self.spec_transmissions() == old(self).spec_transmissions() + (if spec_transmits(
                    packet@.device_address,
                    old(self).spec_device_address(),
                ) {
                    seq![packet@]
                } else {
                    Seq::empty()
                }),
                receipts0 == old(self).spec_receipts(),
                self.receipts@.len() >= receipts0.len(),
                self.receipts@.take(receipts0.len() as int) == receipts0,
                forall|j: int|
                    receipts0.len() <= j < self.receipts@.len() ==> !spec_reply_matches::<R>(
                        #[trigger] self.receipts@[j],
                        old(self).spec_device_address(),
                        capture_all_addresses,
                    ),
            decreases budget,
        {
            match self.interface.try_get_packet() {
                Ok(received_packet) => {
                    proof {
                        self.receipts@ = self.receipts@.push(received_packet@);
                    }
                    if capture_all_addresses || received_packet.device_address
                        == self.device_address || received_packet.device_address
                        == BROADCAST_ADDRESS {
                        match R::try_from_packet(&received_packet) {
                            Ok(received_event) => {
                                proof {
                                    let drained = self.receipts@.skip(receipts0.len() as int);
                                    assert(drained.last() == received_packet@);
                                    assert(spec_reply_matches::<R>(
                                        drained[drained.len() - 1],
                                        old(self).spec_device_address(),
                                        capture_all_addresses,
                                    ));
                                }
                                return Ok(received_event);
                            },
                            Err(_) => {
                            },
                        }
                    }
                },
                Err(err) => {
                    match err {
                        InterfaceError::NoPacketReceived => {
                            break ;
                        },
                        _ => {
                            return Err(ProtocolError::InterfaceError(err));
                        },
                    }
                },
            }
            budget -= 1;
        }

        Err(ProtocolError::PacketTimeout)
    }

    /// Sends a request, waits, then drains the transport and returns
    /// every received packet that passes the address filter and decodes
    /// as an `R`, in receive order.
    pub fn exchange_packets<F: Fn(), R: ConvertPacket<R>>(
        &mut self,
        packet: Packet,
        capture_all_addresses: bool,
        wait_closure: F,
    ) -> (r: Result<Vec<R>, ProtocolError>)
        requires
            old(self).wf(),
            wait_closure.requires(()),
        ensures
            final (self).wf(),
            final (self).spec_device_address() == old(self).spec_device_address(),
            final (self).spec_registry() == old(self).spec_registry(),
            final (self).spec_receipts().len() >= old(self).spec_receipts().len(),
            final (self).spec_receipts().take(old(self).spec_receipts().len() as int) == old(
                self,
            ).spec_receipts(),
            match r {
                Ok(events) => events@.map_values(|ev: R| ev@) == spec_replies::<R>(
                    final (self).spec_receipts().skip(old(self).spec_receipts().len() as int),
                    old(self).spec_device_address(),
                    capture_all_addresses,
                ),
                Err(ProtocolError::InterfaceError(_)) => true,
                _ => false,
            },
    {
        let mut events: Vec<R> = Vec::new();

        match self.send_packet(&packet) {
            Ok(()) => {
            },
            Err(e) => {
                return Err(e);
            },
        }

        wait_closure();

        // The transport ends the drain with NoPacketReceived; the counter
        // only makes termination evident to the verifier.
        let ghost receipts0 = self.receipts@;
        let mut budget: usize = usize::MAX;
        while budget > 0
            invariant
                self.wf(),
                self.spec_device_address() == old(self).spec_device_address(),
                self.spec_registry() == old(self).spec_registry(),
                receipts0 == old(self).spec_receipts(),
                self.receipts@.len() >= receipts0.len(),
                self.receipts@.take(receipts0.len() as int) == receipts0,
                events@.map_values(|ev: R| ev@) == spec_replies::<R>(
                    self.receipts@.skip(receipts0.len() as int),
                    old(self).spec_device_address(),
                    capture_all_addresses,
                ),
            ensures
                self.wf(),
                self.spec_device_address() == old(self).spec_device_address(),
                self.spec_registry() == old(self).spec_registry(),
                receipts0 == old(self).spec_receipts(),
                self.receipts@.len() >= receipts0.len(),
                self.receipts@.take(receipts0.len() as int) == receipts0,
                events@.map_values(|ev: R| ev@) == spec_replies::<R>(
                    self.receipts@.skip(receipts0.len() as int),
                    old(self).spec_device_address(),
                    capture_all_addresses,
                ),
            decreases budget,
        {
            match self.interface.try_get_packet() {
                Ok(received_packet) => {
                    let ghost drained_before = self.receipts@.skip(receipts0.len() as int);
                    proof {
                        self.receipts@ = self.receipts@.push(received_packet@);
                    }
                    let ghost drained = self.receipts@.skip(receipts0.len() as int);
                    proof {
                        assert(drained.drop_last() =~= drained_before);
                        assert(drained.last() == received_packet@);
                    }
                    let matched = capture_all_addresses || received_packet.device_address
                        == self.device_address || received_packet.device_address
                        == BROADCAST_ADDRESS;
                    if matched {
                        match R::try_from_packet(&received_packet) {
                            Ok(received_event) => {
                                let ghost evm = received_event@;
                                events.push(received_event);
                                proof {
                                    assert(events@.map_values(|ev: R| ev@) =~= spec_replies::<R>(
                                        drained,
                                        old(self).spec_device_address(),
                                        capture_all_addresses,
                                    ));
                                }
                            },
                            Err(_) => {
                                proof {
                                    assert(events@.map_values(|ev: R| ev@) =~= spec_replies::<R>(
                                        drained,
                                        old(self).spec_device_address(),
                                        capture_all_addresses,
                                    ));
                                }
                            },
                        }
                    } else {
                        proof {
                            assert(events@.map_values(|ev: R| ev@) =~= spec_replies::<R>(
                                drained,
                                old(self).spec_device_address(),
                                capture_all_addresses,
                            ));
                        }
                    }
                },
                Err(err) => {
                    match err {
                        InterfaceError::NoPacketReceived => {
                            break ;
                        },
                        _ => {
                            return Err(ProtocolError::InterfaceError(err));
                        },
                    }
                },
            }
            budget -= 1;
        }

        Ok(events)
    }
}

} // verus!
