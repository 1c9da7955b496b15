//! Pairing of color and depth packets by their timestamps.
use std::collections::VecDeque;
use vstd::prelude::*;

use crate::packet::{ColorPacket, ColorPacketView, DepthPacket, DepthPacketView};

verus! {

/// Most depth packets that wait at a time.
pub const DEPTH_QUEUE_CAPACITY: usize = 10;

/// What a [`PacketSync`] holds, as plain values.
pub struct PacketSyncView {
    /// The color packet that waits for its depth packet.
    pub color_packet: Option<ColorPacketView>,
    /// The depth packets that wait, oldest first.
    pub depth_packets: Seq<DepthPacketView>,
}

/// Position of the first of `depths` that is later than `timestamp`; the
/// length of `depths` where none is.
pub open spec fn first_later(depths: Seq<DepthPacketView>, timestamp: u32) -> int
    decreases depths.len(),
{
    if depths.len() == 0 {
        0
    } else if depths[0].timestamp > timestamp {
        0
    } else {
        1 + first_later(depths.drop_first(), timestamp)
    }
}

/// The pair that a poll hands out: the color packet that waits and the
/// first depth packet later than it, where both are there.
pub open spec fn polled(state: PacketSyncView) -> Option<(ColorPacketView, DepthPacketView)> {
    match state.color_packet {
        Some(color) => {
            let at = first_later(state.depth_packets, color.timestamp);
            if at < state.depth_packets.len() {
                Some((color, state.depth_packets[at]))
            } else {
                None
            }
        },
        None => None,
    }
}

/// What is held after a poll. A poll that hands out a pair takes the color
/// packet, the depth packet and every depth packet before it; one that hands
/// out nothing changes nothing.
pub open spec fn after_poll(state: PacketSyncView) -> PacketSyncView {
    match state.color_packet {
        Some(color) => {
            let at = first_later(state.depth_packets, color.timestamp);
            if at < state.depth_packets.len() {
                PacketSyncView {
                    color_packet: None,
                    depth_packets: state.depth_packets.subrange(
                        at + 1,
                        state.depth_packets.len() as int,
                    ),
                }
            } else {
                state
            }
        },
        None => state,
    }
}

/// The depth packets that wait after `packet` came in: `packet` behind those
/// that waited. Where ten waited, the oldest leaves to make room.
pub open spec fn pushed(depths: Seq<DepthPacketView>, packet: DepthPacketView) -> Seq<
    DepthPacketView,
> {
    if depths.len() >= DEPTH_QUEUE_CAPACITY {
        depths.drop_first().push(packet)
    } else {
        depths.push(packet)
    }
}

/// The packets of `queue` as plain values.
pub open spec fn views(queue: Seq<DepthPacket>) -> Seq<DepthPacketView> {
    queue.map_values(|packet: DepthPacket| packet@)
}

/// The color packet as plain values.
pub open spec fn color_view(color: Option<ColorPacket>) -> Option<ColorPacketView> {
    match color {
        Some(packet) => Some(packet@),
        None => None,
    }
}

/// Holds the newest color packet and the last depth packets that came in,
/// ten at most, and pairs the color packet with the first depth packet that
/// is later.
pub struct PacketSync {
    color_packet: Option<ColorPacket>,
    depth_packet: VecDeque<DepthPacket>,
}

impl View for PacketSync {
    type V = PacketSyncView;

    closed spec fn view(&self) -> PacketSyncView {
        PacketSyncView {
            color_packet: color_view(self.color_packet),
            depth_packets: views(self.depth_packet@),
        }
    }
}

fn push_depth(queue: &mut VecDeque<DepthPacket>, packet: DepthPacket)
    requires
        old(queue)@.len() <= DEPTH_QUEUE_CAPACITY,
    ensures
        final(queue)@.len() <= DEPTH_QUEUE_CAPACITY,
        views(final(queue)@) == pushed(views(old(queue)@), packet@),
{
    if queue.len() >= DEPTH_QUEUE_CAPACITY {
        queue.pop_front();
    }
    queue.push_back(packet);
    assert(views(queue@) =~= pushed(views(old(queue)@), packet@));
}

fn poll(color: &mut Option<ColorPacket>, queue: &mut VecDeque<DepthPacket>) -> (pair: Option<
    (ColorPacket, DepthPacket),
>)
    ensures
        final(queue)@.len() <= old(queue)@.len(),
        (PacketSyncView {
            color_packet: color_view(*final(color)),
            depth_packets: views(final(queue)@),
        }) == after_poll(
            PacketSyncView {
                color_packet: color_view(*old(color)),
                depth_packets: views(old(queue)@),
            },
        ),
        match pair {
            Some((c, d)) => polled(
                PacketSyncView {
                    color_packet: color_view(*old(color)),
                    depth_packets: views(old(queue)@),
                },
            ) == Some((c@, d@)),
            None => polled(
                PacketSyncView {
                    color_packet: color_view(*old(color)),
                    depth_packets: views(old(queue)@),
                },
            ) is None,
        },
{
    let timestamp = match color {
        Some(color_packet) => color_packet.timestamp,
        None => {
            return None;
        },
    };
    let ghost held = queue@;
    let ghost depths = views(held);
    assert(depths.subrange(0, depths.len() as int) =~= depths);
    let mut position: usize = 0;
    while position < queue.len() && queue[position].timestamp <= timestamp
        invariant
            position <= queue@.len(),
            queue@ == held,
            depths == views(held),
            first_later(depths, timestamp) == position + first_later(
                depths.subrange(position as int, depths.len() as int),
                timestamp,
            ),
        decreases queue@.len() - position,
    {
        proof {
            let rest = depths.subrange(position as int, depths.len() as int);
            assert(rest.drop_first() =~= depths.subrange(position + 1, depths.len() as int));
        }
        position += 1;
    }
    if position == queue.len() {
        return None;
    }
    let mut dropped: usize = 0;
    while dropped < position
        invariant
            dropped <= position < held.len(),
            queue@ =~= held.subrange(dropped as int, held.len() as int),
        decreases position - dropped,
    {
        queue.pop_front();
        dropped += 1;
    }
    let depth_packet = queue.pop_front();
    let color_packet = color.take();
    assert(views(queue@) =~= depths.subrange(position + 1, depths.len() as int));
    match (color_packet, depth_packet) {
        (Some(color_packet), Some(depth_packet)) => Some((color_packet, depth_packet)),
        _ => None,
    }
}

impl PacketSync {
    #[verifier::type_invariant]
    spec fn bounded(self) -> bool {
        self.depth_packet@.len() <= DEPTH_QUEUE_CAPACITY
    }

    /// A synchroniser that holds nothing.
    pub fn new() -> (sync: Self)
        ensures
            sync@ == (PacketSyncView { color_packet: None, depth_packets: Seq::empty() }),
    {
        let sync = Self {
            color_packet: None,
            depth_packet: VecDeque::with_capacity(DEPTH_QUEUE_CAPACITY),
        };
        assert(sync@.depth_packets =~= Seq::empty());
        sync
    }

    /// Puts `color_packet` in the place of the color packet that waits.
    pub fn push_color_packet(&mut self, color_packet: ColorPacket)
        ensures
            final(self)@ == (PacketSyncView {
                color_packet: Some(color_packet@),
                depth_packets: old(self)@.depth_packets,
            }),
    {
        proof {
            use_type_invariant(&*self);
        }
        self.color_packet = Some(color_packet);
    }

    /// Puts `depth_packet` behind the depth packets that wait. No more than
    /// ten wait at a time: where ten wait already, the oldest is dropped.
    pub fn push_depth_packet(&mut self, depth_packet: DepthPacket)
        ensures
            final(self)@ == (PacketSyncView {
                color_packet: old(self)@.color_packet,
                depth_packets: pushed(old(self)@.depth_packets, depth_packet@),
            }),
            old(self)@.depth_packets.len() <= DEPTH_QUEUE_CAPACITY,
            final(self)@.depth_packets.len() <= DEPTH_QUEUE_CAPACITY,
    {
        proof {
            use_type_invariant(&*self);
        }
        let mut queue: VecDeque<DepthPacket> = VecDeque::new();
        core::mem::swap(&mut self.depth_packet, &mut queue);
        push_depth(&mut queue, depth_packet);
        self.depth_packet = queue;
    }

    /// Hands out the color packet that waits together with the first depth
    /// packet later than it, if there are both. The depth packets before
    /// that one are dropped. Without such a pair everything stays.
    pub fn poll_packets(&mut self) -> (pair: Option<(ColorPacket, DepthPacket)>)
        ensures
            final(self)@ == after_poll(old(self)@),
            match pair {
                Some((color, depth)) => polled(old(self)@) == Some((color@, depth@)),
                None => polled(old(self)@) is None,
            },
    {
        proof {
            use_type_invariant(&*self);
        }
        let mut queue: VecDeque<DepthPacket> = VecDeque::new();
        core::mem::swap(&mut self.depth_packet, &mut queue);
        let mut color: Option<ColorPacket> = None;
        core::mem::swap(&mut self.color_packet, &mut color);
        let pair = poll(&mut color, &mut queue);
        self.color_packet = color;
        self.depth_packet = queue;
        pair
    }

    /// Drops everything that is held.
    pub fn clear(&mut self)
        ensures
            final(self)@ == (PacketSyncView { color_packet: None, depth_packets: Seq::empty() }),
    {
        self.depth_packet = VecDeque::new();
        self.color_packet = None;
        assert(self@.depth_packets =~= Seq::empty());
    }

    /// How many depth packets wait: ten at most.
    pub fn depth_len(&self) -> (length: usize)
        ensures
            length == self@.depth_packets.len(),
            length <= DEPTH_QUEUE_CAPACITY,
    {
        proof {
            use_type_invariant(self);
        }
        self.depth_packet.len()
    }
}

/// Where `first_later` points there is a depth packet later than the
/// timestamp, and none before it is later; where it points behind the last,
/// none is later at all.
pub proof fn lemma_first_later(depths: Seq<DepthPacketView>, timestamp: u32)
    ensures
        0 <= first_later(depths, timestamp) <= depths.len(),
        forall|j: int|
            0 <= j < first_later(depths, timestamp) ==> (#[trigger] depths[j]).timestamp
                <= timestamp,
        first_later(depths, timestamp) < depths.len() ==> depths[first_later(
            depths,
            timestamp,
        )].timestamp > timestamp,
    decreases depths.len(),
{
    if depths.len() > 0 && depths[0].timestamp <= timestamp {
        let rest = depths.drop_first();
        lemma_first_later(rest, timestamp);
        assert forall|j: int| 0 <= j < first_later(depths, timestamp) implies (
        #[trigger] depths[j]).timestamp <= timestamp by {
            if j > 0 {
                assert(depths[j] == rest[j - 1]);
            }
        }
    }
}

/// A poll hands out a pair if and only if a color packet waits and some
/// depth packet that waits is later than it.
pub proof fn lemma_poll_pairs_iff_later(state: PacketSyncView)
    ensures
        polled(state) is Some <==> (state.color_packet matches Some(color) && exists|j: int|
            0 <= j < state.depth_packets.len() && (#[trigger] state.depth_packets[j]).timestamp
                > color.timestamp),
        polled(state) matches Some(pair) ==> pair.1.timestamp > pair.0.timestamp,
{
    if let Some(color) = state.color_packet {
        lemma_first_later(state.depth_packets, color.timestamp);
    }
}

} // verus!
