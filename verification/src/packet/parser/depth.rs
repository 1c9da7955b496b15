//! Reassembly of depth packets from isochronous transfers.
//!
//! A depth frame arrives as ten sub-packets. Each sub-packet is one sub-image
//! of packed samples followed by a 152-byte footer of 38 little-endian words,
//! and may be split over several transfers. The transfer that brings the
//! parser to exactly one sub-image plus one footer ends the sub-packet.
use vstd::prelude::*;

use crate::packet::{DepthPacket, DepthPacketView};
use crate::wire::{le_u32, read_u32};

verus! {

/// Bytes of one sub-image: 512 x 424 samples of 11 bits.
pub const WORKER_CAPACITY: usize = 298496;

/// Bytes of the ten sub-images of a frame.
pub const MEMORY_CAPACITY: usize = 2984960;

/// Bytes of the footer of a sub-packet.
pub const FOOTER_SIZE: usize = 152;

/// The mask of a frame of which all ten sub-packets were seen.
pub const COMPLETE_MASK: u16 = 0x3ff;

/// Sequence numbers per window of the loss count.
pub const INTERVAL: u32 = 30;

/// What a [`DepthStreamParser`] holds, as plain values.
pub struct DepthParserState {
    /// The part of the current sub-image that has come in.
    pub worker: Seq<u8>,
    /// The sub-images of the current frame, each at its place.
    pub memory: Seq<u8>,
    /// Frames handed out in the current window of the loss count, as the
    /// sequence number that a gapless stream would have reached.
    pub processed_packets: Option<u32>,
    /// Sequence number of the frame being collected.
    pub current_sequence: u32,
    /// Bit `k` is set when sub-packet `k` of the frame was seen.
    pub subsequence_mask: u16,
}

/// The state of a parser that has seen nothing.
pub open spec fn initial_state() -> DepthParserState {
    DepthParserState {
        worker: Seq::empty(),
        memory: Seq::new(MEMORY_CAPACITY as nat, |i: int| 0u8),
        processed_packets: None,
        current_sequence: 0,
        subsequence_mask: 0,
    }
}

/// Word `k` of the footer that ends `buffer`.
pub open spec fn footer_word(buffer: Seq<u8>, k: int) -> u32 {
    le_u32(buffer, buffer.len() - FOOTER_SIZE + 4 * k)
}

/// The timestamp in the footer that ends `buffer`.
pub open spec fn footer_timestamp(buffer: Seq<u8>) -> u32 {
    footer_word(buffer, 2)
}

/// The frame's sequence number in the footer that ends `buffer`.
pub open spec fn footer_sequence(buffer: Seq<u8>) -> u32 {
    footer_word(buffer, 3)
}

/// The sub-packet's number in the footer that ends `buffer`.
pub open spec fn footer_subsequence(buffer: Seq<u8>) -> u32 {
    footer_word(buffer, 4)
}

/// The sub-image's length in the footer that ends `buffer`.
pub open spec fn footer_length(buffer: Seq<u8>) -> u32 {
    footer_word(buffer, 5)
}

/// `buffer` is the last transfer of a sub-packet: with it the parser holds
/// exactly one sub-image and one footer.
pub open spec fn carries_footer(worker: Seq<u8>, buffer: Seq<u8>) -> bool {
    worker.len() + buffer.len() == WORKER_CAPACITY + FOOTER_SIZE
}

/// `buffer` ends a sub-packet whose footer gives the length of the sub-image
/// that came in.
pub open spec fn ends_sub_packet(worker: Seq<u8>, buffer: Seq<u8>) -> bool {
    carries_footer(worker, buffer) && footer_length(buffer) == WORKER_CAPACITY
}

/// The sub-image that `buffer` completes.
pub open spec fn sub_image(worker: Seq<u8>, buffer: Seq<u8>) -> Seq<u8> {
    worker + buffer.subrange(0, buffer.len() - FOOTER_SIZE)
}

/// `buffer` brings more bytes than a sub-image has room for, and is not the
/// end of a sub-packet.
pub open spec fn overflows(worker: Seq<u8>, buffer: Seq<u8>) -> bool {
    worker.len() + buffer.len() > WORKER_CAPACITY && !carries_footer(worker, buffer)
}

/// The part of a sub-image held after `buffer` came in: more of the same
/// sub-image, or nothing after an empty transfer or the end of a
/// sub-packet.
pub open spec fn worker_after(worker: Seq<u8>, buffer: Seq<u8>) -> Seq<u8> {
    if buffer.len() == 0 || carries_footer(worker, buffer) {
        Seq::empty()
    } else {
        worker + buffer
    }
}

/// `mask` with the bit of sub-packet `subsequence` set. A number that no bit
/// of the mask stands for leaves it as it is.
pub open spec fn mask_with(mask: u16, subsequence: u32) -> u16 {
    if subsequence < 16 {
        mask | (1u16 << subsequence)
    } else {
        mask
    }
}

/// `memory` with `image` at the place of sub-packet `subsequence`. An image
/// whose place would lie outside the frame is left out.
pub open spec fn memory_with(memory: Seq<u8>, subsequence: u32, image: Seq<u8>) -> Seq<u8> {
    if subsequence < 10 {
        memory.subrange(0, subsequence * WORKER_CAPACITY) + image + memory.subrange(
            (subsequence + 1) * WORKER_CAPACITY,
            memory.len() as int,
        )
    } else {
        memory
    }
}

/// The loss count after the frame `sequence` was handed out. It advances by
/// one per frame and catches up with `sequence` at the end of a window in
/// which frames were lost, or once it lags by a window.
pub open spec fn processed_after(processed: Option<u32>, sequence: u32) -> u32 {
    let counted = match processed {
        Some(n) => n.wrapping_add(1),
        None => sequence,
    };
    let lag = sequence.wrapping_sub(counted);
    if (sequence % INTERVAL == 0 && lag != 0) || lag >= INTERVAL {
        sequence
    } else {
        counted
    }
}

/// `buffer` ends the first sub-packet of another frame while all ten
/// sub-packets of the current frame are in.
pub open spec fn emits(state: DepthParserState, buffer: Seq<u8>) -> bool {
    &&& ends_sub_packet(state.worker, buffer)
    &&& footer_sequence(buffer) != state.current_sequence
    &&& state.subsequence_mask == COMPLETE_MASK
}

/// The frame that the parser hands out when `buffer` comes in, if any: the
/// current frame, stamped with the time of the sub-packet that follows it.
pub open spec fn packet_after(state: DepthParserState, buffer: Seq<u8>) -> Option<
    DepthPacketView,
> {
    if emits(state, buffer) {
        Some(
            DepthPacketView {
                sequence: state.current_sequence,
                timestamp: footer_timestamp(buffer),
                buffer: state.memory,
            },
        )
    } else {
        None
    }
}

/// The state of the parser after `buffer` came in. Too many bytes for a
/// sub-image put the parser back to where a new parser stands.
pub open spec fn state_after(state: DepthParserState, buffer: Seq<u8>) -> DepthParserState {
    if overflows(state.worker, buffer) {
        initial_state()
    } else if ends_sub_packet(state.worker, buffer) {
        DepthParserState {
            worker: Seq::empty(),
            memory: memory_with(
                state.memory,
                footer_subsequence(buffer),
                sub_image(state.worker, buffer),
            ),
            processed_packets: if emits(state, buffer) {
                Some(processed_after(state.processed_packets, state.current_sequence))
            } else {
                state.processed_packets
            },
            current_sequence: footer_sequence(buffer),
            subsequence_mask: mask_with(
                if footer_sequence(buffer) != state.current_sequence {
                    0
                } else {
                    state.subsequence_mask
                },
                footer_subsequence(buffer),
            ),
        }
    } else {
        DepthParserState {
            worker: worker_after(state.worker, buffer),
            memory: state.memory,
            processed_packets: state.processed_packets,
            current_sequence: state.current_sequence,
            subsequence_mask: state.subsequence_mask,
        }
    }
}

/// Collects the transfers of the depth stream and puts the sub-packets of
/// each frame together.
pub struct DepthStreamParser {
    memory: Vec<u8>,
    worker: Vec<u8>,
    processed_packets: Option<u32>,
    current_sequence: u32,
    current_subsequence: u16,
}

impl View for DepthStreamParser {
    type V = DepthParserState;

    closed spec fn view(&self) -> DepthParserState {
        DepthParserState {
            worker: self.worker@,
            memory: self.memory@,
            processed_packets: self.processed_packets,
            current_sequence: self.current_sequence,
            subsequence_mask: self.current_subsequence,
        }
    }
}

impl DepthStreamParser {
    #[verifier::type_invariant]
    spec fn within_capacity(self) -> bool {
        &&& self.worker@.len() <= WORKER_CAPACITY
        &&& self.memory@.len() == MEMORY_CAPACITY
    }

    /// A parser that has seen nothing: an all-zero frame, no sub-packet.
    pub fn new() -> (parser: Self)
        ensures
            parser@ == initial_state(),
    {
        let parser = Self {
            memory: vec![0u8; MEMORY_CAPACITY],
            worker: Vec::with_capacity(WORKER_CAPACITY),
            processed_packets: None,
            current_sequence: 0,
            current_subsequence: 0,
        };
        assert(parser.memory@ =~= initial_state().memory);
        parser
    }

    /// Takes one transfer in. Returns the frame that it shows to be
    /// complete, if any.
    ///
    /// A frame is handed out when the first sub-packet of another frame
    /// ends and all ten sub-packets of the frame were seen. An empty
    /// transfer, or a footer with another length than the sub-image's,
    /// drops the sub-image that was coming in. Too many bytes for a
    /// sub-image drop everything: the parser is as a new one.
    pub fn parse(&mut self, buffer: Vec<u8>) -> (packet: Option<DepthPacket>)
        ensures
            final(self)@ == state_after(old(self)@, buffer@),
            match packet {
                Some(p) => packet_after(old(self)@, buffer@) == Some(p@) && p.buffer@.len()
                    == MEMORY_CAPACITY,
                None => packet_after(old(self)@, buffer@) is None,
            },
    {
        proof {
            use_type_invariant(&*self);
        }
        let mut buffer = buffer;
        let mut worker: Vec<u8> = Vec::new();
        core::mem::swap(&mut self.worker, &mut worker);
        if buffer.len() == 0 {
            worker.clear();
            self.worker = worker;
            return None;
        }
        if buffer.len() > WORKER_CAPACITY + FOOTER_SIZE || worker.len() != WORKER_CAPACITY
            + FOOTER_SIZE - buffer.len() {
            if buffer.len() > WORKER_CAPACITY - worker.len() {
                worker.clear();
                self.memory = vec![0u8; MEMORY_CAPACITY];
                self.processed_packets = None;
                self.current_sequence = 0;
                self.current_subsequence = 0;
                assert(self.memory@ =~= initial_state().memory);
            } else {
                worker.append(&mut buffer);
            }
            self.worker = worker;
            return None;
        }
        let at: usize = buffer.len() - FOOTER_SIZE;
        let timestamp = read_u32(buffer.as_slice(), at + 8);
        let sequence = read_u32(buffer.as_slice(), at + 12);
        let subsequence = read_u32(buffer.as_slice(), at + 16);
        let length = read_u32(buffer.as_slice(), at + 20);
        if length as usize != WORKER_CAPACITY {
            worker.clear();
            self.worker = worker;
            return None;
        }
        buffer.truncate(at);
        worker.append(&mut buffer);
        let mut packet: Option<DepthPacket> = None;
        if self.current_sequence != sequence {
            if self.current_subsequence == COMPLETE_MASK {
                let frame = self.memory.clone();
                packet =
                Some(DepthPacket { sequence: self.current_sequence, timestamp, buffer: frame });
                let counted = match self.processed_packets {
                    Some(n) => n.wrapping_add(1),
                    None => self.current_sequence,
                };
                let lag = self.current_sequence.wrapping_sub(counted);
                if (self.current_sequence % INTERVAL == 0 && lag != 0) || lag >= INTERVAL {
                    self.processed_packets = Some(self.current_sequence);
                } else {
                    self.processed_packets = Some(counted);
                }
            }
            self.current_sequence = sequence;
            self.current_subsequence = 0;
        }
        if subsequence < 16 {
            self.current_subsequence = self.current_subsequence | (1u16 << subsequence);
        }
        if subsequence < 10 {
            let start: usize = subsequence as usize * WORKER_CAPACITY;
            let ghost before = self@;
            let mut i: usize = 0;
            while i < WORKER_CAPACITY
                invariant
                    i <= WORKER_CAPACITY,
                    start + WORKER_CAPACITY <= MEMORY_CAPACITY,
                    worker@.len() == WORKER_CAPACITY,
                    before.memory.len() == MEMORY_CAPACITY,
                    self.memory@.len() == MEMORY_CAPACITY,
                    self.worker@.len() == 0,
                    self.memory@ =~= before.memory.subrange(0, start as int) + worker@.subrange(
                        0,
                        i as int,
                    ) + before.memory.subrange(start + i, MEMORY_CAPACITY as int),
                    self.processed_packets == before.processed_packets,
                    self.current_sequence == before.current_sequence,
                    self.current_subsequence == before.subsequence_mask,
                decreases WORKER_CAPACITY - i,
            {
                self.memory[start + i] = worker[i];
                i += 1;
            }
            assert(self.memory@ =~= memory_with(before.memory, subsequence, worker@));
        }
        worker.clear();
        self.worker = worker;
        packet
    }
}

/// Sub-packet `k` of the current frame is marked in `mask`.
pub open spec fn seen(mask: u16, k: u32) -> bool {
    (mask >> k) & 1 == 1
}

/// The state after each of `transfers` came in, in turn, from `state` on.
pub open spec fn run(state: DepthParserState, transfers: Seq<Seq<u8>>) -> DepthParserState
    decreases transfers.len(),
{
    if transfers.len() == 0 {
        state
    } else {
        state_after(run(state, transfers.drop_last()), transfers.last())
    }
}

/// The frame handed out when transfer `i` of `transfers` came in, if any.
pub open spec fn emitted_at(state: DepthParserState, transfers: Seq<Seq<u8>>, i: int) -> Option<
    DepthPacketView,
> {
    packet_after(run(state, transfers.take(i)), transfers[i])
}

/// The frame being collected before transfer `i` of `transfers` came in.
pub open spec fn sequence_at(state: DepthParserState, transfers: Seq<Seq<u8>>, i: int) -> u32 {
    run(state, transfers.take(i)).current_sequence
}

/// No frame is taken up again once another frame has followed it: where
/// the same frame is being collected at two moments, it is being collected
/// at every moment between them.
pub open spec fn frames_in_runs(state: DepthParserState, transfers: Seq<Seq<u8>>) -> bool {
    forall|a: int, b: int, c: int|
        #![trigger sequence_at(state, transfers, a), sequence_at(state, transfers, b), sequence_at(state, transfers, c)]
        0 <= a <= b <= c <= transfers.len() && sequence_at(state, transfers, a) == sequence_at(
            state,
            transfers,
            c,
        ) ==> sequence_at(state, transfers, b) == sequence_at(state, transfers, a)
}

/// The mask with one more bit set marks what it marked before and the
/// sub-packet of that bit, and nothing else; the empty mask marks nothing.
pub proof fn lemma_seen_after_mark(mask: u16, subsequence: u32, k: u32)
    requires
        k < 16,
    ensures
        seen(mask_with(mask, subsequence), k) == (seen(mask, k) || subsequence == k),
        !seen(0, k),
{
    if subsequence < 16 {
        assert(((mask | (1u16 << subsequence)) >> k) & 1 == 1 <==> ((mask >> k) & 1 == 1
            || subsequence == k)) by (bit_vector)
            requires
                k < 16,
                subsequence < 16,
        ;
    }
    assert((0u16 >> k) & 1 != 1) by (bit_vector);
}

/// A frame is handed out only when each of its ten sub-packets is marked and
/// a sub-packet of another frame has just ended; it is the frame that was
/// being collected, as it was held.
pub proof fn lemma_emits_whole_frames_only(state: DepthParserState, buffer: Seq<u8>)
    requires
        packet_after(state, buffer) is Some,
    ensures
        state.subsequence_mask == COMPLETE_MASK,
        forall|k: u32| k < 10 ==> seen(state.subsequence_mask, k),
        ends_sub_packet(state.worker, buffer),
        packet_after(state, buffer)->Some_0.sequence == state.current_sequence,
        packet_after(state, buffer)->Some_0.buffer == state.memory,
        state_after(state, buffer).current_sequence != state.current_sequence,
{
    assert forall|k: u32| k < 10 implies seen(COMPLETE_MASK, k) by {
        assert((0x3ffu16 >> k) & 1 == 1) by (bit_vector)
            requires
                k < 10,
        ;
    }
}

/// A sub-packet is marked after a transfer only if that transfer ended it,
/// or if it was marked before and the frame is still the same. So a
/// sub-packet that never came in is never marked, and its frame never
/// handed out.
pub proof fn lemma_marks_only_what_came(state: DepthParserState, buffer: Seq<u8>, k: u32)
    requires
        k < 16,
        seen(state_after(state, buffer).subsequence_mask, k),
    ensures
        (ends_sub_packet(state.worker, buffer) && footer_subsequence(buffer) == k) || (seen(
            state.subsequence_mask,
            k,
        ) && state_after(state, buffer).current_sequence == state.current_sequence),
{
    if overflows(state.worker, buffer) {
        lemma_seen_after_mark(0, 0, k);
    } else if ends_sub_packet(state.worker, buffer) {
        if footer_sequence(buffer) != state.current_sequence {
            lemma_seen_after_mark(0, footer_subsequence(buffer), k);
        } else {
            lemma_seen_after_mark(state.subsequence_mask, footer_subsequence(buffer), k);
        }
    }
}

/// Over any row of transfers in which no frame is taken up again after
/// another has followed it, no two frames handed out carry the same sequence
/// number.
pub proof fn lemma_one_packet_per_sequence(
    state: DepthParserState,
    transfers: Seq<Seq<u8>>,
    i: int,
    j: int,
)
    requires
        frames_in_runs(state, transfers),
        0 <= i < j < transfers.len(),
        emitted_at(state, transfers, i) is Some,
        emitted_at(state, transfers, j) is Some,
    ensures
        emitted_at(state, transfers, i)->Some_0.sequence != emitted_at(
            state,
            transfers,
            j,
        )->Some_0.sequence,
{
    let before = run(state, transfers.take(i));
    assert(transfers.take(i + 1).drop_last() =~= transfers.take(i));
    lemma_emits_whole_frames_only(before, transfers[i]);
    lemma_emits_whole_frames_only(run(state, transfers.take(j)), transfers[j]);
    if sequence_at(state, transfers, i) == sequence_at(state, transfers, j) {
        assert(sequence_at(state, transfers, i + 1) == sequence_at(state, transfers, i));
    }
}

/// A transfer that brings more bytes than a sub-image has room for, and is
/// not the end of a sub-packet, leaves the parser as a new parser is,
/// whatever it held, and no frame comes out.
pub proof fn lemma_overflow_resets(state: DepthParserState, buffer: Seq<u8>)
    requires
        state.worker.len() + buffer.len() > WORKER_CAPACITY,
        !carries_footer(state.worker, buffer),
    ensures
        packet_after(state, buffer) is None,
        state_after(state, buffer) == initial_state(),
{
}

} // verus!
