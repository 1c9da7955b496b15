//! Reassembly of color packets from bulk transfers.
//!
//! A color packet on the wire is an 8-byte header (`sequence`, then the magic
//! `BBBB`), the JPEG image, up to three padding bytes, a filler, and a 56-byte
//! footer of fourteen little-endian words.
use vstd::prelude::*;
use vstd::slice::{slice_subrange, slice_to_vec};

use crate::packet::{ColorPacket, ColorPacketView};
use crate::wire::{le_u32, read_u32};

verus! {

/// Most bytes that the parser holds at a time.
pub const CAPACITY: usize = 2097152;

/// Bytes of the packet header.
pub const HEADER_SIZE: usize = 8;

/// Bytes of the packet footer.
pub const FOOTER_SIZE: usize = 56;

/// First word of a footer: `9999`.
pub const FOOTER_MAGIC: u32 = 0x39393939;

/// Ninth word of a footer: `BBBB`.
pub const TRAILING_MAGIC: u32 = 0x42424242;

/// Word `k` of the footer that ends `memory`.
pub open spec fn footer_word(memory: Seq<u8>, k: int) -> u32 {
    le_u32(memory, memory.len() - FOOTER_SIZE + 4 * k)
}

/// The sequence number in the header of `memory`.
pub open spec fn header_sequence(memory: Seq<u8>) -> u32 {
    le_u32(memory, 0)
}

/// `memory` is long enough to hold a header and a footer, and ends in a
/// footer with both magic words in place.
pub open spec fn is_framed(memory: Seq<u8>) -> bool {
    &&& memory.len() >= HEADER_SIZE + FOOTER_SIZE
    &&& footer_word(memory, 0) == FOOTER_MAGIC
    &&& footer_word(memory, 8) == TRAILING_MAGIC
}

/// The footer of `memory` agrees with what `memory` is: its packet size is
/// the length, its sequence is the header's, and its filler fits.
pub open spec fn is_consistent(memory: Seq<u8>) -> bool {
    &&& memory.len() == footer_word(memory, 9)
    &&& header_sequence(memory) == footer_word(memory, 1)
    &&& footer_word(memory, 2) <= memory.len() - HEADER_SIZE - FOOTER_SIZE
}

/// Length of what lies between header and filler.
pub open spec fn payload_length(memory: Seq<u8>) -> int {
    memory.len() - HEADER_SIZE - FOOTER_SIZE - footer_word(memory, 2)
}

/// The first `end` bytes after the header end in a JPEG end-of-image marker.
pub open spec fn eoi_at(memory: Seq<u8>, end: int) -> bool {
    &&& end >= 2
    &&& memory[HEADER_SIZE + end - 2] == 0xff
    &&& memory[HEADER_SIZE + end - 1] == 0xd9
}

/// Length of the JPEG image in `memory`: the shortest cut, at most three
/// bytes before the filler, that ends in an end-of-image marker; 0 if there
/// is none.
pub open spec fn jpeg_length(memory: Seq<u8>) -> int {
    let end = payload_length(memory);
    if eoi_at(memory, end - 3) {
        end - 3
    } else if eoi_at(memory, end - 2) {
        end - 2
    } else if eoi_at(memory, end - 1) {
        end - 1
    } else if eoi_at(memory, end) {
        end
    } else {
        0
    }
}

/// `memory` is one whole packet with an image in it.
pub open spec fn is_packet(memory: Seq<u8>) -> bool {
    is_framed(memory) && is_consistent(memory) && jpeg_length(memory) != 0
}

/// The packet that `memory` holds.
pub open spec fn packet_of(memory: Seq<u8>) -> ColorPacketView {
    ColorPacketView {
        sequence: header_sequence(memory),
        timestamp: footer_word(memory, 5),
        exposure: footer_word(memory, 6),
        gain: footer_word(memory, 7),
        gamma: footer_word(memory, 10),
        jpeg_buffer: memory.subrange(HEADER_SIZE as int, HEADER_SIZE + jpeg_length(memory)),
    }
}

/// What the parser holds after a transfer `buffer` came in while it held
/// `memory`.
pub open spec fn memory_after(memory: Seq<u8>, buffer: Seq<u8>) -> Seq<u8> {
    let joined = memory + buffer;
    if joined.len() <= CAPACITY && !is_framed(joined) {
        joined
    } else {
        Seq::empty()
    }
}

/// The packet that a transfer `buffer` completes while the parser holds
/// `memory`, if it completes one.
pub open spec fn packet_after(memory: Seq<u8>, buffer: Seq<u8>) -> Option<ColorPacketView> {
    let joined = memory + buffer;
    if joined.len() <= CAPACITY && is_packet(joined) {
        Some(packet_of(joined))
    } else {
        None
    }
}

/// Collects the transfers of the color stream and cuts them into packets.
pub struct ColorStreamParser {
    memory: Vec<u8>,
}

impl View for ColorStreamParser {
    type V = Seq<u8>;

    /// The bytes collected so far.
    closed spec fn view(&self) -> Seq<u8> {
        self.memory@
    }
}

impl ColorStreamParser {
    #[verifier::type_invariant]
    spec fn within_capacity(self) -> bool {
        self.memory@.len() <= CAPACITY
    }

    /// A parser that holds nothing.
    pub fn new() -> (parser: Self)
        ensures
            parser@ == Seq::<u8>::empty(),
    {
        Self { memory: Vec::with_capacity(CAPACITY) }
    }

    /// Takes one transfer in. Returns the packet that it completes, if any.
    ///
    /// A transfer that would take the parser over its capacity empties it. So
    /// does a footer that disagrees with the bytes before it, or an image
    /// without end marker. While no footer is in sight the bytes are kept.
    pub fn parse(&mut self, buffer: Vec<u8>) -> (packet: Option<ColorPacket>)
        ensures
            final(self)@ == memory_after(old(self)@, buffer@),
            match packet {
                Some(p) => packet_after(old(self)@, buffer@) == Some(p@),
                None => packet_after(old(self)@, buffer@) is None,
            },
    {
        proof {
            use_type_invariant(&*self);
        }
        let mut memory: Vec<u8> = Vec::new();
        core::mem::swap(&mut self.memory, &mut memory);
        let packet = take_in(&mut memory, buffer);
        self.memory = memory;
        packet
    }
}

/// One step of the parser on the bytes it holds.
fn take_in(memory: &mut Vec<u8>, buffer: Vec<u8>) -> (packet: Option<ColorPacket>)
    requires
        old(memory)@.len() <= CAPACITY,
    ensures
        final(memory)@.len() <= CAPACITY,
        final(memory)@ == memory_after(old(memory)@, buffer@),
        match packet {
            Some(p) => packet_after(old(memory)@, buffer@) == Some(p@),
            None => packet_after(old(memory)@, buffer@) is None,
        },
{
    let mut buffer = buffer;
    if buffer.len() > CAPACITY - memory.len() {
        memory.clear();
        return None;
    }
    memory.append(&mut buffer);
    let length: usize = memory.len();
    if length < HEADER_SIZE + FOOTER_SIZE {
        return None;
    }
    let footer: usize = length - FOOTER_SIZE;
    let magic_header = read_u32(memory.as_slice(), footer);
    let magic_footer = read_u32(memory.as_slice(), footer + 32);
    if magic_header != FOOTER_MAGIC || magic_footer != TRAILING_MAGIC {
        return None;
    }
    let sequence = read_u32(memory.as_slice(), 0);
    let footer_sequence = read_u32(memory.as_slice(), footer + 4);
    let filler_length = read_u32(memory.as_slice(), footer + 8);
    let packet_size = read_u32(memory.as_slice(), footer + 36);
    if length != packet_size as usize || sequence != footer_sequence || length - HEADER_SIZE
        - FOOTER_SIZE < filler_length as usize {
        memory.clear();
        return None;
    }
    let end: usize = length - HEADER_SIZE - FOOTER_SIZE - filler_length as usize;
    let mut cut: usize = 0;
    let mut index: usize = 0;
    while index < 4 && end >= index + 2
        invariant
            index <= 4,
            end + HEADER_SIZE <= memory@.len() <= CAPACITY,
            cut == 0 || (end - index < cut <= end),
            cut != 0 ==> eoi_at(memory@, cut as int),
            forall|e: int| end - index < e < cut ==> !eoi_at(memory@, e),
            cut == 0 ==> forall|e: int| end - index < e <= end ==> !eoi_at(memory@, e),
        decreases 4 - index,
    {
        let eoi: usize = end - index;
        if memory[HEADER_SIZE + eoi - 2] == 0xff && memory[HEADER_SIZE + eoi - 1] == 0xd9 {
            cut = eoi;
        }
        index += 1;
    }
    if cut == 0 {
        memory.clear();
        return None;
    }
    let packet = ColorPacket {
        sequence,
        timestamp: read_u32(memory.as_slice(), footer + 20),
        exposure: read_u32(memory.as_slice(), footer + 24),
        gain: read_u32(memory.as_slice(), footer + 28),
        gamma: read_u32(memory.as_slice(), footer + 40),
        jpeg_buffer: slice_to_vec(
            slice_subrange(memory.as_slice(), HEADER_SIZE, HEADER_SIZE + cut),
        ),
    };
    memory.clear();
    Some(packet)
}

/// Every packet that the parser hands out carries an image that ends in the
/// JPEG end-of-image marker `ff d9`.
pub proof fn lemma_packet_ends_with_eoi(memory: Seq<u8>, buffer: Seq<u8>)
    requires
        packet_after(memory, buffer) is Some,
    ensures
        ({
            let jpeg = packet_after(memory, buffer)->Some_0.jpeg_buffer;
            &&& jpeg.len() >= 2
            &&& jpeg[jpeg.len() - 2] == 0xff
            &&& jpeg[jpeg.len() - 1] == 0xd9
        }),
{
}

/// A transfer that takes the parser over its capacity leaves it as a new
/// parser is: empty, whatever it held, and no packet comes out.
pub proof fn lemma_overflow_resets(memory: Seq<u8>, buffer: Seq<u8>)
    requires
        memory.len() + buffer.len() > CAPACITY,
    ensures
        memory_after(memory, buffer) == Seq::<u8>::empty(),
        packet_after(memory, buffer) is None,
{
}

} // verus!
