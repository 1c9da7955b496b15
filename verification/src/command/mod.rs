//! The command protocol: what a command looks like on the wire and how one
//! transaction runs.
use vstd::prelude::*;

pub mod commands;
pub mod response;
pub mod transaction;

pub use commands::{
    color_setting_command, init_streams_command, led_setting_command, read_depth_params_command,
    read_firware_versions_command, read_hardware_info_command, read_p0_tables_command,
    read_rgb_params_command, read_serial_number_command, read_status_command, set_mode_command,
    set_stream_state_command, shutdown_command, stop_command,
};
pub use response::{
    ColorSettingResponse, DepthParamsResponse, FirmwareVersionResponse, P0TablesResponse,
    RgbParamsResponse,
};
pub use transaction::CommandTransaction;

use crate::wire::{
    le_u32, le_u32s, lemma_read_written_u32, lemma_read_written_u32s, lemma_u32s_len, push_u32,
    read_u32, u32_le_bytes, u32s_le_bytes,
};

verus! {

/// First word of every command.
pub const MAGIC_NUMBER: u32 = 0x06022009;

/// Bytes of a command before its parameters: five words.
pub const HEADER_SIZE: usize = 20;

/// Most parameters that a command carries.
pub const MAX_PARAMETERS: usize = 4;

/// What a [`Command`] is, as plain values.
pub struct CommandView {
    pub command_id: u32,
    pub max_response_length: u32,
    pub min_response_length: u32,
    pub has_sequence: bool,
    pub parameters: Seq<u32>,
}

/// A command for the device: its number, the bounds of what the device
/// answers, and up to four parameters.
#[derive(Debug)]
pub struct Command {
    command_id: u32,
    max_response_length: u32,
    min_response_length: u32,
    has_sequence: bool,
    parameters: Vec<u32>,
}

impl View for Command {
    type V = CommandView;

    closed spec fn view(&self) -> CommandView {
        CommandView {
            command_id: self.command_id,
            max_response_length: self.max_response_length,
            min_response_length: self.min_response_length,
            has_sequence: self.has_sequence,
            parameters: self.parameters@,
        }
    }
}

/// The bytes of a command on the wire: the magic number, the sequence
/// number, the most that the response may hold, the command's number, a zero
/// word, then the parameters; each a little-endian word.
pub open spec fn command_bytes(
    sequence: u32,
    max_response_length: u32,
    command_id: u32,
    parameters: Seq<u32>,
) -> Seq<u8> {
    u32_le_bytes(MAGIC_NUMBER) + u32_le_bytes(sequence) + u32_le_bytes(max_response_length)
        + u32_le_bytes(command_id) + u32_le_bytes(0) + u32s_le_bytes(parameters)
}

impl Clone for Command {
    fn clone(&self) -> (command: Self)
        ensures
            command@ == self@,
    {
        proof {
            use_type_invariant(self);
        }
        let parameters = self.parameters.clone();
        Self {
            command_id: self.command_id,
            max_response_length: self.max_response_length,
            min_response_length: self.min_response_length,
            has_sequence: self.has_sequence,
            parameters,
        }
    }
}

impl Command {
    #[verifier::type_invariant]
    spec fn few_parameters(self) -> bool {
        self.parameters@.len() <= MAX_PARAMETERS
    }

    /// A command made of its parts.
    pub(crate) fn new(
        command_id: u32,
        max_response_length: u32,
        min_response_length: u32,
        has_sequence: bool,
        parameters: Vec<u32>,
    ) -> (command: Self)
        requires
            parameters@.len() <= MAX_PARAMETERS,
        ensures
            command@ == (CommandView {
                command_id,
                max_response_length,
                min_response_length,
                has_sequence,
                parameters: parameters@,
            }),
    {
        Self { command_id, max_response_length, min_response_length, has_sequence, parameters }
    }

    /// Whether the command takes the next number of the session's sequence.
    /// One that does not is sent with sequence 0.
    pub fn has_sequence(&self) -> (has_sequence: bool)
        ensures
            has_sequence == self@.has_sequence,
    {
        self.has_sequence
    }

    /// The command's number.
    pub fn command_id(&self) -> (command_id: u32)
        ensures
            command_id == self@.command_id,
    {
        self.command_id
    }

    /// Most bytes that the device answers with; 0 for a command without
    /// response.
    pub fn max_response_length(&self) -> (length: u32)
        ensures
            length == self@.max_response_length,
    {
        self.max_response_length
    }

    /// Fewest bytes of a whole response.
    pub fn min_response_length(&self) -> (length: u32)
        ensures
            length == self@.min_response_length,
    {
        self.min_response_length
    }

    /// The command as it goes over the wire with the given sequence number.
    pub fn as_bytes(&self, sequence: u32) -> (bytes: Vec<u8>)
        ensures
            bytes@ == command_bytes(
                sequence,
                self@.max_response_length,
                self@.command_id,
                self@.parameters,
            ),
            bytes@.len() == HEADER_SIZE + 4 * self@.parameters.len(),
    {
        proof {
            use_type_invariant(self);
        }
        let mut bytes: Vec<u8> = Vec::with_capacity(self.size());
        push_u32(&mut bytes, MAGIC_NUMBER);
        push_u32(&mut bytes, sequence);
        push_u32(&mut bytes, self.max_response_length);
        push_u32(&mut bytes, self.command_id);
        push_u32(&mut bytes, 0);
        let ghost header = bytes@;
        let mut i: usize = 0;
        while i < self.parameters.len()
            invariant
                i <= self.parameters@.len(),
                bytes@ == header + u32s_le_bytes(self.parameters@.take(i as int)),
            decreases self.parameters@.len() - i,
        {
            push_u32(&mut bytes, self.parameters[i]);
            proof {
                let done = self.parameters@.take(i + 1);
                assert(done.drop_last() =~= self.parameters@.take(i as int));
            }
            i += 1;
        }
        proof {
            assert(self.parameters@.take(i as int) =~= self.parameters@);
            lemma_u32s_len(self.parameters@);
        }
        bytes
    }

    /// Bytes of the command on the wire.
    pub fn size(&self) -> (size: usize)
        ensures
            size == HEADER_SIZE + 4 * self@.parameters.len(),
    {
        proof {
            use_type_invariant(self);
        }
        (5 + self.parameters.len()) * 4
    }
}

/// What the bytes of a command say, as plain values.
pub struct CommandHeaderView {
    pub sequence: u32,
    pub max_response_length: u32,
    pub command_id: u32,
    pub parameters: Seq<u32>,
}

/// What the bytes of a command say.
#[derive(Debug, Clone, PartialEq, Eq)]
pub struct CommandHeader {
    pub sequence: u32,
    pub max_response_length: u32,
    pub command_id: u32,
    pub parameters: Vec<u32>,
}

impl View for CommandHeader {
    type V = CommandHeaderView;

    open spec fn view(&self) -> CommandHeaderView {
        CommandHeaderView {
            sequence: self.sequence,
            max_response_length: self.max_response_length,
            command_id: self.command_id,
            parameters: self.parameters@,
        }
    }
}

/// `bytes` has the shape of a command: whole words, five of them or more,
/// the first the magic number and the fifth zero.
pub open spec fn is_command(bytes: Seq<u8>) -> bool {
    &&& bytes.len() >= HEADER_SIZE
    &&& bytes.len() % 4 == 0
    &&& le_u32(bytes, 0) == MAGIC_NUMBER
    &&& le_u32(bytes, 16) == 0
}

/// What `bytes` say, read as a command.
pub open spec fn decoded(bytes: Seq<u8>) -> CommandHeaderView {
    CommandHeaderView {
        sequence: le_u32(bytes, 4),
        max_response_length: le_u32(bytes, 8),
        command_id: le_u32(bytes, 12),
        parameters: le_u32s(bytes, HEADER_SIZE as int, ((bytes.len() - HEADER_SIZE) / 4) as nat),
    }
}

impl CommandHeader {
    /// Reads `bytes` as a command. Gives nothing where they do not have the
    /// shape of one.
    pub fn from_bytes(bytes: &[u8]) -> (header: Option<Self>)
        ensures
            header is Some <==> is_command(bytes@),
            header matches Some(h) ==> h@ == decoded(bytes@),
    {
        if bytes.len() < HEADER_SIZE || bytes.len() % 4 != 0 {
            return None;
        }
        if read_u32(bytes, 0) != MAGIC_NUMBER || read_u32(bytes, 16) != 0 {
            return None;
        }
        let count: usize = (bytes.len() - HEADER_SIZE) / 4;
        let mut parameters: Vec<u32> = Vec::with_capacity(count);
        let mut i: usize = 0;
        while i < count
            invariant
                i <= count,
                count == (bytes@.len() - HEADER_SIZE) / 4,
                HEADER_SIZE + 4 * count == bytes@.len() <= usize::MAX,
                parameters@ == le_u32s(bytes@, HEADER_SIZE as int, i as nat),
            decreases count - i,
        {
            parameters.push(read_u32(bytes, HEADER_SIZE + 4 * i));
            i += 1;
        }
        Some(
            CommandHeader {
                sequence: read_u32(bytes, 4),
                max_response_length: read_u32(bytes, 8),
                command_id: read_u32(bytes, 12),
                parameters,
            },
        )
    }
}

/// Reading back the bytes of a command gives the sequence number, the
/// response bound, the command's number and the parameters that went in,
/// each bit for bit.
pub proof fn lemma_command_round_trip(
    sequence: u32,
    max_response_length: u32,
    command_id: u32,
    parameters: Seq<u32>,
)
    ensures
        is_command(command_bytes(sequence, max_response_length, command_id, parameters)),
        decoded(command_bytes(sequence, max_response_length, command_id, parameters)) == (
        CommandHeaderView { sequence, max_response_length, command_id, parameters }),
{
    let bytes = command_bytes(sequence, max_response_length, command_id, parameters);
    let tail = u32s_le_bytes(parameters);
    let w0 = u32_le_bytes(MAGIC_NUMBER);
    let w1 = u32_le_bytes(sequence);
    let w2 = u32_le_bytes(max_response_length);
    let w3 = u32_le_bytes(command_id);
    let w4 = u32_le_bytes(0);
    lemma_u32s_len(parameters);
    lemma_read_written_u32(Seq::empty(), MAGIC_NUMBER, w1 + w2 + w3 + w4 + tail);
    lemma_read_written_u32(w0, sequence, w2 + w3 + w4 + tail);
    lemma_read_written_u32(w0 + w1, max_response_length, w3 + w4 + tail);
    lemma_read_written_u32(w0 + w1 + w2, command_id, w4 + tail);
    lemma_read_written_u32(w0 + w1 + w2 + w3, 0, tail);
    let count = ((bytes.len() - HEADER_SIZE) / 4) as nat;
    assert forall|i: int| 0 <= i < count implies le_u32(bytes, HEADER_SIZE + 4 * i)
        == parameters[i] by {
        lemma_read_written_u32s(parameters, i);
    }
    assert(decoded(bytes).parameters =~= parameters);
}

} // verus!
