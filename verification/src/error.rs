//! The ways in which the driver logic fails.
use vstd::prelude::*;

verus! {

/// Why the transport could not move the bytes of a transfer.
#[derive(Debug, Clone, Copy, PartialEq, Eq)]
pub enum TransportFailure {
    /// The endpoint stalled. The halt has to be cleared before it is used
    /// again.
    Stall,
    /// The device did not answer in time.
    Timeout,
    /// Any other failure of a transfer.
    Other,
}

/// The ways in which the driver logic fails.
#[derive(Debug, Clone, PartialEq, Eq)]
pub enum Error {
    /// A transfer failed.
    Transport(TransportFailure),
    /// A processor could not make an image of a packet; why, in words.
    Processing(String),
    /// No Kinect connected.
    NoDevice,
    /// The number of sent bytes differs: got the first, expected the second.
    Send(usize, usize),
    /// Not enough bytes received: got the first, expected the second.
    Receive(usize, u32),
    /// Responded with the wrong sequence number: got the first, expected the
    /// second.
    InvalidSequence(u32, u32),
    /// Received a completion in place of the response.
    PrematureComplete,
    /// Received something else in place of the completion.
    MissingComplete,
    /// Max iso packet for the endpoint is too small: endpoint, what it has,
    /// what is needed.
    MaxIsoPacket(u8, u16, u16),
    /// The serial number in the device protocol, the first, differs from the
    /// one that the bus reported, the second.
    SerialNumber(String, String),
    /// Too few bytes to read the named structure.
    UnalignedRead(&'static str),
    /// The named operation can happen only while running.
    OnlyWhileRunning(&'static str),
}

/// An [`Error`] as plain values.
pub enum ErrorView {
    Transport(TransportFailure),
    Processing(Seq<char>),
    NoDevice,
    Send(usize, usize),
    Receive(usize, u32),
    InvalidSequence(u32, u32),
    PrematureComplete,
    MissingComplete,
    MaxIsoPacket(u8, u16, u16),
    SerialNumber(Seq<char>, Seq<char>),
    UnalignedRead(&'static str),
    OnlyWhileRunning(&'static str),
}

impl View for Error {
    type V = ErrorView;

    open spec fn view(&self) -> ErrorView {
        match *self {
            Error::Transport(failure) => ErrorView::Transport(failure),
            Error::Processing(reason) => ErrorView::Processing(reason@),
            Error::NoDevice => ErrorView::NoDevice,
            Error::Send(got, expected) => ErrorView::Send(got, expected),
            Error::Receive(got, expected) => ErrorView::Receive(got, expected),
            Error::InvalidSequence(got, expected) => ErrorView::InvalidSequence(got, expected),
            Error::PrematureComplete => ErrorView::PrematureComplete,
            Error::MissingComplete => ErrorView::MissingComplete,
            Error::MaxIsoPacket(endpoint, got, expected) => ErrorView::MaxIsoPacket(
                endpoint,
                got,
                expected,
            ),
            Error::SerialNumber(protocol, bus) => ErrorView::SerialNumber(protocol@, bus@),
            Error::UnalignedRead(name) => ErrorView::UnalignedRead(name),
            Error::OnlyWhileRunning(name) => ErrorView::OnlyWhileRunning(name),
        }
    }
}

} // verus!
