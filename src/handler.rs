//! What a connection handler does with the outcome of each read from its
//! client: stop on an orderly close, broadcast the chunk it read, or fail.
//! Every read is handled on its own: chunks are never joined or split.
use vstd::prelude::*;
use vstd::slice::slice_subrange;

verus! {

/// Size of the buffer a handler reads into; one read yields at most this many bytes.
pub const READ_BUFFER_SIZE: usize = 1024;

/// The bytes that `String::from_utf8_lossy` makes of `bytes`, re-encoded as UTF-8.
pub uninterp spec fn lossy_utf8(bytes: Seq<u8>) -> Seq<u8>;

/// Every byte is below 0x80, so the bytes are ASCII text.
pub open spec fn is_ascii_bytes(bytes: Seq<u8>) -> bool {
    forall|i: int| 0 <= i < bytes.len() ==> bytes[i] < 128
}

/// Relies on `String::from_utf8_lossy`: the result is a function of the bytes
/// alone, and valid UTF-8 (so in particular ASCII) comes back unchanged.
#[verifier::external_body]
fn decode_lossy(bytes: &[u8]) -> (text: Vec<u8>)
    ensures
        text@ == lossy_utf8(bytes@),
        is_ascii_bytes(bytes@) ==> text@ == bytes@,
{
    String::from_utf8_lossy(bytes).into_owned().into_bytes()
}

/// Outcome of one read from a client connection.
#[derive(Debug, Clone, Copy, PartialEq, Eq)]
pub enum ReadEvent {
    /// The read succeeded and placed this many bytes at the start of the buffer;
    /// zero means the peer closed the connection.
    Received(usize),
    /// The read failed.
    Failed,
}

/// What the handler does next.
#[derive(Debug, PartialEq, Eq)]
pub enum HandlerAction {
    /// The peer closed the connection: the handler ends, without error.
    Finish,
    /// Write these bytes to every registered client, then read again.
    Broadcast(Vec<u8>),
    /// The read failed: the handler stops with a fatal error.
    Fail,
}

/// Mathematical form of a `HandlerAction`.
pub ghost enum Reaction {
    Finish,
    Broadcast(Seq<u8>),
    Fail,
}

impl View for HandlerAction {
    type V = Reaction;

    open spec fn view(&self) -> Reaction {
        match self {
            HandlerAction::Finish => Reaction::Finish,
            HandlerAction::Broadcast(m) => Reaction::Broadcast(m@),
            HandlerAction::Fail => Reaction::Fail,
        }
    }
}

/// A read event is possible for `buffer` when it reports no more bytes than fit.
pub open spec fn read_fits(buffer: Seq<u8>, event: ReadEvent) -> bool {
    match event {
        ReadEvent::Received(n) => n <= buffer.len(),
        ReadEvent::Failed => true,
    }
}

/// The handler's reaction to `event` after reading into `buffer`: the first
/// `n` bytes of a successful read, decoded on their own, are the message.
pub open spec fn reaction(buffer: Seq<u8>, event: ReadEvent) -> Reaction {
    match event {
        ReadEvent::Received(n) => if n == 0 {
            Reaction::Finish
        } else {
            Reaction::Broadcast(lossy_utf8(buffer.take(n as int)))
        },
        ReadEvent::Failed => Reaction::Fail,
    }
}

/// Decides what the handler does after one read into `buffer`.
pub fn on_read(buffer: &[u8], event: ReadEvent) -> (action: HandlerAction)
    requires
        read_fits(buffer@, event),
    ensures
        action@ == reaction(buffer@, event),
        match event {
            ReadEvent::Received(n) => n > 0 && is_ascii_bytes(buffer@.take(n as int))
                ==> action@ == Reaction::Broadcast(buffer@.take(n as int)),
            ReadEvent::Failed => true,
        },
{
    match event {
        ReadEvent::Received(n) => {
            if n == 0 {
                HandlerAction::Finish
            } else {
                let chunk = slice_subrange(buffer, 0, n);
                assert(chunk@ == buffer@.take(n as int));
                HandlerAction::Broadcast(decode_lossy(chunk))
            }
        },
        ReadEvent::Failed => HandlerAction::Fail,
    }
}

} // verus!
