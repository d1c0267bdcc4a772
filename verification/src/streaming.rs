//! Reading large data piece by piece. The pieces come from the network, one
//! for each pull; what a reader returns for a pull, and how the pieces add
//! up, is decided here.

use crate::client::ClientError;
use crate::text::join;
use std::sync::Arc;
use vstd::prelude::*;

verus! {

/// What one pull on a stream gave.
#[derive(Debug)]
pub enum StreamEvent {
    /// The next piece of the data.
    Chunk(Vec<u8>),
    /// The stream failed; the text says how.
    Failed(String),
    /// The stream has no more pieces.
    Exhausted,
}

/// The reason given for a stream that failed saying `cause`.
pub open spec fn stream_error_reason(cause: Seq<char>) -> Seq<char> {
    "Stream error: "@ + cause
}

/// The reason given for a range that could not be read, the stream saying
/// `cause`.
pub open spec fn range_error_reason(cause: Seq<char>) -> Seq<char> {
    "Read range error: "@ + cause
}

/// What one pull gives the reader: the piece, `None` at the end of the
/// stream, or `NetworkError` with what the stream said.
pub open spec fn pull_outcome(event: StreamEvent, r: Result<Option<Vec<u8>>, ClientError>) -> bool {
    match event {
        StreamEvent::Chunk(piece) => r matches Ok(Some(bytes)) && bytes@ == piece@,
        StreamEvent::Exhausted => r matches Ok(None),
        StreamEvent::Failed(cause) => r matches Err(ClientError::NetworkError { reason })
            && reason@ == stream_error_reason(cause@),
    }
}

/// The reason given for a range that does not fit the machine's word.
pub open spec fn range_too_large_reason() -> Seq<char> {
    range_error_reason("the range does not fit this machine's addresses"@)
}

/// The reader's side of a stream of large data. The pieces are fetched
/// elsewhere, one for each pull; the reader decides what a pull hands on and
/// how the pieces add up.
#[derive(Debug)]
pub struct DataStream {
    size: u64,
}

impl DataStream {
    /// The size of the whole data, in bytes.
    pub closed spec fn total(&self) -> u64 {
        self.size
    }

    /// The reader of a stream that holds `size` bytes in all.
    pub fn new(size: u64) -> (stream: Arc<DataStream>)
        ensures
            stream.total() == size,
    {
        Arc::new(DataStream { size })
    }

    /// What the reader hands on for one pull: the piece, `None` at the end
    /// of the stream, or `NetworkError` with what the stream said.
    pub fn next_chunk(&self, event: StreamEvent) -> (r: Result<Option<Vec<u8>>, ClientError>)
        ensures
            pull_outcome(event, r),
    {
        match event {
            StreamEvent::Chunk(piece) => Ok(Some(piece)),
            StreamEvent::Exhausted => Ok(None),
            StreamEvent::Failed(cause) => Err(
                ClientError::NetworkError { reason: join("Stream error: ", cause.as_str()) },
            ),
        }
    }

    /// Collects the stream from what its pulls gave, in order: the pieces up
    /// to the end of the stream, put together. A failure before the end
    /// gives the collection up with `NetworkError`. Events after the first
    /// that is no piece are not looked at; where the events run out before
    /// the stream ends, what came is handed back.
    pub fn collect_all(&self, events: &Vec<StreamEvent>) -> (r: Result<Vec<u8>, ClientError>)
        ensures
            match first_end(events@) {
                Some(StreamEvent::Failed(cause)) => r matches Err(
                    ClientError::NetworkError { reason },
                ) && reason@ == stream_error_reason(cause@),
                _ => r matches Ok(bytes) && bytes@ == pieces_before_end(events@),
            },
    {
        let mut out: Vec<u8> = Vec::new();
        let n = events.len();
        let mut i: usize = 0;
        proof {
            assert(events@.skip(0) =~= events@);
        }
        while i < n
            invariant
                i <= n,
                n == events@.len(),
                first_end(events@) == first_end(events@.skip(i as int)),
                pieces_before_end(events@) == out@ + pieces_before_end(events@.skip(i as int)),
            decreases n - i,
        {
            let ghost rest = events@.skip(i as int);
            let ghost held = out@;
            proof {
                assert(rest[0] == events@[i as int]);
                assert(rest.drop_first() =~= events@.skip(i + 1));
            }
            match &events[i] {
                StreamEvent::Chunk(piece) => {
                    out.extend_from_slice(piece.as_slice());
                    proof {
                        assert(out@ =~= held + piece@);
                        assert(out@ + pieces_before_end(events@.skip(i + 1)) =~= held
                            + pieces_before_end(rest));
                    }
                },
                StreamEvent::Exhausted => {
                    proof {
                        assert(held + Seq::<u8>::empty() =~= held);
                    }
                    return Ok(out);
                },
                StreamEvent::Failed(cause) => {
                    return Err(
                        ClientError::NetworkError {
                            reason: join("Stream error: ", cause.as_str()),
                        },
                    );
                },
            }
            i = i + 1;
        }
        proof {
            assert(events@.skip(n as int) =~= Seq::<StreamEvent>::empty());
            assert(out@ + Seq::<u8>::empty() =~= out@);
        }
        Ok(out)
    }

    /// The size of the whole data, in bytes.
    pub fn data_size(&self) -> (r: Result<u64, ClientError>)
        ensures
            r matches Ok(size) && size == self.total(),
    {
        Ok(self.size)
    }

    /// The range of `length` bytes from `start`, as the positions at which
    /// it is read. Refused as `NetworkError` where one of the two does not
    /// fit the machine's word.
    pub fn get_range(&self, start: u64, length: u64) -> (r: Result<(usize, usize), ClientError>)
        ensures
            match r {
                Ok(bounds) => start <= usize::MAX && length <= usize::MAX && bounds.0 == start
                    && bounds.1 == length,
                Err(ClientError::NetworkError { reason }) => (start > usize::MAX || length
                    > usize::MAX) && reason@ == range_too_large_reason(),
                Err(_) => false,
            },
    {
        if start <= usize::MAX as u64 && length <= usize::MAX as u64 {
            Ok((start as usize, length as usize))
        } else {
            Err(DataStream::range_failed("the range does not fit this machine's addresses"))
        }
    }

    /// The error that reports a range which could not be read, the stream
    /// saying `cause`.
    pub fn range_failed(cause: &str) -> (err: ClientError)
        ensures
            err matches ClientError::NetworkError { reason } && reason@ == range_error_reason(
                cause@,
            ),
    {
        ClientError::NetworkError { reason: join("Read range error: ", cause) }
    }
}

/// Where the collection of a whole stream stands.
#[derive(Debug)]
pub enum Progress {
    /// More pieces are wanted: pull again.
    Pull,
    /// The stream is at its end: the data is complete.
    Complete,
    /// The stream failed: the collection is given up.
    GivenUp(ClientError),
}

/// The pieces of a stream, put together in the order in which they came.
pub struct Collector {
    collected: Vec<u8>,
}

impl View for Collector {
    type V = Seq<u8>;

    closed spec fn view(&self) -> Seq<u8> {
        self.collected@
    }
}

impl Collector {
    /// A collector that holds nothing yet.
    pub fn new() -> (collector: Collector)
        ensures
            collector@ == Seq::<u8>::empty(),
    {
        Collector { collected: Vec::new() }
    }

    /// Takes in what one pull gave. A piece is put behind what is held and
    /// more is asked for; the end of the stream completes the data; a
    /// failure gives the collection up, and what is held stays as it is.
    pub fn accept(&mut self, event: StreamEvent) -> (progress: Progress)
        ensures
            match event {
                StreamEvent::Chunk(piece) => progress is Pull && final(self)@ == old(self)@
                    + piece@,
                StreamEvent::Exhausted => progress is Complete && final(self)@ == old(self)@,
                StreamEvent::Failed(cause) => {
                    &&& final(self)@ == old(self)@
                    &&& progress matches Progress::GivenUp(ClientError::NetworkError { reason })
                        && reason@ == stream_error_reason(cause@)
                },
            },
    {
        match event {
            StreamEvent::Chunk(mut piece) => {
                self.collected.append(&mut piece);
                Progress::Pull
            },
            StreamEvent::Exhausted => Progress::Complete,
            StreamEvent::Failed(cause) => Progress::GivenUp(
                ClientError::NetworkError { reason: join("Stream error: ", cause.as_str()) },
            ),
        }
    }

    /// The data that was collected.
    pub fn into_bytes(self) -> (bytes: Vec<u8>)
        ensures
            bytes@ == self@,
    {
        self.collected
    }
}

/// The pieces that come before the first event of `events` that is no piece,
/// put together in order.
pub open spec fn pieces_before_end(events: Seq<StreamEvent>) -> Seq<u8>
    decreases events.len(),
{
    if events.len() == 0 {
        Seq::empty()
    } else {
        match events[0] {
            StreamEvent::Chunk(piece) => piece@ + pieces_before_end(events.drop_first()),
            _ => Seq::empty(),
        }
    }
}

/// The first event of `events` that is no piece, if there is one.
pub open spec fn first_end(events: Seq<StreamEvent>) -> Option<StreamEvent>
    decreases events.len(),
{
    if events.len() == 0 {
        None
    } else {
        match events[0] {
            StreamEvent::Chunk(_) => first_end(events.drop_first()),
            end => Some(end),
        }
    }
}

} // verus!
