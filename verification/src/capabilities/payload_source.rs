//! Random access to the bytes of an update candidate.
use vstd::prelude::*;

verus! {

/// Why a payload could not be read.
#[derive(Debug, Clone, Copy, PartialEq, Eq, Structural)]
pub enum PayloadReadError {
    /// The read runs past the end of the payload.
    OutOfRange,
    /// The storage behind the payload failed.
    Storage,
}

/// A payload that can be read at any offset.
///
/// The storage may sit behind a bus or another process, so neither the
/// length nor the outcome of a read is taken to be the same from one call to
/// the next.
pub trait PayloadSource {
    /// The source may report `len` as its length.
    open spec fn reports_len(&self, len: u64) -> bool {
        true
    }

    /// A read at `offset` into a buffer that held `before` may answer
    /// `answer` and leave `after` in the buffer.
    open spec fn reads(
        &self,
        offset: int,
        before: Seq<u8>,
        answer: Result<(), PayloadReadError>,
        after: Seq<u8>,
    ) -> bool {
        true
    }

    /// Payload length in bytes.
    fn len(&self) -> (len: u64)
        ensures
            self.reports_len(len),
    ;

    /// Fills `buf` with the payload bytes that start at `offset`.
    fn read_at(&self, offset: u64, buf: &mut [u8]) -> (answer: Result<(), PayloadReadError>)
        ensures
            self.reads(offset as int, old(buf)@, answer, final(buf)@),
    ;

    /// True when the payload holds no bytes.
    fn is_empty(&self) -> (empty: bool)
        ensures
            exists|len: u64| #[trigger] self.reports_len(len) && empty == (len == 0),
    {
        self.len() == 0
    }
}

/// What a payload shows to a reader: the lengths that it may report, and how
/// it may answer reads.
pub struct Shown {
    /// It may report this length.
    pub reports_len: spec_fn(u64) -> bool,
    /// A read at an offset, into a buffer that held some bytes, may answer so
    /// and leave other bytes in the buffer.
    pub reads: spec_fn(int, Seq<u8>, Result<(), PayloadReadError>, Seq<u8>) -> bool,
}

/// What `source` shows to a reader.
pub open spec fn shown<S: PayloadSource + ?Sized>(source: &S) -> Shown {
    Shown {
        reports_len: |len: u64| source.reports_len(len),
        reads: |
            offset: int,
            before: Seq<u8>,
            answer: Result<(), PayloadReadError>,
            after: Seq<u8>,
        | source.reads(offset, before, answer, after),
    }
}

/// `source` stores exactly `bytes`: it reports their number as its length,
/// a read that it answers with success yields the bytes asked for, and a
/// read past the end is out of range and leaves the buffer alone.
pub open spec fn stores<S: PayloadSource + ?Sized>(source: &S, bytes: Seq<u8>) -> bool {
    &&& forall|len: u64| #[trigger] source.reports_len(len) ==> len == bytes.len()
    &&& forall|
        offset: int,
        before: Seq<u8>,
        answer: Result<(), PayloadReadError>,
        after: Seq<u8>,
    | #[trigger]
        source.reads(offset, before, answer, after) && 0 <= offset ==> if offset + before.len()
            <= bytes.len() {
            answer is Ok ==> after == bytes.subrange(offset, offset + before.len())
        } else {
            answer == Err::<(), PayloadReadError>(PayloadReadError::OutOfRange) && after == before
        }
}

/// A payload is empty exactly when the length that it reported is zero.
pub proof fn law_an_empty_payload_reports_no_bytes<S: PayloadSource>(source: &S, empty: bool)
    requires
        call_ensures(S::is_empty, (source,), empty),
    ensures
        empty ==> source.reports_len(0),
        !empty ==> exists|len: u64| #[trigger] source.reports_len(len) && len > 0,
{
}

} // verus!
