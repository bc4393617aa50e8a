//! A bounded view over part of a [`PayloadSource`].
use crate::capabilities::payload_source::{stores, PayloadReadError, PayloadSource};
use vstd::prelude::*;

verus! {

/// An offset-and-length view over another [`PayloadSource`].
///
/// A staging region is board geometry, and the candidate in it is only as
/// long as its offer said. A window pins the candidate's bytes, so that a
/// reader cannot run past them: its length is what
/// [`PayloadSource::len`] reports, and reads are relative to the window.
///
/// A read outside the window is [`PayloadReadError::OutOfRange`]. A window
/// that does not fit its source is refused when it is made.
pub struct PayloadWindow<'a, S: PayloadSource + ?Sized> {
    source: &'a S,
    offset: u64,
    len: u64,
}

impl<'a, S: PayloadSource + ?Sized> PayloadWindow<'a, S> {
    #[verifier::type_invariant]
    spec fn ends_in_range(self) -> bool {
        self.offset + self.len <= u64::MAX
    }

    /// The window of `size` bytes that starts at byte `start` of `region`.
    pub closed spec fn over(region: &'a S, start: u64, size: u64) -> Self {
        PayloadWindow { source: region, offset: start, len: size }
    }

    /// The source that the window looks into.
    pub closed spec fn region(&self) -> &'a S {
        self.source
    }

    /// Where in the region the window starts.
    pub closed spec fn start(&self) -> u64 {
        self.offset
    }

    /// How many bytes the window shows.
    pub closed spec fn size(&self) -> u64 {
        self.len
    }

    /// Views `len` bytes of `source` starting at `offset`, or answers
    /// [`PayloadReadError::OutOfRange`] if the window runs past the end of
    /// `source`.
    pub fn new(source: &'a S, offset: u64, len: u64) -> (window: Result<Self, PayloadReadError>)
        ensures
            offset + len > u64::MAX ==> window == Err::<Self, _>(PayloadReadError::OutOfRange),
            offset + len <= u64::MAX ==> exists|reported: u64| #[trigger]
                source.reports_len(reported) && window == (if offset + len <= reported {
                    Ok(Self::over(source, offset, len))
                } else {
                    Err(PayloadReadError::OutOfRange)
                }),
    {
        let end: u64 = match offset.checked_add(len) {
            Some(end) => end,
            None => return Err(PayloadReadError::OutOfRange),
        };
        if end > source.len() {
            return Err(PayloadReadError::OutOfRange);
        }
        Ok(Self { source, offset, len })
    }
}

impl<'a, S: PayloadSource + ?Sized> PayloadSource for PayloadWindow<'a, S> {
    /// A window always reports its own size.
    open spec fn reports_len(&self, len: u64) -> bool {
        len == self.size()
    }

    /// Inside the window, a read is a read of the region, shifted by where
    /// the window starts. Outside, it is refused and the buffer is left alone.
    open spec fn reads(
        &self,
        offset: int,
        before: Seq<u8>,
        answer: Result<(), PayloadReadError>,
        after: Seq<u8>,
    ) -> bool {
        if offset + before.len() <= self.size() {
            self.region().reads(self.start() + offset, before, answer, after)
        } else {
            answer == Err::<(), PayloadReadError>(PayloadReadError::OutOfRange) && after == before
        }
    }

    fn len(&self) -> (len: u64) {
        self.len
    }

    fn read_at(&self, offset: u64, buf: &mut [u8]) -> (answer: Result<(), PayloadReadError>) {
        proof {
            use_type_invariant(self);
        }
        let end: u64 = match offset.checked_add(buf.len() as u64) {
            Some(end) => end,
            None => return Err(PayloadReadError::OutOfRange),
        };
        if end > self.len {
            return Err(PayloadReadError::OutOfRange);
        }
        self.source.read_at(self.offset + offset, buf)
    }
}

/// A window shows the region, start and size that it was made over.
pub proof fn lemma_window_over<'a, S: PayloadSource + ?Sized>(region: &'a S, start: u64, size: u64)
    ensures
        PayloadWindow::over(region, start, size).region() == region,
        PayloadWindow::over(region, start, size).start() == start,
        PayloadWindow::over(region, start, size).size() == size,
{
}

/// A window over a region stores exactly the part of the region's bytes that
/// it was made over: a read at offset zero gives the first byte of the
/// window, and no read reaches a byte of the region outside it.
pub proof fn law_window_shows_its_part_of_the_region<'a, S: PayloadSource + ?Sized>(
    region: &'a S,
    bytes: Seq<u8>,
    start: u64,
    size: u64,
)
    requires
        stores(region, bytes),
        start + size <= bytes.len(),
    ensures
        stores(
            &PayloadWindow::over(region, start, size),
            bytes.subrange(start as int, start + size),
        ),
{
    let window = PayloadWindow::over(region, start, size);
    let shown = bytes.subrange(start as int, start + size);
    assert forall|
        offset: int,
        before: Seq<u8>,
        answer: Result<(), PayloadReadError>,
        after: Seq<u8>,
    | #[trigger] window.reads(offset, before, answer, after) && 0 <= offset implies if offset
        + before.len() <= shown.len() {
        answer is Ok ==> after == shown.subrange(offset, offset + before.len())
    } else {
        answer == Err::<(), PayloadReadError>(PayloadReadError::OutOfRange) && after == before
    } by {
        if offset + before.len() <= shown.len() {
            assert(region.reads(start + offset, before, answer, after));
            assert(shown.subrange(offset, offset + before.len()) =~= bytes.subrange(
                start + offset,
                start + offset + before.len(),
            ));
        }
    }
}

/// A window is made exactly when it ends within `u64` and within the length
/// that its source reported, and then shows that part of that source. It is
/// otherwise out of range.
pub proof fn law_a_window_fits_its_source<'a, S: PayloadSource>(
    source: &'a S,
    offset: u64,
    len: u64,
    window: Result<PayloadWindow<'a, S>, PayloadReadError>,
)
    requires
        call_ensures(PayloadWindow::<'a, S>::new, (source, offset, len), window),
    ensures
        offset + len > u64::MAX ==> window is Err,
        offset + len <= u64::MAX ==> exists|reported: u64| #[trigger]
            source.reports_len(reported) && (offset + len <= reported <==> window is Ok),
        match window {
            Ok(window) => {
                &&& window.region() == source
                &&& window.start() == offset
                &&& window.size() == len
            },
            Err(e) => e == PayloadReadError::OutOfRange,
        },
{
}

/// A read within a window is the region's own read, that many bytes further
/// on: it may answer what the region may answer there, and nothing else. A
/// read that ends past the window is out of range, and leaves the buffer
/// alone. The window reports its own size, and no other.
pub proof fn law_a_window_reads_its_region<'a, S: PayloadSource + ?Sized>(
    region: &'a S,
    start: u64,
    size: u64,
    offset: int,
    before: Seq<u8>,
    answer: Result<(), PayloadReadError>,
    after: Seq<u8>,
    len: u64,
)
    requires
        0 <= offset,
    ensures
        ({
            let window = PayloadWindow::over(region, start, size);
            &&& offset + before.len() <= size ==> (window.reads(offset, before, answer, after)
                <==> region.reads(start + offset, before, answer, after))
            &&& offset + before.len() > size ==> (window.reads(offset, before, answer, after)
                <==> answer == Err::<(), _>(PayloadReadError::OutOfRange) && after == before)
            &&& window.reports_len(len) <==> len == size
        }),
{
}

} // verus!
