//! The three families of scanner. A scanner owns its scratch workspace and
//! its context; around each native call it says what the call is given and
//! what its status means.

use crate::context::{Context, MatchEventHandler, Scan, scan_result};
use crate::database::{share, BlockDatabase, StreamDatabase, VectoredDatabase};
use crate::error::{status_result, Error, HS_SCAN_TERMINATED};
use crate::pattern::{native_length, truncate};
use std::sync::Arc;
use vstd::prelude::*;

verus! {

/// Scans one whole buffer at a time.
pub struct BlockScanner<D, S, U, H: MatchEventHandler<U>> {
    pub scratch: S,
    pub database: Arc<D>,
    pub context: Context<U, H>,
}

/// Scans a list of buffers as if they were one.
pub struct VectoredScanner<D, S, U, H: MatchEventHandler<U>> {
    pub scratch: S,
    pub database: Arc<D>,
    pub context: Context<U, H>,
}

/// Scans data that arrives in chunks, through a stream that remembers what
/// came before. The scanner shares the database that its stream was opened
/// on, so that the database lasts as long as the stream; the stream stands
/// before the database, so that it is closed first.
pub struct StreamScanner<D, S, T, U, H: MatchEventHandler<U>> {
    pub scratch: S,
    pub stream: T,
    pub database: Arc<D>,
    pub context: Context<U, H>,
    pub stopped: bool,
}

impl<D, S, U, H: MatchEventHandler<U>> BlockScanner<D, S, U, H> {
    /// A scanner on `db` that works in `scratch`, a workspace allocated for
    /// that database, and reports to `context`.
    pub fn new(db: &BlockDatabase<D>, scratch: S, context: Context<U, H>) -> (scanner: Self)
        ensures
            scanner.database == db.db,
            scanner.scratch == scratch,
            scanner.context == context,
    {
        BlockScanner { database: share(&db.db), scratch, context }
    }

    /// Makes ready for a native scan of `data`: no failure of an earlier
    /// scan stays pending. Returns the length that the native call is given.
    pub fn begin_scan(&mut self, data: &[u8]) -> (length: u32)
        ensures
            length == native_length(data@.len()),
            final(self).context.pending() is None,
            final(self).context.data() == old(self).context.data(),
            final(self).context.handler() == old(self).context.handler(),
            final(self).scratch == old(self).scratch,
            final(self).database == old(self).database,
    {
        self.context.begin();
        truncate(data.len())
    }

    /// Reports the scan whose native call returned `status`.
    pub fn finish(&mut self, status: i32) -> (result: Result<Scan, Error<H::Error>>)
        ensures
            result == scan_result(
                status_result::<H::Error>(status),
                old(self).context.pending(),
            ),
            final(self).context.pending() is None,
            final(self).context.data() == old(self).context.data(),
            final(self).context.handler() == old(self).context.handler(),
            final(self).scratch == old(self).scratch,
            final(self).database == old(self).database,
    {
        self.context.finish(status)
    }
}

/// The lengths of the buffers of a list, each as the native engine reads
/// it, in the order of the list.
pub open spec fn native_lengths(data: Seq<&[u8]>) -> Seq<u32> {
    Seq::new(data.len(), |i: int| native_length(data[i]@.len()))
}

impl<D, S, U, H: MatchEventHandler<U>> VectoredScanner<D, S, U, H> {
    /// A scanner on `db` that works in `scratch`, a workspace allocated for
    /// that database, and reports to `context`.
    pub fn new(db: &VectoredDatabase<D>, scratch: S, context: Context<U, H>) -> (scanner: Self)
        ensures
            scanner.database == db.db,
            scanner.scratch == scratch,
            scanner.context == context,
    {
        VectoredScanner { database: share(&db.db), scratch, context }
    }

    /// Makes ready for a native scan of the buffers of `data`, which the
    /// engine reads one after the other as one input: no failure of an
    /// earlier scan stays pending. Returns what the native call is given
    /// beside the buffers: the length of each, in the same order, and their
    /// number.
    pub fn begin_scan(&mut self, data: &Vec<&[u8]>) -> (layout: (Vec<u32>, u32))
        ensures
            layout.0@ == native_lengths(data@),
            layout.1 == native_length(data@.len()),
            final(self).context.pending() is None,
            final(self).context.data() == old(self).context.data(),
            final(self).context.handler() == old(self).context.handler(),
            final(self).scratch == old(self).scratch,
            final(self).database == old(self).database,
    {
        self.context.begin();
        let mut lengths: Vec<u32> = Vec::with_capacity(data.len());
        let mut i: usize = 0;
        while i < data.len()
            invariant
                i <= data.len(),
                lengths@.len() == i,
                forall|k: int|
                    0 <= k < i ==> #[trigger] lengths@[k] == native_length(data@[k]@.len()),
            decreases data.len() - i,
        {
            lengths.push(truncate(data[i].len()));
            i = i + 1;
        }
        assert(lengths@ =~= native_lengths(data@));
        let count = truncate(lengths.len());
        (lengths, count)
    }

    /// Reports the scan whose native call returned `status`.
    pub fn finish(&mut self, status: i32) -> (result: Result<Scan, Error<H::Error>>)
        ensures
            result == scan_result(
                status_result::<H::Error>(status),
                old(self).context.pending(),
            ),
            final(self).context.pending() is None,
            final(self).context.data() == old(self).context.data(),
            final(self).context.handler() == old(self).context.handler(),
            final(self).scratch == old(self).scratch,
            final(self).database == old(self).database,
    {
        self.context.finish(status)
    }
}

impl<D, S, T, U, H: MatchEventHandler<U>> StreamScanner<D, S, T, U, H> {
    /// Whether the engine was stopped in the last call on the stream. A
    /// stream that was stopped answers every further scan as stopped, until
    /// it is reset.
    pub closed spec fn stopped(self) -> bool {
        self.stopped
    }

    /// A scanner that feeds `stream`, a stream freshly opened on `db`, works
    /// in `scratch`, a workspace allocated for `db`, and reports to
    /// `context`. The database is shared, not copied.
    pub fn new(
        db: &StreamDatabase<D>,
        scratch: S,
        stream: T,
        context: Context<U, H>,
    ) -> (scanner: Self)
        ensures
            scanner.database == db.db,
            scanner.scratch == scratch,
            scanner.stream == stream,
            scanner.context == context,
            !scanner.stopped(),
    {
        StreamScanner { scratch, stream, database: share(&db.db), context, stopped: false }
    }

    /// Makes ready for feeding the stream its next chunk, `data`: no failure
    /// of an earlier call stays pending. Returns whether the stream has to
    /// be reset before the chunk is fed, which is so exactly when the last
    /// call stopped the engine, and the length that the native call is
    /// given. A scan after a stopped one thus begins afresh.
    pub fn begin_scan(&mut self, data: &[u8]) -> (start: (bool, u32))
        ensures
            start.0 == old(self).stopped(),
            start.1 == native_length(data@.len()),
            final(self).stopped() == old(self).stopped(),
            final(self).context.pending() is None,
            final(self).context.data() == old(self).context.data(),
            final(self).context.handler() == old(self).context.handler(),
            final(self).scratch == old(self).scratch,
            final(self).stream == old(self).stream,
            final(self).database == old(self).database,
    {
        self.context.begin();
        (self.stopped, truncate(data.len()))
    }

    /// Makes ready for a native reset of the stream, which may still report
    /// matches that were waiting for the end of the data: no failure of an
    /// earlier call stays pending.
    pub fn begin_reset(&mut self)
        ensures
            final(self).stopped() == old(self).stopped(),
            final(self).context.pending() is None,
            final(self).context.data() == old(self).context.data(),
            final(self).context.handler() == old(self).context.handler(),
            final(self).scratch == old(self).scratch,
            final(self).stream == old(self).stream,
            final(self).database == old(self).database,
    {
        self.context.begin();
    }

    /// Reports the scan or reset whose native call returned `status`, and
    /// notes whether that call stopped the engine.
    ///
    /// After an `EngineStatus` error the state of the stream is whatever
    /// the engine left: reset the stream before it is fed again. The scanner
    /// does not do so by itself.
    pub fn finish(&mut self, status: i32) -> (result: Result<Scan, Error<H::Error>>)
        ensures
            result == scan_result(
                status_result::<H::Error>(status),
                old(self).context.pending(),
            ),
            final(self).stopped() == (status == HS_SCAN_TERMINATED),
            final(self).context.pending() is None,
            final(self).context.data() == old(self).context.data(),
            final(self).context.handler() == old(self).context.handler(),
            final(self).scratch == old(self).scratch,
            final(self).stream == old(self).stream,
            final(self).database == old(self).database,
    {
        self.stopped = status == HS_SCAN_TERMINATED;
        self.context.finish(status)
    }
}

} // verus!
