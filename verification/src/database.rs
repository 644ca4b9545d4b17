//! The three families of compiled database. A database here is a handle
//! that the native compiler gave out, shared by every scanner made from it.

use crate::context::{Context, MatchEventHandler};
use crate::error::{CompileError, Error};
use crate::flags::{
    ModeBit, ScanMode, HS_MODE_BLOCK, HS_MODE_SOM_HORIZON_LARGE, HS_MODE_STREAM, HS_MODE_VECTORED,
};
use crate::pattern::{checked, CompileRequest, CompileRequestView, Pattern};
use crate::scanner::{BlockScanner, StreamScanner, VectoredScanner};
use std::sync::Arc;
use vstd::prelude::*;

verus! {

/// `Arc::clone` of the standard library: another pointer to the same value.
/// Nothing is copied but the pointer, so what the two point to is equal.
#[verifier::external_body]
pub(crate) fn share<D>(handle: &Arc<D>) -> (shared: Arc<D>)
    ensures
        shared == handle,
{
    Arc::clone(handle)
}

/// The bits of the mode in which a stream database is compiled: streaming,
/// with starts of matches tracked over the large horizon.
pub open spec fn stream_mode_bits() -> u32 {
    HS_MODE_STREAM | HS_MODE_SOM_HORIZON_LARGE
}

/// The mode of each family of database names exactly one way of handing data
/// to the engine, as the native compiler asks; the stream family's mode also
/// holds the large horizon, and no mode holds anything else.
pub proof fn lemma_family_modes_select_one_delivery(mode: ScanMode)
    requires
        mode.raw() == HS_MODE_BLOCK || mode.raw() == HS_MODE_VECTORED || mode.raw()
            == stream_mode_bits(),
    ensures
        mode.selects_one_delivery(),
        mode.raw() == HS_MODE_BLOCK ==> mode@ == set![ModeBit::Block],
        mode.raw() == HS_MODE_VECTORED ==> mode@ == set![ModeBit::Vectored],
        mode.raw() == stream_mode_bits() ==> mode@ == set![ModeBit::Stream, ModeBit::SomLarge],
{
    let bits = mode.raw();
    assert(bits == 1 || bits == 4 || bits == (2u32 | 0x0100_0000u32));
    assert(bits == 1 ==> (bits & 1 != 0 && bits & 2 == 0 && bits & 4 == 0 && bits & 0x0100_0000 == 0
        && bits & 0x0200_0000 == 0 && bits & 0x0400_0000 == 0)) by (bit_vector);
    assert(bits == 4 ==> (bits & 1 == 0 && bits & 2 == 0 && bits & 4 != 0 && bits & 0x0100_0000 == 0
        && bits & 0x0200_0000 == 0 && bits & 0x0400_0000 == 0)) by (bit_vector);
    assert(bits == (2u32 | 0x0100_0000u32) ==> (bits & 1 == 0 && bits & 2 != 0 && bits & 4 == 0
        && bits & 0x0100_0000 != 0 && bits & 0x0200_0000 == 0 && bits & 0x0400_0000 == 0))
        by (bit_vector);
    assert(mode@.contains(ModeBit::Block) <==> bits & ModeBit::Block.mask() != 0);
    assert(mode@.contains(ModeBit::Vectored) <==> bits & ModeBit::Vectored.mask() != 0);
    assert(mode@.contains(ModeBit::Stream) <==> bits & ModeBit::Stream.mask() != 0);
    assert(mode@.contains(ModeBit::SomLarge) <==> bits & ModeBit::SomLarge.mask() != 0);
    assert(mode@.contains(ModeBit::SomMedium) <==> bits & ModeBit::SomMedium.mask() != 0);
    assert(mode@.contains(ModeBit::SomSmall) <==> bits & ModeBit::SomSmall.mask() != 0);
    if bits == HS_MODE_BLOCK {
        assert(mode@ =~= set![ModeBit::Block]);
    }
    if bits == HS_MODE_VECTORED {
        assert(mode@ =~= set![ModeBit::Vectored]);
    }
    if bits == stream_mode_bits() {
        assert(mode@ =~= set![ModeBit::Stream, ModeBit::SomLarge]);
    }
}

impl CompileRequest {
    /// The request for a block database of `patterns`: they are checked and
    /// laid out as `CompileRequest::new` does, for block mode.
    pub fn block<E>(patterns: Vec<Pattern>) -> (result: Result<CompileRequest, Error<E>>)
        ensures
            match result {
                Ok(request) => checked(patterns@, HS_MODE_BLOCK) == Ok::<CompileRequestView, int>(
                    request@,
                ),
                Err(error) => checked(patterns@, HS_MODE_BLOCK) matches Err(position) && error
                    == Error::<E>::MalformedInput(position as usize),
            },
            result matches Ok(request) ==> request@.wf(),
    {
        CompileRequest::new(patterns, ScanMode::from_bit(ModeBit::Block))
    }

    /// The request for a vectored database of `patterns`: they are checked
    /// and laid out as `CompileRequest::new` does, for vectored mode.
    pub fn vectored<E>(patterns: Vec<Pattern>) -> (result: Result<CompileRequest, Error<E>>)
        ensures
            match result {
                Ok(request) => checked(patterns@, HS_MODE_VECTORED) == Ok::<
                    CompileRequestView,
                    int,
                >(request@),
                Err(error) => checked(patterns@, HS_MODE_VECTORED) matches Err(position) && error
                    == Error::<E>::MalformedInput(position as usize),
            },
            result matches Ok(request) ==> request@.wf(),
    {
        CompileRequest::new(patterns, ScanMode::from_bit(ModeBit::Vectored))
    }

    /// The request for a stream database of `patterns`: they are checked and
    /// laid out as `CompileRequest::new` does, for streaming mode with the
    /// large horizon. A stream database always tracks starts of matches in
    /// full.
    pub fn stream<E>(patterns: Vec<Pattern>) -> (result: Result<CompileRequest, Error<E>>)
        ensures
            match result {
                Ok(request) => checked(patterns@, stream_mode_bits()) == Ok::<
                    CompileRequestView,
                    int,
                >(request@),
                Err(error) => checked(patterns@, stream_mode_bits()) matches Err(position) && error
                    == Error::<E>::MalformedInput(position as usize),
            },
            result matches Ok(request) ==> request@.wf(),
    {
        let mode = ScanMode::from_bit(ModeBit::Stream).union(ScanMode::from_bit(ModeBit::SomLarge));
        CompileRequest::new(patterns, mode)
    }
}

/// A database compiled for scanning one whole buffer at a time.
pub struct BlockDatabase<D> {
    pub db: Arc<D>,
}

/// A database compiled for scanning a list of buffers as one.
pub struct VectoredDatabase<D> {
    pub db: Arc<D>,
}

/// A database compiled for scanning data that arrives in chunks.
pub struct StreamDatabase<D> {
    pub db: Arc<D>,
}

impl<D> BlockDatabase<D> {
    /// Takes charge of what the native compiler made of a block request: the
    /// database it compiled, or else the diagnostic it left, which becomes a
    /// `CompileFailed` error with the same text and position.
    pub fn new<E>(compiled: Result<D, CompileError>) -> (result: Result<Self, Error<E>>)
        ensures
            match result {
                Ok(database) => compiled == Ok::<D, CompileError>(*database.db),
                Err(error) => compiled matches Err(diagnostic) && error
                    == Error::<E>::of_compile_error(diagnostic),
            },
    {
        match compiled {
            Ok(db) => Ok(BlockDatabase { db: Arc::new(db) }),
            Err(diagnostic) => Err(Error::from_compile_error(diagnostic)),
        }
    }

    /// A scanner that reads this database, works in `scratch` and reports
    /// to `context`. The database itself is shared, not copied.
    pub fn create_scanner<S, U, H: MatchEventHandler<U>>(
        &self,
        scratch: S,
        context: Context<U, H>,
    ) -> (scanner: BlockScanner<D, S, U, H>)
        ensures
            scanner.database == self.db,
            scanner.scratch == scratch,
            scanner.context == context,
    {
        BlockScanner::new(self, scratch, context)
    }
}

impl<D> VectoredDatabase<D> {
    /// Takes charge of what the native compiler made of a vectored request: the
    /// database it compiled, or else the diagnostic it left, which becomes a
    /// `CompileFailed` error with the same text and position.
    pub fn new<E>(compiled: Result<D, CompileError>) -> (result: Result<Self, Error<E>>)
        ensures
            match result {
                Ok(database) => compiled == Ok::<D, CompileError>(*database.db),
                Err(error) => compiled matches Err(diagnostic) && error
                    == Error::<E>::of_compile_error(diagnostic),
            },
    {
        match compiled {
            Ok(db) => Ok(VectoredDatabase { db: Arc::new(db) }),
            Err(diagnostic) => Err(Error::from_compile_error(diagnostic)),
        }
    }

    /// A scanner that reads this database, works in `scratch` and reports
    /// to `context`. The database itself is shared, not copied.
    pub fn create_scanner<S, U, H: MatchEventHandler<U>>(
        &self,
        scratch: S,
        context: Context<U, H>,
    ) -> (scanner: VectoredScanner<D, S, U, H>)
        ensures
            scanner.database == self.db,
            scanner.scratch == scratch,
            scanner.context == context,
    {
        VectoredScanner::new(self, scratch, context)
    }
}

impl<D> StreamDatabase<D> {
    /// Takes charge of what the native compiler made of a stream request: the
    /// database it compiled, or else the diagnostic it left, which becomes a
    /// `CompileFailed` error with the same text and position.
    pub fn new<E>(compiled: Result<D, CompileError>) -> (result: Result<Self, Error<E>>)
        ensures
            match result {
                Ok(database) => compiled == Ok::<D, CompileError>(*database.db),
                Err(error) => compiled matches Err(diagnostic) && error
                    == Error::<E>::of_compile_error(diagnostic),
            },
    {
        match compiled {
            Ok(db) => Ok(StreamDatabase { db: Arc::new(db) }),
            Err(diagnostic) => Err(Error::from_compile_error(diagnostic)),
        }
    }

    /// A scanner that feeds `stream`, a stream freshly opened on this
    /// database, works in `scratch` and reports to `context`. The database
    /// itself is shared, not copied: it lasts as long as the scanner.
    pub fn create_scanner<S, T, U, H: MatchEventHandler<U>>(
        &self,
        scratch: S,
        stream: T,
        context: Context<U, H>,
    ) -> (scanner: StreamScanner<D, S, T, U, H>)
        ensures
            scanner.database == self.db,
            scanner.scratch == scratch,
            scanner.stream == stream,
            scanner.context == context,
            !scanner.stopped(),
    {
        StreamScanner::new(self, scratch, stream, context)
    }
}

} // verus!
