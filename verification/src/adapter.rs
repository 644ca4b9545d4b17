//! What an embedding host needs on top of the core, and what does not
//! depend on the host: patterns that carry a tag of the host's, numbered by
//! their position; the label under which a match is shown to the host; and
//! the feeding of a stream in chunks of a fixed size.

use crate::context::Scan;
use crate::error::Error;
use crate::flags::Flag;
use crate::pattern::{
    any_malformed, first_nul_in, has_nul, lemma_first_malformed_is_unique, Pattern,
};
use vstd::prelude::*;

verus! {

/// A pattern as an embedding host writes it: an expression, its options and,
/// if the host wants one, a tag of the host's own to know its matches by.
#[derive(Debug, PartialEq, Eq)]
pub struct TaggedPattern<T> {
    pub expression: Vec<u8>,
    pub tag: Option<T>,
    pub flags: Flag,
}

/// The expressions of a list of tagged patterns, in the order of the list.
pub open spec fn tagged_expressions<T>(patterns: Seq<TaggedPattern<T>>) -> Seq<Seq<u8>> {
    Seq::new(patterns.len(), |i: int| patterns[i].expression@)
}

/// Numbers the patterns by their position and parts them from their tags.
///
/// The pattern at position `i` gets the number `i`, and the tag that came
/// with it stands at position `i` of the tags: a match reported under a
/// number finds its tag there.
///
/// Fails with `MalformedInput` exactly when some expression holds a zero
/// byte; the error then carries the position of the first zero byte in the
/// first such expression.
pub fn to_tag_mapping<T, E>(patterns: Vec<TaggedPattern<T>>) -> (result: Result<
    (Vec<Pattern>, Vec<Option<T>>),
    Error<E>,
>)
    requires
        patterns@.len() <= u32::MAX + 1,
    ensures
        match result {
            Ok(mapping) => {
                &&& !any_malformed(tagged_expressions(patterns@))
                &&& mapping.0@.len() == patterns@.len()
                &&& mapping.1@.len() == patterns@.len()
                &&& forall|i: int|
                    0 <= i < patterns@.len() ==> {
                        &&& (#[trigger] mapping.0@[i]).expression() == patterns@[i].expression@
                        &&& mapping.0@[i].flags() == patterns@[i].flags
                        &&& mapping.0@[i].id() == Some(i as u32)
                    }
                &&& forall|i: int|
                    0 <= i < patterns@.len() ==> #[trigger] mapping.1@[i] == patterns@[i].tag
            },
            Err(error) => any_malformed(tagged_expressions(patterns@)) && error == Error::<
                E,
            >::MalformedInput(first_nul_in(tagged_expressions(patterns@)) as usize),
        },
{
    let ghost all = patterns@;
    let ghost expressions = tagged_expressions(all);
    let mut numbered: Vec<Pattern> = Vec::with_capacity(patterns.len());
    let mut tags: Vec<Option<T>> = Vec::with_capacity(patterns.len());
    let mut next: u32 = 0;
    for pattern in it: patterns
        invariant
            it.seq() == all,
            expressions == tagged_expressions(all),
            all.len() <= u32::MAX + 1,
            numbered@.len() == it.index(),
            tags@.len() == it.index(),
            it.index() < all.len() ==> next == it.index(),
            forall|i: int| 0 <= i < it.index() ==> !has_nul(#[trigger] expressions[i]),
            forall|i: int|
                0 <= i < it.index() ==> {
                    &&& (#[trigger] numbered@[i]).expression() == all[i].expression@
                    &&& numbered@[i].flags() == all[i].flags
                    &&& numbered@[i].id() == Some(i as u32)
                },
            forall|i: int| 0 <= i < it.index() ==> #[trigger] tags@[i] == all[i].tag,
    {
        let ghost at = it.index() as int;
        let TaggedPattern { expression, tag, flags } = pattern;
        assert(expressions[at] == expression@);
        match Pattern::new::<E>(expression, flags, Some(next)) {
            Ok(pattern) => {
                numbered.push(pattern);
            },
            Err(error) => {
                proof {
                    lemma_first_malformed_is_unique(expressions, at);
                }
                return Err(error);
            },
        }
        tags.push(tag);
        // The last pattern may bear the largest number there is; no number
        // follows it.
        if next < u32::MAX {
            next = next + 1;
        }
    }
    Ok((numbered, tags))
}

/// How a match is shown to the host: by the tag of its pattern, or, where
/// the pattern has none, by the pattern's number.
#[derive(Debug, PartialEq, Eq)]
pub enum MatchLabel<'a, T> {
    Tag(&'a T),
    Id(u32),
}

/// The label of a match reported under the number `id`, given the tags by
/// position.
pub fn label_of<'a, T>(tag_mapping: &'a Vec<Option<T>>, id: u32) -> (label: MatchLabel<'a, T>)
    requires
        id < tag_mapping@.len(),
    ensures
        match tag_mapping@[id as int] {
            Some(tag) => label == MatchLabel::Tag(&tag),
            None => label == MatchLabel::<T>::Id(id),
        },
{
    match &tag_mapping[id as usize] {
        Some(tag) => MatchLabel::Tag(tag),
        None => MatchLabel::Id(id),
    }
}

/// Where the chunk that starts at `offset` ends, in data of `length` bytes
/// fed in chunks of `chunk_size` bytes; `None` means all at once.
pub open spec fn chunk_end(length: int, chunk_size: Option<usize>, offset: int) -> int {
    match chunk_size {
        None => length,
        Some(size) => if length - offset <= size {
            length
        } else {
            offset + size
        },
    }
}

/// Whether there is anything to feed at all: data fed all at once is fed
/// even when it is empty, data fed in chunks has no chunk when it is empty.
pub open spec fn feeds_anything(length: int, chunk_size: Option<usize>) -> bool {
    chunk_size is None || length > 0
}

/// What the one who feeds a stream does next.
#[derive(Debug, PartialEq, Eq)]
pub enum Step<E> {
    /// Feed the bytes from `from` up to `to`, and come back with what the
    /// scan reported.
    Feed { from: usize, to: usize },
    /// Nothing more is fed; this is what the whole scan reports.
    Done(Result<Scan, Error<E>>),
}

/// What to do first with data of `length` bytes: feed the first chunk, or,
/// where there is nothing to feed, report `Continue`.
pub open spec fn first_step<E>(length: int, chunk_size: Option<usize>) -> Step<E> {
    if feeds_anything(length, chunk_size) {
        Step::Feed { from: 0, to: chunk_end(length, chunk_size, 0) as usize }
    } else {
        Step::Done(Ok(Scan::Continue))
    }
}

/// What to do once the scan of a chunk that ended at `fed` has reported
/// `outcome`: an error or `Terminate` ends the feeding and is the report of
/// the whole; after `Continue` the next chunk follows, from `fed` on, until
/// the data is used up, and then the whole reports `Continue`.
pub open spec fn next_step<E>(
    length: int,
    chunk_size: Option<usize>,
    fed: int,
    outcome: Result<Scan, Error<E>>,
) -> Step<E> {
    match outcome {
        Err(error) => Step::Done(Err(error)),
        Ok(Scan::Terminate) => Step::Done(Ok(Scan::Terminate)),
        Ok(Scan::Continue) => if chunk_size is Some && fed < length {
            Step::Feed { from: fed as usize, to: chunk_end(length, chunk_size, fed) as usize }
        } else {
            Step::Done(Ok(Scan::Continue))
        },
    }
}

/// The feeding of one piece of data to a stream, chunk after chunk.
pub struct ChunkFeed {
    length: usize,
    chunk_size: Option<usize>,
    offset: usize,
    in_flight: bool,
}

impl ChunkFeed {
    #[verifier::type_invariant]
    spec fn inv(self) -> bool {
        &&& self.offset <= self.length
        &&& self.chunk_size != Some(0usize)
        &&& self.in_flight && self.chunk_size is Some ==> self.offset < self.length
        &&& self.in_flight && self.chunk_size is None ==> self.offset == 0
    }

    /// The length of the data.
    pub closed spec fn length(self) -> int {
        self.length as int
    }

    /// The size of a chunk; `None`: the data is fed all at once.
    pub closed spec fn chunk_size(self) -> Option<usize> {
        self.chunk_size
    }

    /// Where the chunk now being fed starts; once nothing is being fed, how
    /// much has been fed.
    pub closed spec fn offset(self) -> int {
        self.offset as int
    }

    /// Whether a chunk has been given out and its scan not yet reported.
    pub closed spec fn in_flight(self) -> bool {
        self.in_flight
    }

    /// Starts to feed `length` bytes, in chunks of `chunk_size` bytes or all
    /// at once, and says what to do first: feed the first chunk, or, where
    /// chunked data is empty, nothing at all, which reads as `Continue`.
    pub fn new<E>(length: usize, chunk_size: Option<usize>) -> (start: (ChunkFeed, Step<E>))
        requires
            chunk_size != Some(0usize),
        ensures
            start.0.length() == length,
            start.0.chunk_size() == chunk_size,
            start.0.offset() == 0,
            start.0.in_flight() == feeds_anything(length as int, chunk_size),
            start.1 == first_step::<E>(length as int, chunk_size),
            0 <= chunk_end(length as int, chunk_size, 0) <= length,
    {
        let feeds = match chunk_size {
            None => true,
            Some(_) => length > 0,
        };
        let feed = ChunkFeed { length, chunk_size, offset: 0, in_flight: feeds };
        if feeds {
            let to = feed.end();
            (feed, Step::Feed { from: 0, to })
        } else {
            (feed, Step::Done(Ok(Scan::Continue)))
        }
    }

    /// Whether a chunk has been given out and its scan not yet reported.
    pub fn is_in_flight(&self) -> (in_flight: bool)
        ensures
            in_flight == self.in_flight(),
    {
        self.in_flight
    }

    /// Where the chunk that starts at the present offset ends.
    fn end(&self) -> (end: usize)
        ensures
            end == chunk_end(self.length(), self.chunk_size(), self.offset()),
            self.offset() <= end <= self.length(),
            self.chunk_size() is Some && self.offset() < self.length() ==> self.offset() < end,
    {
        proof {
            use_type_invariant(self);
        }
        match self.chunk_size {
            None => self.length,
            Some(size) => if self.length - self.offset <= size {
                self.length
            } else {
                self.offset + size
            },
        }
    }

    /// Takes what the scan of the chunk in flight reported and says what to
    /// do next.
    ///
    /// An error ends the feeding and is the report of the whole. So does
    /// `Terminate`: what is left of the data is not fed. After `Continue`
    /// the next chunk follows, starting where the last one ended, until the
    /// data is used up; then the whole reports `Continue`.
    pub fn next<E>(&mut self, outcome: Result<Scan, Error<E>>) -> (step: Step<E>)
        requires
            old(self).in_flight(),
        ensures
            final(self).length() == old(self).length(),
            final(self).chunk_size() == old(self).chunk_size(),
            final(self).offset() == chunk_end(
                old(self).length(),
                old(self).chunk_size(),
                old(self).offset(),
            ),
            old(self).offset() <= final(self).offset() <= final(self).length(),
            old(self).chunk_size() is Some ==> old(self).offset() < final(self).offset(),
            step == next_step(
                final(self).length(),
                final(self).chunk_size(),
                final(self).offset(),
                outcome,
            ),
            final(self).in_flight() == (step is Feed),
    {
        proof {
            use_type_invariant(&*self);
        }
        let fed = self.end();
        let more = match self.chunk_size {
            None => false,
            Some(_) => fed < self.length,
        };
        match outcome {
            Err(error) => {
                self.in_flight = false;
                self.offset = fed;
                Step::Done(Err(error))
            },
            Ok(Scan::Terminate) => {
                self.in_flight = false;
                self.offset = fed;
                Step::Done(Ok(Scan::Terminate))
            },
            Ok(Scan::Continue) => {
                if more {
                    self.offset = fed;
                    let to = self.end();
                    Step::Feed { from: fed, to }
                } else {
                    self.in_flight = false;
                    self.offset = fed;
                    Step::Done(Ok(Scan::Continue))
                }
            },
        }
    }
}

/// What a stream has been fed once the chunks of `data` from `offset` on
/// have gone in, one after the other.
pub open spec fn fed_from(data: Seq<u8>, size: usize, offset: int) -> Seq<u8>
    decreases data.len() - offset,
{
    if 0 <= offset < data.len() && size > 0 {
        let end = chunk_end(data.len() as int, Some(size), offset);
        data.subrange(offset, end) + fed_from(data, size, end)
    } else {
        Seq::empty()
    }
}

/// Chunks fed in order, each starting where the last one ended, add up to
/// the data from where the first one started: nothing is left out, nothing
/// is fed twice, and nothing changes place.
pub proof fn lemma_chunks_add_up(data: Seq<u8>, size: usize, offset: int)
    requires
        size > 0,
        0 <= offset <= data.len(),
    ensures
        fed_from(data, size, offset) == data.subrange(offset, data.len() as int),
    decreases data.len() - offset,
{
    if offset < data.len() {
        let end = chunk_end(data.len() as int, Some(size), offset);
        lemma_chunks_add_up(data, size, end);
        assert(data.subrange(offset, end) + data.subrange(end, data.len() as int)
            =~= data.subrange(offset, data.len() as int));
    } else {
        assert(data.subrange(offset, data.len() as int) =~= Seq::<u8>::empty());
    }
}

} // verus!
