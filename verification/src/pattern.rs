//! Patterns, and the request that a list of patterns becomes on its way to
//! the native compiler.

use crate::error::Error;
use crate::flags::{Flag, ScanMode};
use vstd::prelude::*;

verus! {

/// One expression with its options and, if the caller chose one, the number
/// under which its matches are reported. The expression of a pattern holds
/// no zero byte.
#[derive(Debug, PartialEq, Eq)]
pub struct Pattern {
    expression: Vec<u8>,
    flags: Flag,
    id: Option<u32>,
}

impl Pattern {
    #[verifier::type_invariant]
    spec fn inv(self) -> bool {
        !has_nul(self.expression@)
    }

    /// The bytes of the expression.
    pub closed spec fn expression(self) -> Seq<u8> {
        self.expression@
    }

    /// The options of the pattern.
    pub closed spec fn flags(self) -> Flag {
        self.flags
    }

    /// The number that the caller chose, if any.
    pub closed spec fn id(self) -> Option<u32> {
        self.id
    }

    /// The number under which the native engine reports the pattern's
    /// matches: the one the caller chose, else 0.
    pub open spec fn native_id(self) -> u32 {
        match self.id() {
            Some(id) => id,
            None => 0,
        }
    }

    /// A pattern of these bytes, options and number.
    ///
    /// The native compiler reads an expression up to its first zero byte, so
    /// an expression that holds one cannot be handed over whole: it is
    /// refused here, with `MalformedInput` and the position of its first
    /// zero byte, and no pattern comes of it.
    pub fn new<E>(expression: Vec<u8>, flags: Flag, id: Option<u32>) -> (result: Result<
        Pattern,
        Error<E>,
    >)
        ensures
            match result {
                Ok(pattern) => !has_nul(expression@) && pattern.expression() == expression@
                    && pattern.flags() == flags && pattern.id() == id,
                Err(error) => has_nul(expression@) && error == Error::<E>::MalformedInput(
                    nul_position(expression@) as usize,
                ),
            },
    {
        match find_nul(&expression) {
            Some(position) => {
                proof {
                    lemma_first_nul_is_unique(expression@, position as int);
                }
                Err(Error::MalformedInput(position))
            },
            None => Ok(Pattern { expression, flags, id }),
        }
    }
}

/// Whether `position` is where the first zero byte of `bytes` stands.
pub open spec fn is_first_nul(bytes: Seq<u8>, position: int) -> bool {
    &&& 0 <= position < bytes.len()
    &&& bytes[position] == 0
    &&& forall|i: int| 0 <= i < position ==> bytes[i] != 0
}

/// Whether `bytes` holds a zero byte, which would end the expression early
/// in the eyes of the native compiler.
pub open spec fn has_nul(bytes: Seq<u8>) -> bool {
    exists|i: int| 0 <= i < bytes.len() && bytes[i] == 0
}

/// Finds the first zero byte of an expression.
pub fn find_nul(bytes: &Vec<u8>) -> (found: Option<usize>)
    ensures
        match found {
            Some(position) => is_first_nul(bytes@, position as int),
            None => !has_nul(bytes@),
        },
{
    let mut i: usize = 0;
    while i < bytes.len()
        invariant
            i <= bytes.len(),
            forall|j: int| 0 <= j < i ==> bytes@[j] != 0,
        decreases bytes.len() - i,
    {
        if bytes[i] == 0 {
            return Some(i);
        }
        i = i + 1;
    }
    None
}

/// What the native compiler is given: for each pattern, in order, its
/// expression, the bits of its options and its number; and the bits of the
/// scan mode.
pub struct CompileRequestView {
    pub expressions: Seq<Seq<u8>>,
    pub flags: Seq<u32>,
    pub ids: Seq<u32>,
    pub mode: u32,
}

/// What `patterns` and the bits of a scan mode look like to the native
/// compiler.
pub open spec fn marshalled(patterns: Seq<Pattern>, mode: u32) -> CompileRequestView {
    CompileRequestView {
        expressions: expressions_of(patterns),
        flags: Seq::new(patterns.len(), |i: int| patterns[i].flags().raw()),
        ids: Seq::new(patterns.len(), |i: int| patterns[i].native_id()),
        mode,
    }
}

/// The expressions of a list of patterns, in the order of the list.
pub open spec fn expressions_of(patterns: Seq<Pattern>) -> Seq<Seq<u8>> {
    Seq::new(patterns.len(), |i: int| patterns[i].expression())
}

/// Whether the expression at `index` is the first that holds a zero byte.
pub open spec fn is_first_malformed(expressions: Seq<Seq<u8>>, index: int) -> bool {
    &&& 0 <= index < expressions.len()
    &&& has_nul(expressions[index])
    &&& forall|i: int| 0 <= i < index ==> !has_nul(#[trigger] expressions[i])
}

/// Whether some expression holds a zero byte.
pub open spec fn any_malformed(expressions: Seq<Seq<u8>>) -> bool {
    exists|i: int| 0 <= i < expressions.len() && has_nul(#[trigger] expressions[i])
}

/// Where the first zero byte of `bytes` stands, if there is one.
pub open spec fn nul_position(bytes: Seq<u8>) -> int {
    choose|position: int| is_first_nul(bytes, position)
}

/// Which expression is the first that holds a zero byte, if one does.
pub open spec fn first_malformed(expressions: Seq<Seq<u8>>) -> int {
    choose|index: int| is_first_malformed(expressions, index)
}

/// Where the first zero byte stands in the first expression that holds one,
/// if one does.
pub open spec fn first_nul_in(expressions: Seq<Seq<u8>>) -> int {
    nul_position(expressions[first_malformed(expressions)])
}

/// What becomes of a list of patterns on its way to the native compiler:
/// the position of the first zero byte in the first expression that holds
/// one, or else the request.
pub open spec fn checked(patterns: Seq<Pattern>, mode: u32) -> Result<
    CompileRequestView,
    int,
> {
    if any_malformed(expressions_of(patterns)) {
        Err(first_nul_in(expressions_of(patterns)))
    } else {
        Ok(marshalled(patterns, mode))
    }
}

/// An expression has one first zero byte at most.
pub proof fn lemma_first_nul_is_unique(bytes: Seq<u8>, position: int)
    requires
        is_first_nul(bytes, position),
    ensures
        has_nul(bytes),
        nul_position(bytes) == position,
{
    let chosen = nul_position(bytes);
    assert(is_first_nul(bytes, chosen));
    if chosen < position {
        assert(bytes[chosen] != 0);
    }
    if position < chosen {
        assert(bytes[position] != 0);
    }
}

/// A list of expressions has one first malformed expression at most.
pub proof fn lemma_first_malformed_is_unique(expressions: Seq<Seq<u8>>, index: int)
    requires
        is_first_malformed(expressions, index),
    ensures
        any_malformed(expressions),
        first_malformed(expressions) == index,
{
    let chosen = first_malformed(expressions);
    assert(is_first_malformed(expressions, chosen));
    if chosen < index {
        assert(!has_nul(expressions[chosen]));
    }
    if index < chosen {
        assert(!has_nul(expressions[index]));
    }
}

/// A list of patterns and a scan mode, checked and laid out for the native
/// compiler: three parallel lists and the mode's bits. No expression in a
/// request holds a zero byte, so each can be handed over as a terminated
/// string.
#[derive(Debug, PartialEq, Eq)]
pub struct CompileRequest {
    expressions: Vec<Vec<u8>>,
    flags: Vec<u32>,
    ids: Vec<u32>,
    mode: u32,
}

impl View for CompileRequest {
    type V = CompileRequestView;

    closed spec fn view(&self) -> CompileRequestView {
        CompileRequestView {
            expressions: Seq::new(self.expressions@.len(), |i: int| self.expressions@[i]@),
            flags: self.flags@,
            ids: self.ids@,
            mode: self.mode,
        }
    }
}

impl CompileRequestView {
    /// The three lists are equally long, and no expression holds a zero
    /// byte.
    pub open spec fn wf(self) -> bool {
        &&& self.flags.len() == self.expressions.len()
        &&& self.ids.len() == self.expressions.len()
        &&& forall|i: int| 0 <= i < self.expressions.len() ==> !has_nul(#[trigger] self.expressions[i])
    }
}

impl CompileRequest {
    #[verifier::type_invariant]
    spec fn inv(self) -> bool {
        self@.wf()
    }

    /// Checks a list of patterns and lays it out for the native compiler.
    ///
    /// What `Pattern::new` refused does not come this far. The expressions
    /// are looked through once more all the same, so that what a request
    /// promises of itself rests on this function alone.
    ///
    /// Fails with `MalformedInput` exactly when some expression holds a zero
    /// byte; the error then carries the position of the first zero byte in
    /// the first such expression. Otherwise the request holds every pattern,
    /// in order: its expression unchanged, the bits of its options, and its
    /// number, 0 where the caller chose none.
    pub fn new<E>(patterns: Vec<Pattern>, mode: ScanMode) -> (result: Result<
        CompileRequest,
        Error<E>,
    >)
        ensures
            match result {
                Ok(request) => checked(patterns@, mode.raw()) == Ok::<CompileRequestView, int>(
                    request@,
                ),
                Err(error) => checked(patterns@, mode.raw()) matches Err(position)
                    && error == Error::<E>::MalformedInput(position as usize),
            },
            result matches Ok(request) ==> request@.wf(),
    {
        let ghost all = patterns@;
        let mut expressions: Vec<Vec<u8>> = Vec::with_capacity(patterns.len());
        let mut flags: Vec<u32> = Vec::with_capacity(patterns.len());
        let mut ids: Vec<u32> = Vec::with_capacity(patterns.len());
        for pattern in it: patterns
            invariant
                it.seq() == all,
                expressions@.len() == it.index(),
                flags@.len() == it.index(),
                ids@.len() == it.index(),
                forall|i: int| 0 <= i < it.index() ==> !has_nul(#[trigger] all[i].expression()),
                forall|i: int|
                    0 <= i < it.index() ==> (#[trigger] expressions@[i])@ == all[i].expression(),
                forall|i: int| 0 <= i < it.index() ==> #[trigger] flags@[i] == all[i].flags().raw(),
                forall|i: int| 0 <= i < it.index() ==> #[trigger] ids@[i] == all[i].native_id(),
        {
            let ghost at = it.index() as int;
            let Pattern { expression, flags: options, id } = pattern;
            match find_nul(&expression) {
                Some(position) => {
                    proof {
                        lemma_first_nul_is_unique(all[at].expression(), position as int);
                        assert(expressions_of(all)[at] == all[at].expression());
                        assert forall|i: int| 0 <= i < at implies !has_nul(
                            #[trigger] expressions_of(all)[i],
                        ) by {
                            assert(expressions_of(all)[i] == all[i].expression());
                        }
                        lemma_first_malformed_is_unique(expressions_of(all), at);
                    }
                    return Err(Error::MalformedInput(position));
                },
                None => {},
            }
            expressions.push(expression);
            flags.push(options.bits());
            ids.push(
                match id {
                    Some(id) => id,
                    None => 0,
                },
            );
        }
        proof {
            assert(!any_malformed(expressions_of(all))) by {
                assert forall|i: int| 0 <= i < all.len() implies !has_nul(
                    #[trigger] expressions_of(all)[i],
                ) by {
                    assert(expressions_of(all)[i] == all[i].expression());
                }
            }
            let view = CompileRequestView {
                expressions: Seq::new(expressions@.len(), |i: int| expressions@[i]@),
                flags: flags@,
                ids: ids@,
                mode: mode.raw(),
            };
            assert(view.expressions =~= marshalled(all, mode.raw()).expressions);
            assert(view.flags =~= marshalled(all, mode.raw()).flags);
            assert(view.ids =~= marshalled(all, mode.raw()).ids);
            assert(view.wf());
        }
        Ok(CompileRequest { expressions, flags, ids, mode: mode.bits() })
    }

    /// The expressions, in the order of the patterns.
    pub fn expressions(&self) -> (expressions: &Vec<Vec<u8>>)
        ensures
            expressions@.len() == self@.expressions.len(),
            forall|i: int|
                0 <= i < expressions@.len() ==> (#[trigger] expressions@[i])@
                    == self@.expressions[i],
            self@.wf(),
    {
        proof {
            use_type_invariant(self);
        }
        &self.expressions
    }

    /// The bits of each pattern's options, in the order of the patterns.
    pub fn flags(&self) -> (flags: &Vec<u32>)
        ensures
            flags@ == self@.flags,
            self@.wf(),
    {
        proof {
            use_type_invariant(self);
        }
        &self.flags
    }

    /// Each pattern's number, in the order of the patterns.
    pub fn ids(&self) -> (ids: &Vec<u32>)
        ensures
            ids@ == self@.ids,
            self@.wf(),
    {
        proof {
            use_type_invariant(self);
        }
        &self.ids
    }

    /// The bits of the scan mode.
    pub fn mode(&self) -> (mode: u32)
        ensures
            mode == self@.mode,
    {
        self.mode
    }

    /// The number of patterns as the native compiler counts them: in 32
    /// bits, whatever does not fit being cut off.
    pub fn count(&self) -> (count: u32)
        ensures
            count == native_length(self@.expressions.len()),
    {
        truncate(self.expressions.len())
    }
}

/// A length as the native engine reads it: in 32 bits, whatever does not fit
/// being cut off.
pub open spec fn native_length(length: nat) -> u32 {
    (length % 0x1_0000_0000) as u32
}

/// Cuts a length down to the 32 bits that the native engine reads.
pub fn truncate(length: usize) -> (native: u32)
    ensures
        native == native_length(length as nat),
{
    let wide: u64 = length as u64;
    assert(wide as u32 == wide % 0x1_0000_0000) by (bit_vector);
    #[verifier::truncate]
    (wide as u32)
}

} // verus!
