//! Per-pattern flags and engine-wide scan modes: sets of independent options,
//! each held as the bits that the native engine reads.

use vstd::prelude::*;

verus! {

pub const HS_FLAG_CASELESS: u32 = 1;

pub const HS_FLAG_DOTALL: u32 = 2;

pub const HS_FLAG_MULTILINE: u32 = 4;

pub const HS_FLAG_SINGLEMATCH: u32 = 8;

pub const HS_FLAG_ALLOWEMPTY: u32 = 16;

pub const HS_FLAG_UTF8: u32 = 32;

pub const HS_FLAG_UCP: u32 = 64;

pub const HS_FLAG_PREFILTER: u32 = 128;

pub const HS_FLAG_SOM_LEFTMOST: u32 = 256;

pub const HS_FLAG_COMBINATION: u32 = 512;

pub const HS_FLAG_QUIET: u32 = 1024;

/// Every flag bit that the native engine defines.
pub const HS_FLAG_ALL: u32 = 2047;

pub const HS_MODE_BLOCK: u32 = 1;

pub const HS_MODE_STREAM: u32 = 2;

pub const HS_MODE_VECTORED: u32 = 4;

pub const HS_MODE_SOM_HORIZON_LARGE: u32 = 0x0100_0000;

pub const HS_MODE_SOM_HORIZON_MEDIUM: u32 = 0x0200_0000;

pub const HS_MODE_SOM_HORIZON_SMALL: u32 = 0x0400_0000;

/// Every mode bit that the native engine defines.
pub const HS_MODE_ALL: u32 = 0x0700_0007;

/// One option of a pattern.
#[derive(Clone, Copy, Debug, PartialEq, Eq)]
pub enum FlagBit {
    /// Match without regard to case.
    Caseless,
    /// `.` also matches a newline.
    DotAll,
    /// `^` and `$` match at newlines.
    Multiline,
    /// Report a pattern's first match only.
    SingleMatch,
    /// Allow a pattern that matches the empty string.
    AllowEmpty,
    /// Read pattern and input as UTF-8.
    Utf8,
    /// Character classes follow Unicode properties.
    Ucp,
    /// Compile in prefilter mode.
    Prefilter,
    /// Report the leftmost start of each match.
    SomLeftmost,
    /// The expression combines other patterns.
    Combination,
    /// Match without reporting.
    Quiet,
}

impl FlagBit {
    /// The bit by which the native engine knows this option.
    pub open spec fn mask(self) -> u32 {
        match self {
            FlagBit::Caseless => HS_FLAG_CASELESS,
            FlagBit::DotAll => HS_FLAG_DOTALL,
            FlagBit::Multiline => HS_FLAG_MULTILINE,
            FlagBit::SingleMatch => HS_FLAG_SINGLEMATCH,
            FlagBit::AllowEmpty => HS_FLAG_ALLOWEMPTY,
            FlagBit::Utf8 => HS_FLAG_UTF8,
            FlagBit::Ucp => HS_FLAG_UCP,
            FlagBit::Prefilter => HS_FLAG_PREFILTER,
            FlagBit::SomLeftmost => HS_FLAG_SOM_LEFTMOST,
            FlagBit::Combination => HS_FLAG_COMBINATION,
            FlagBit::Quiet => HS_FLAG_QUIET,
        }
    }

    /// The position of this option's bit.
    pub open spec fn index(self) -> u32 {
        match self {
            FlagBit::Caseless => 0,
            FlagBit::DotAll => 1,
            FlagBit::Multiline => 2,
            FlagBit::SingleMatch => 3,
            FlagBit::AllowEmpty => 4,
            FlagBit::Utf8 => 5,
            FlagBit::Ucp => 6,
            FlagBit::Prefilter => 7,
            FlagBit::SomLeftmost => 8,
            FlagBit::Combination => 9,
            FlagBit::Quiet => 10,
        }
    }

    /// The bit by which the native engine knows this option.
    pub fn bits(self) -> (bits: u32)
        ensures
            bits == self.mask(),
    {
        match self {
            FlagBit::Caseless => HS_FLAG_CASELESS,
            FlagBit::DotAll => HS_FLAG_DOTALL,
            FlagBit::Multiline => HS_FLAG_MULTILINE,
            FlagBit::SingleMatch => HS_FLAG_SINGLEMATCH,
            FlagBit::AllowEmpty => HS_FLAG_ALLOWEMPTY,
            FlagBit::Utf8 => HS_FLAG_UTF8,
            FlagBit::Ucp => HS_FLAG_UCP,
            FlagBit::Prefilter => HS_FLAG_PREFILTER,
            FlagBit::SomLeftmost => HS_FLAG_SOM_LEFTMOST,
            FlagBit::Combination => HS_FLAG_COMBINATION,
            FlagBit::Quiet => HS_FLAG_QUIET,
        }
    }
}

/// One bit at a position below 32.
spec fn bit_at(index: u32) -> u32 {
    1u32 << index
}

/// Two single bits overlap exactly when they are the same bit, and a single
/// bit is never zero.
proof fn lemma_single_bits(i: u32, j: u32)
    requires
        i < 32,
        j < 32,
    ensures
        (bit_at(i) & bit_at(j) != 0) <==> i == j,
        bit_at(i) != 0,
{
    assert(((1u32 << i) & (1u32 << j) != 0) <==> i == j) by (bit_vector)
        requires
            i < 32,
            j < 32,
    ;
    assert((1u32 << i) != 0) by (bit_vector)
        requires
            i < 32,
    ;
}

/// Each option's bit is the single bit at the option's position, and lies
/// within the bits that the native engine defines.
proof fn lemma_flag_masks(bit: FlagBit)
    ensures
        bit.mask() == bit_at(bit.index()),
        bit.index() < 11,
        bit.mask() & HS_FLAG_ALL == bit.mask(),
{
    assert(1u32 << 0u32 == 1 && 1u32 << 1u32 == 2 && 1u32 << 2u32 == 4 && 1u32 << 3u32 == 8 && 1u32
        << 4u32 == 16 && 1u32 << 5u32 == 32 && 1u32 << 6u32 == 64 && 1u32 << 7u32 == 128 && 1u32
        << 8u32 == 256 && 1u32 << 9u32 == 512 && 1u32 << 10u32 == 1024) by (bit_vector);
    assert(1u32 & 2047 == 1 && 2u32 & 2047 == 2 && 4u32 & 2047 == 4 && 8u32 & 2047 == 8 && 16u32
        & 2047 == 16 && 32u32 & 2047 == 32 && 64u32 & 2047 == 64 && 128u32 & 2047 == 128 && 256u32
        & 2047 == 256 && 512u32 & 2047 == 512 && 1024u32 & 2047 == 1024) by (bit_vector);
}

/// A set of pattern options. Its view is the set of options it holds; its
/// bits are what the native compiler is given.
#[derive(Clone, Copy, Debug, PartialEq, Eq)]
pub struct Flag {
    bits: u32,
}

impl View for Flag {
    type V = Set<FlagBit>;

    open spec fn view(&self) -> Set<FlagBit> {
        Set::new(|bit: FlagBit| self.raw() & bit.mask() != 0)
    }
}

impl Default for Flag {
    fn default() -> (flags: Flag)
        ensures
            flags.raw() == 0,
            flags@ == Set::<FlagBit>::empty(),
    {
        Flag::empty()
    }
}

impl Flag {
    /// Only bits that the native engine defines are ever set.
    #[verifier::type_invariant]
    spec fn inv(self) -> bool {
        self.bits & HS_FLAG_ALL == self.bits
    }

    /// The bits, as the native compiler reads them.
    pub closed spec fn raw(self) -> u32 {
        self.bits
    }

    /// The set without any option.
    pub fn empty() -> (flags: Flag)
        ensures
            flags.raw() == 0,
            flags@ == Set::<FlagBit>::empty(),
    {
        proof {
            assert(0u32 & 2047 == 0) by (bit_vector);
        }
        let flags = Flag { bits: 0 };
        proof {
            assert forall|bit: FlagBit| !(#[trigger] flags@.contains(bit)) by {
                let mask = bit.mask();
                assert(0u32 & mask == 0) by (bit_vector);
            }
            assert(flags@ =~= Set::<FlagBit>::empty());
        }
        flags
    }

    /// The set of one option.
    pub fn from_bit(bit: FlagBit) -> (flags: Flag)
        ensures
            flags.raw() == bit.mask(),
            flags@ == set![bit],
    {
        proof {
            lemma_flag_masks(bit);
        }
        let flags = Flag { bits: bit.bits() };
        proof {
            assert forall|other: FlagBit| #[trigger] flags@.contains(other) <==> other == bit by {
                lemma_flag_masks(other);
                lemma_single_bits(bit.index(), other.index());
            }
            assert(flags@ =~= set![bit]);
        }
        flags
    }

    /// The options of either set: the bitwise or of their bits.
    pub fn union(self, other: Flag) -> (flags: Flag)
        ensures
            flags.raw() == self.raw() | other.raw(),
            flags@ == self@.union(other@),
    {
        proof {
            use_type_invariant(&self);
            use_type_invariant(&other);
            let a = self.bits;
            let b = other.bits;
            assert((a | b) & 2047 == (a | b)) by (bit_vector)
                requires
                    a & 2047 == a,
                    b & 2047 == b,
            ;
        }
        let flags = Flag { bits: self.bits | other.bits };
        proof {
            let a = self.bits;
            let b = other.bits;
            assert forall|bit: FlagBit| #[trigger]
                flags@.contains(bit) <==> self@.contains(bit) || other@.contains(bit) by {
                let mask = bit.mask();
                assert(((a | b) & mask != 0) <==> (a & mask != 0) || (b & mask != 0))
                    by (bit_vector);
            }
            assert(flags@ =~= self@.union(other@));
        }
        flags
    }

    /// Whether the set holds an option.
    pub fn contains(&self, bit: FlagBit) -> (held: bool)
        ensures
            held == self@.contains(bit),
    {
        self.bits & bit.bits() != 0
    }

    /// The bits, as the native compiler reads them.
    pub fn bits(&self) -> (bits: u32)
        ensures
            bits == self.raw(),
            bits & HS_FLAG_ALL == bits,
    {
        proof {
            use_type_invariant(self);
        }
        self.bits
    }

    /// The set of the options listed, however often and in whatever order
    /// each is listed.
    pub fn from_options(listed: &Vec<FlagBit>) -> (flags: Flag)
        ensures
            flags@ == listed@.to_set(),
    {
        let mut flags = Flag::empty();
        let mut i: usize = 0;
        while i < listed.len()
            invariant
                i <= listed.len(),
                flags@ == listed@.take(i as int).to_set(),
            decreases listed.len() - i,
        {
            let next = Flag::from_bit(listed[i]);
            proof {
                let before = listed@.take(i as int);
                let after = listed@.take(i + 1);
                assert(after =~= before.push(listed@[i as int]));
                assert(after.to_set() =~= before.to_set().union(set![listed@[i as int]])) by {
                    assert forall|bit: FlagBit| #[trigger]
                        after.to_set().contains(bit) <==> before.to_set().contains(bit) || bit
                            == listed@[i as int] by {
                        if after.contains(bit) {
                            let k = choose|k: int| 0 <= k < after.len() && after[k] == bit;
                            if k < i {
                                assert(before[k] == bit);
                            }
                        }
                        if before.contains(bit) {
                            let k = choose|k: int| 0 <= k < before.len() && before[k] == bit;
                            assert(after[k] == bit);
                        }
                        if bit == listed@[i as int] {
                            assert(after[i as int] == bit);
                        }
                    }
                }
            }
            flags = flags.union(next);
            i = i + 1;
        }
        proof {
            assert(listed@.take(listed.len() as int) =~= listed@);
        }
        flags
    }
}

/// Two sets of options that hold the same options agree on every bit.
proof fn lemma_flag_view_decides_bit(a: Flag, b: Flag, bit: FlagBit)
    requires
        a@ == b@,
    ensures
        (a.raw() & bit.mask() != 0) <==> (b.raw() & bit.mask() != 0),
{
    assert(a@.contains(bit) <==> a.raw() & bit.mask() != 0);
    assert(b@.contains(bit) <==> b.raw() & bit.mask() != 0);
}

/// Two sets of options that hold the same options have the same bits.
pub proof fn lemma_flag_view_decides_bits(a: Flag, b: Flag)
    requires
        a.raw() & HS_FLAG_ALL == a.raw(),
        b.raw() & HS_FLAG_ALL == b.raw(),
        a@ == b@,
    ensures
        a.raw() == b.raw(),
{
    let x = a.raw();
    let y = b.raw();
    lemma_flag_view_decides_bit(a, b, FlagBit::Caseless);
    lemma_flag_view_decides_bit(a, b, FlagBit::DotAll);
    lemma_flag_view_decides_bit(a, b, FlagBit::Multiline);
    lemma_flag_view_decides_bit(a, b, FlagBit::SingleMatch);
    lemma_flag_view_decides_bit(a, b, FlagBit::AllowEmpty);
    lemma_flag_view_decides_bit(a, b, FlagBit::Utf8);
    lemma_flag_view_decides_bit(a, b, FlagBit::Ucp);
    lemma_flag_view_decides_bit(a, b, FlagBit::Prefilter);
    lemma_flag_view_decides_bit(a, b, FlagBit::SomLeftmost);
    lemma_flag_view_decides_bit(a, b, FlagBit::Combination);
    lemma_flag_view_decides_bit(a, b, FlagBit::Quiet);
    assert(x == y) by (bit_vector)
        requires
            x & 2047 == x,
            y & 2047 == y,
            x & 1 != 0 <==> y & 1 != 0,
            x & 2 != 0 <==> y & 2 != 0,
            x & 4 != 0 <==> y & 4 != 0,
            x & 8 != 0 <==> y & 8 != 0,
            x & 16 != 0 <==> y & 16 != 0,
            x & 32 != 0 <==> y & 32 != 0,
            x & 64 != 0 <==> y & 64 != 0,
            x & 128 != 0 <==> y & 128 != 0,
            x & 256 != 0 <==> y & 256 != 0,
            x & 512 != 0 <==> y & 512 != 0,
            x & 1024 != 0 <==> y & 1024 != 0,
    ;
}

/// One part of a scan mode: a way of handing data to the engine, or how far
/// back the engine tracks the start of a match.
#[derive(Clone, Copy, Debug, PartialEq, Eq)]
pub enum ModeBit {
    /// Each scan takes one whole buffer.
    Block,
    /// Each scan takes a list of buffers, read as one.
    Vectored,
    /// Data arrives in successive chunks.
    Stream,
    /// Starts of matches are tracked over a small horizon.
    SomSmall,
    /// Starts of matches are tracked over a medium horizon.
    SomMedium,
    /// Starts of matches are tracked over a large horizon.
    SomLarge,
}

impl ModeBit {
    /// The bit by which the native engine knows this part.
    pub open spec fn mask(self) -> u32 {
        match self {
            ModeBit::Block => HS_MODE_BLOCK,
            ModeBit::Vectored => HS_MODE_VECTORED,
            ModeBit::Stream => HS_MODE_STREAM,
            ModeBit::SomSmall => HS_MODE_SOM_HORIZON_SMALL,
            ModeBit::SomMedium => HS_MODE_SOM_HORIZON_MEDIUM,
            ModeBit::SomLarge => HS_MODE_SOM_HORIZON_LARGE,
        }
    }

    /// The position of this part's bit.
    pub open spec fn index(self) -> u32 {
        match self {
            ModeBit::Block => 0,
            ModeBit::Stream => 1,
            ModeBit::Vectored => 2,
            ModeBit::SomLarge => 24,
            ModeBit::SomMedium => 25,
            ModeBit::SomSmall => 26,
        }
    }

    /// The bit by which the native engine knows this part.
    pub fn bits(self) -> (bits: u32)
        ensures
            bits == self.mask(),
    {
        match self {
            ModeBit::Block => HS_MODE_BLOCK,
            ModeBit::Vectored => HS_MODE_VECTORED,
            ModeBit::Stream => HS_MODE_STREAM,
            ModeBit::SomSmall => HS_MODE_SOM_HORIZON_SMALL,
            ModeBit::SomMedium => HS_MODE_SOM_HORIZON_MEDIUM,
            ModeBit::SomLarge => HS_MODE_SOM_HORIZON_LARGE,
        }
    }
}

/// Each part's bit is the single bit at the part's position, and lies within
/// the bits that the native engine defines.
proof fn lemma_mode_masks(bit: ModeBit)
    ensures
        bit.mask() == bit_at(bit.index()),
        bit.index() < 27,
        bit.mask() & HS_MODE_ALL == bit.mask(),
{
    assert(1u32 << 0u32 == 1 && 1u32 << 1u32 == 2 && 1u32 << 2u32 == 4 && 1u32 << 24u32
        == 0x0100_0000 && 1u32 << 25u32 == 0x0200_0000 && 1u32 << 26u32 == 0x0400_0000)
        by (bit_vector);
    assert(1u32 & 0x0700_0007 == 1 && 2u32 & 0x0700_0007 == 2 && 4u32 & 0x0700_0007 == 4
        && 0x0100_0000u32 & 0x0700_0007 == 0x0100_0000 && 0x0200_0000u32 & 0x0700_0007
        == 0x0200_0000 && 0x0400_0000u32 & 0x0700_0007 == 0x0400_0000) by (bit_vector);
}

/// An engine-wide scan mode: a set of mode parts. Its view is the set of
/// parts it holds; its bits are what the native compiler is given.
#[derive(Clone, Copy, Debug, PartialEq, Eq)]
pub struct ScanMode {
    bits: u32,
}

impl View for ScanMode {
    type V = Set<ModeBit>;

    open spec fn view(&self) -> Set<ModeBit> {
        Set::new(|bit: ModeBit| self.raw() & bit.mask() != 0)
    }
}

impl ScanMode {
    /// Only bits that the native engine defines are ever set.
    #[verifier::type_invariant]
    spec fn inv(self) -> bool {
        self.bits & HS_MODE_ALL == self.bits
    }

    /// The bits, as the native compiler reads them.
    pub closed spec fn raw(self) -> u32 {
        self.bits
    }

    /// Whether the mode names exactly one way of handing data to the engine,
    /// as the native compiler asks.
    pub open spec fn selects_one_delivery(self) -> bool {
        let block = self@.contains(ModeBit::Block);
        let vectored = self@.contains(ModeBit::Vectored);
        let stream = self@.contains(ModeBit::Stream);
        (block && !vectored && !stream) || (!block && vectored && !stream) || (!block && !vectored
            && stream)
    }

    /// The mode of one part.
    pub fn from_bit(bit: ModeBit) -> (mode: ScanMode)
        ensures
            mode.raw() == bit.mask(),
            mode@ == set![bit],
    {
        proof {
            lemma_mode_masks(bit);
        }
        let mode = ScanMode { bits: bit.bits() };
        proof {
            assert forall|other: ModeBit| #[trigger] mode@.contains(other) <==> other == bit by {
                lemma_mode_masks(other);
                lemma_single_bits(bit.index(), other.index());
            }
            assert(mode@ =~= set![bit]);
        }
        mode
    }

    /// The parts of either mode: the bitwise or of their bits.
    pub fn union(self, other: ScanMode) -> (mode: ScanMode)
        ensures
            mode.raw() == self.raw() | other.raw(),
            mode@ == self@.union(other@),
    {
        proof {
            use_type_invariant(&self);
            use_type_invariant(&other);
            let a = self.bits;
            let b = other.bits;
            assert((a | b) & 0x0700_0007 == (a | b)) by (bit_vector)
                requires
                    a & 0x0700_0007 == a,
                    b & 0x0700_0007 == b,
            ;
        }
        let mode = ScanMode { bits: self.bits | other.bits };
        proof {
            let a = self.bits;
            let b = other.bits;
            assert forall|bit: ModeBit| #[trigger]
                mode@.contains(bit) <==> self@.contains(bit) || other@.contains(bit) by {
                let mask = bit.mask();
                assert(((a | b) & mask != 0) <==> (a & mask != 0) || (b & mask != 0))
                    by (bit_vector);
            }
            assert(mode@ =~= self@.union(other@));
        }
        mode
    }

    /// The bits, as the native compiler reads them.
    pub fn bits(&self) -> (bits: u32)
        ensures
            bits == self.raw(),
            bits & HS_MODE_ALL == bits,
    {
        proof {
            use_type_invariant(self);
        }
        self.bits
    }
}

} // verus!
