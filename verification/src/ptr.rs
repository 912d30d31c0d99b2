use core::marker::PhantomData;
use core::num::NonZero;
use vstd::prelude::*;

verus! {

/// Lowest value of the reserved band of 256 sentinel words at the top of the
/// 32-bit range. A stored pointer word at or above this value never denotes a
/// node; the band's lowest value is the one sentinel in use, "no node". The
/// band bounds an arena to fewer than `SENTINEL_BASE` nodes.
pub const SENTINEL_BASE: u32 = u32::MAX - 0xFF;

/// A nonzero 32-bit word. `core::num::NonZero<u32>` itself cannot be declared
/// to the verifier (its generic parameter is bound by a sealed trait of
/// `core`), so the word is held opaquely and reached only through the two
/// wrappers below. Keeping the word nonzero preserves the niche: an optional
/// pointer costs no more space than the pointer.
#[verifier::external_body]
pub struct RawWord {
    inner: NonZero<u32>,
}

impl Clone for RawWord {
    /// Copies the wrapped `core::num::NonZero<u32>` bit for bit, so the copy
    /// wraps the same value.
    #[verifier::external_body]
    fn clone(&self) -> (r: Self)
        ensures
            r == *self,
    {
        RawWord { inner: self.inner }
    }
}

impl Copy for RawWord {}

/// The 32-bit value a `RawWord` wraps.
pub uninterp spec fn raw_word_value(w: RawWord) -> u32;

/// Relies on `core::num::NonZero::<u32>::new`: returns `Some` exactly when
/// the argument is nonzero, wrapping that argument.
#[verifier::external_body]
fn raw_word_new(v: u32) -> (r: Option<RawWord>)
    ensures
        r.is_some() <==> v != 0,
        r.is_some() ==> raw_word_value(r.unwrap()) == v,
{
    NonZero::<u32>::new(v).map(|inner| RawWord { inner })
}

/// Relies on `core::num::NonZero::<u32>::get`: returns the wrapped value,
/// which is never zero.
#[verifier::external_body]
fn raw_word_get(w: RawWord) -> (v: u32)
    ensures
        v == raw_word_value(w),
        v != 0,
{
    w.inner.get()
}

/// A compact reference to a node slot inside an arena, or "no node".
/// A valid reference stores the slot's position offset by one, so the word 0
/// is never produced; the word `SENTINEL_BASE` encodes "no node". The type
/// parameter only keeps a pointer from being used against an arena of another
/// element type; it costs no space.
pub struct ListNodePtr<T> {
    word: RawWord,
    marker: PhantomData<T>,
}

impl<T> ListNodePtr<T> {
    /// The stored 32-bit word.
    pub closed spec fn raw(self) -> u32 {
        raw_word_value(self.word)
    }

    /// True of the "no node" encoding.
    pub open spec fn spec_is_invalid(self) -> bool {
        self.raw() == SENTINEL_BASE
    }

    /// Every pointer this library constructs satisfies this: the word is
    /// 1-based and never above the one sentinel in use.
    pub open spec fn wf(self) -> bool {
        1 <= self.raw() <= SENTINEL_BASE
    }

    /// The arena position a valid pointer denotes: the word less the 1-based
    /// offset.
    pub open spec fn idx(self) -> int {
        self.raw() - 1
    }

    /// Measure for walking a chain of nodes: positions strictly decrease
    /// along tails, and "no node" ends the walk.
    pub open spec fn rank(self) -> int {
        if self.spec_is_invalid() {
            0
        } else {
            self.idx() + 1
        }
    }

    /// The "no node" pointer.
    pub(crate) fn invalid() -> (r: Self)
        ensures
            r.raw() == SENTINEL_BASE,
    {
        ListNodePtr { word: raw_word_new(SENTINEL_BASE).unwrap(), marker: PhantomData }
    }

    /// Wraps an in-band, 1-based word as a pointer. Only the arena calls
    /// this, with the position of a node it has just appended.
    pub(crate) fn new(word: u32) -> (r: Self)
        requires
            1 <= word < SENTINEL_BASE,
        ensures
            r.raw() == word,
    {
        ListNodePtr { word: raw_word_new(word).unwrap(), marker: PhantomData }
    }

    /// True iff this pointer denotes no node.
    pub(crate) fn is_invalid(&self) -> (r: bool)
        ensures
            r == self.spec_is_invalid(),
    {
        raw_word_get(self.word) == SENTINEL_BASE
    }

    /// The position this pointer denotes, as an index. Never applied to the
    /// "no node" pointer; callers check for emptiness first.
    pub(crate) fn as_usize(self) -> (r: usize)
        requires
            self.wf(),
            !self.spec_is_invalid(),
        ensures
            r == self.idx(),
    {
        (raw_word_get(self.word) - 1) as usize
    }
}

impl<T> Clone for ListNodePtr<T> {
    /// Copies the word alone.
    fn clone(&self) -> (r: Self)
        ensures
            r == *self,
    {
        ListNodePtr { word: self.word, marker: self.marker }
    }
}

impl<T> Copy for ListNodePtr<T> {}

} // verus!
