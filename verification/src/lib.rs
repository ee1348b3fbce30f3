//! A type-tagged 64-bit hash value.
//!
//! `HashOf<T, H>` carries a digest together with two phantom markers: the
//! logical type `T` the digest was computed over, and the hasher `H` that
//! produced it. Digests over different markers are different types, so they
//! cannot be compared or mixed, even though the stored digest is a plain
//! `u64` in every case.

use core::borrow::Borrow;
use core::marker::PhantomData;
use std::collections::hash_map::DefaultHasher;
use std::hash::Hash;
use std::hash::Hasher;
use vstd::prelude::*;
use vstd::std_specs::cmp::PartialEqSpec;
use vstd::std_specs::hash::DefaultHasherAdditionalSpecFns;

verus! {

/// The sequence of byte strings that `str`'s `Hash` implementation feeds to
/// a hasher, as a function of the string's characters alone.
pub uninterp spec fn str_hash_writes(s: Seq<char>) -> Seq<Seq<u8>>;

/// The sequence of byte strings that `u32`'s `Hash` implementation feeds to
/// a hasher, as a function of the number alone.
pub uninterp spec fn u32_hash_writes(x: u32) -> Seq<Seq<u8>>;

/// A value that can be fed to a hasher, together with the canonical write
/// sequence it produces. Two types whose values produce the same write
/// sequence (an owned text and a borrowed view of it, say) hash
/// interchangeably; that is exactly what `hash_writes` makes precise.
pub trait HashInput {
    /// The canonical sequence of byte strings this value feeds to a hasher.
    spec fn hash_writes(&self) -> Seq<Seq<u8>>;

    /// Feed this value to the hasher state exactly once.
    fn feed(&self, state: &mut DefaultHasher)
        ensures
            final(state)@ == old(state)@ + self.hash_writes(),
    ;
}

/// Relies on `str`'s `Hash` implementation: the byte strings it writes are
/// determined by the string's characters alone (its UTF-8 bytes followed by
/// a terminator, per the prefix-collision note in the `Hash` documentation).
#[verifier::external_body]
fn feed_str(s: &str, state: &mut DefaultHasher)
    ensures
        final(state)@ == old(state)@ + str_hash_writes(s@),
{
    s.hash(state);
}

/// Relies on `String`'s `Hash` implementation: by the consistency contract
/// documented on `Borrow` (equal borrowed and owned values must hash alike,
/// and `String` borrows as `str`), a `String` writes exactly what the `str`
/// of the same characters writes.
#[verifier::external_body]
fn feed_string(s: &String, state: &mut DefaultHasher)
    ensures
        final(state)@ == old(state)@ + str_hash_writes(s@),
{
    s.hash(state);
}

/// Relies on `u32`'s `Hash` implementation: the bytes it writes are
/// determined by the number alone.
#[verifier::external_body]
fn feed_u32(x: &u32, state: &mut DefaultHasher)
    ensures
        final(state)@ == old(state)@ + u32_hash_writes(*x),
{
    x.hash(state);
}

impl HashInput for str {
    open spec fn hash_writes(&self) -> Seq<Seq<u8>> {
        str_hash_writes(self@)
    }

    fn feed(&self, state: &mut DefaultHasher) {
        feed_str(self, state);
    }
}

impl HashInput for String {
    open spec fn hash_writes(&self) -> Seq<Seq<u8>> {
        str_hash_writes(self@)
    }

    fn feed(&self, state: &mut DefaultHasher) {
        feed_string(self, state);
    }
}

impl HashInput for u32 {
    open spec fn hash_writes(&self) -> Seq<Seq<u8>> {
        u32_hash_writes(*self)
    }

    fn feed(&self, state: &mut DefaultHasher) {
        feed_u32(self, state);
    }
}

/// A 64-bit digest tagged with the logical type `T` it was computed over and
/// the hasher `H` that produced it. The markers occupy no runtime storage;
/// the value is just the digest.
#[derive(Debug)]
pub struct HashOf<T, H: Hasher = DefaultHasher> {
    hash: u64,
    _marker: PhantomData<(T, H)>,
}

impl<T, H: Hasher> HashOf<T, H> {
    /// The stored digest, as a specification-level value.
    pub closed spec fn digest(self) -> u64 {
        self.hash
    }

    /// The tagged value holding the given digest. Specification-level only:
    /// the library offers no executable way to wrap a bare integer.
    pub closed spec fn with_digest(d: u64) -> HashOf<T, H> {
        HashOf { hash: d, _marker: PhantomData }
    }

    /// A tagged value holds exactly the digest it was built over.
    pub broadcast proof fn lemma_with_digest(d: u64)
        ensures
            (#[trigger] HashOf::<T, H>::with_digest(d)).digest() == d,
    {
    }

    /// Unwraps the digest, discarding the type markers. One-way: nothing in
    /// this crate rebuilds a `HashOf` from a bare integer, so the markers
    /// cannot be re-attached after this call.
    pub fn to_inner(self) -> (r: u64)
        ensures
            r == self.digest(),
    {
        self.hash
    }
}

// Equality, copying and hashing are implemented by hand so that they depend
// only on the stored digest, never on the marker parameters: a derive would
// demand `PartialEq`, `Clone` or `Hash` of `T` and `H` as well, and
// `DefaultHasher` implements none of them.
impl<T, H: Hasher> PartialEq for HashOf<T, H> {
    fn eq(&self, other: &Self) -> (r: bool)
        ensures
            r == (self.digest() == other.digest()),
    {
        self.hash == other.hash
    }
}

impl<T, H: Hasher> vstd::std_specs::cmp::PartialEqSpecImpl for HashOf<T, H> {
    open spec fn obeys_eq_spec() -> bool {
        true
    }

    open spec fn eq_spec(&self, other: &Self) -> bool {
        self.digest() == other.digest()
    }
}

impl<T, H: Hasher> Eq for HashOf<T, H> {}

impl<T, H: Hasher> Hash for HashOf<T, H> {
    /// Relies on `Hasher::write_u64`: the tagged value contributes exactly
    /// its 64-bit digest to any downstream hashing context.
    #[verifier::external_body]
    fn hash<H2: Hasher>(&self, state: &mut H2) {
        state.write_u64(self.hash)
    }
}

impl<T, H: Hasher> Clone for HashOf<T, H> {
    /// Duplicates the digest; the copy is indistinguishable from the
    /// original.
    fn clone(&self) -> (res: Self)
        ensures
            res == *self,
    {
        *self
    }
}

impl<T, H: Hasher> Copy for HashOf<T, H> {}

// Construction: hash a borrowed value. `T` is the borrowed form that is
// actually fed to the hasher (`str`, say), while the marker `Q` may be the
// owned form it stands for (`String`): any `Q` that borrows as `T` hashes
// the same characters, so the resulting digests agree.
impl<T: HashInput + ?Sized, Q: Borrow<T>> From<&T> for HashOf<Q, DefaultHasher> {
    fn from(value: &T) -> (r: Self) {
        let mut state = DefaultHasher::new();
        value.feed(&mut state);
        let hash = state.finish();
        HashOf { hash, _marker: PhantomData }
    }
}

impl<T: HashInput + ?Sized, Q: Borrow<T>> vstd::std_specs::convert::FromSpecImpl<&T> for HashOf<Q, DefaultHasher> {
    open spec fn obeys_from_spec() -> bool {
        true
    }

    open spec fn from_spec(value: &T) -> HashOf<Q, DefaultHasher> {
        HashOf::with_digest(DefaultHasher::spec_finish(value.hash_writes()))
    }
}

/// Equality of tagged hashes sharing one parameterization is a total
/// equivalence: reflexive, symmetric and transitive.
pub proof fn lemma_eq_is_equivalence<T, H: Hasher>(
    x: HashOf<T, H>,
    y: HashOf<T, H>,
    z: HashOf<T, H>,
)
    ensures
        x.eq_spec(&x),
        x.eq_spec(&y) == y.eq_spec(&x),
        x.eq_spec(&y) && y.eq_spec(&z) ==> x.eq_spec(&z),
{
}

/// Determinism: constructing a tagged hash over one value twice, or over two
/// values with the same canonical write sequence, yields values that compare
/// equal under `==`.
pub proof fn lemma_construct_deterministic<T: HashInput + ?Sized, Q>(
    x: HashOf<Q, DefaultHasher>,
    y: HashOf<Q, DefaultHasher>,
    v: &T,
)
    requires
        x.digest() == DefaultHasher::spec_finish(v.hash_writes()),
        y.digest() == DefaultHasher::spec_finish(v.hash_writes()),
    ensures
        x.eq_spec(&y),
{
}

/// Borrow-consistency: a borrowed text and an owned text with the same
/// characters yield tagged hashes that compare equal under `==`, whatever
/// logical type `Q` both are tagged with.
pub proof fn lemma_borrow_consistent<Q>(
    x: HashOf<Q, DefaultHasher>,
    y: HashOf<Q, DefaultHasher>,
    a: &str,
    b: &String,
)
    requires
        a@ == b@,
        x.digest() == DefaultHasher::spec_finish(a.hash_writes()),
        y.digest() == DefaultHasher::spec_finish(b.hash_writes()),
    ensures
        x.eq_spec(&y),
{
}

/// Copy independence: every copy of a tagged hash compares equal to the
/// original and unwraps to the same integer.
pub proof fn lemma_copies_unwrap_equal<T, H: Hasher>(
    x: HashOf<T, H>,
    y: HashOf<T, H>,
    z: HashOf<T, H>,
)
    requires
        y == x,
        z == x,
    ensures
        y.eq_spec(&z),
        y.digest() == z.digest(),
{
}

} // verus!
