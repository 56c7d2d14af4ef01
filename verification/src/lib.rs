//! A container that owns a contiguous block of bytes together with a value
//! derived from those bytes, so that the pair travels as one unit with one
//! owner and one destruction point.
//!
//! The derived value is produced by a caller-supplied constructing function
//! applied to the owned bytes. While the container is alive the bytes are
//! never mutated, resized or handed elsewhere, so anything the derived value
//! records about them stays valid. Decomposition hands the storage back to
//! the caller exactly as it was supplied.

use vstd::prelude::*;

verus! {

/// Owns a block of bytes and a value `T` derived from them.
///
/// The byte storage is consumed at construction and kept unchanged until the
/// container is either decomposed (the storage is returned to the caller) or
/// dropped (the storage is released with the container, exactly once).
pub struct OwningByteBuf<T> {
    buf: Vec<u8>,
    inner: T,
}

/// What a fallible construction from the bytes of `buf` may return: on
/// success a container whose storage is `buf` itself and whose derived value
/// is one the constructing function produced from those bytes; on failure the
/// error the function produced, paired with `buf` unchanged.
pub open spec fn fallible_outcome<T, E, F: FnOnce(&[u8]) -> Result<T, E>>(
    f: F,
    buf: Vec<u8>,
    r: Result<OwningByteBuf<T>, (E, Vec<u8>)>,
) -> bool {
    match r {
        Ok(c) => c.storage() == buf && (exists|s: &[u8]|
            s@ == buf@ && call_ensures(f, (s,), Ok::<T, E>(c.value()))),
        Err((e, v)) => v == buf && (exists|s: &[u8]|
            s@ == buf@ && call_ensures(f, (s,), Err::<T, E>(e))),
    }
}

impl<T> OwningByteBuf<T> {
    /// The byte storage the container owns, as the vector value that was
    /// consumed at construction and that decomposition returns.
    pub closed spec fn storage(self) -> Vec<u8> {
        self.buf
    }

    /// The bytes the container owns.
    pub open spec fn bytes(self) -> Seq<u8> {
        self.storage()@
    }

    /// The derived value stored alongside the bytes.
    pub closed spec fn value(self) -> T {
        self.inner
    }

    /// Creates an `OwningByteBuf` from a vector and a constructing function.
    ///
    /// The vector is consumed: its bytes become the container's storage, and
    /// the derived value is whatever `f` returned when applied to exactly
    /// those bytes.
    pub fn from_vec<F: FnOnce(&[u8]) -> T>(buf: Vec<u8>, f: F) -> (r: OwningByteBuf<T>)
        requires
            forall|s: &[u8]| s@ == buf@ ==> call_requires(f, (s,)),
        ensures
            r.storage() == buf,
            exists|s: &[u8]| s@ == buf@ && call_ensures(f, (s,), r.value()),
    {
        let inner = f(buf.as_slice());
        OwningByteBuf { buf, inner }
    }

    /// Creates an `OwningByteBuf` from a vector and a constructing function
    /// that may fail.
    ///
    /// On success the vector's bytes become the container's storage. On
    /// failure no container is made: the very vector that was supplied comes
    /// back unchanged, paired with the failure value.
    pub fn from_vec_res<E, F: FnOnce(&[u8]) -> Result<T, E>>(buf: Vec<u8>, f: F) -> (r: Result<
        OwningByteBuf<T>,
        (E, Vec<u8>),
    >)
        requires
            forall|s: &[u8]| s@ == buf@ ==> call_requires(f, (s,)),
        ensures
            fallible_outcome(f, buf, r),
    {
        match f(buf.as_slice()) {
            Ok(inner) => Ok(OwningByteBuf { buf, inner }),
            Err(e) => Err((e, buf)),
        }
    }

    /// Creates an `OwningByteBuf` from a boxed byte slice and a constructing
    /// function.
    ///
    /// The box is consumed: its bytes become the container's storage, and the
    /// derived value is whatever `f` returned when applied to exactly those
    /// bytes.
    pub fn from_box<F: FnOnce(&[u8]) -> T>(buf: Box<[u8]>, f: F) -> (r: OwningByteBuf<T>)
        requires
            forall|s: &[u8]| s@ == buf@ ==> call_requires(f, (s,)),
        ensures
            r.bytes() == buf@,
            exists|s: &[u8]| s@ == buf@ && call_ensures(f, (s,), r.value()),
    {
        let vec = buf.into_vec();
        let inner = f(vec.as_slice());
        OwningByteBuf { buf: vec, inner }
    }

    /// Creates an `OwningByteBuf` from a boxed byte slice and a constructing
    /// function that may fail.
    ///
    /// On success the box's bytes become the container's storage. On failure
    /// no container is made: the very box that was supplied comes back
    /// unchanged, paired with the failure value.
    pub fn from_box_res<E, F: FnOnce(&[u8]) -> Result<T, E>>(buf: Box<[u8]>, f: F) -> (r: Result<
        OwningByteBuf<T>,
        (E, Box<[u8]>),
    >)
        requires
            forall|s: &[u8]| s@ == buf@ ==> call_requires(f, (s,)),
        ensures
            match r {
                Ok(c) => c.bytes() == buf@ && (exists|s: &[u8]|
                    s@ == buf@ && call_ensures(f, (s,), Ok::<T, E>(c.value()))),
                Err((e, b)) => b == buf && (exists|s: &[u8]|
                    s@ == buf@ && call_ensures(f, (s,), Err::<T, E>(e))),
            },
    {
        let sl: &[u8] = &*buf;
        proof {
            // Pin down the view of the borrowed slice, so that the witness
            // for the postcondition's existential is available in both arms.
            assert(sl@ == buf@);
        }
        match f(sl) {
            Ok(inner) => Ok(OwningByteBuf { buf: buf.into_vec(), inner }),
            Err(e) => Err((e, buf)),
        }
    }

    /// Returns a reference to the derived value.
    pub fn get(&self) -> (r: &T)
        ensures
            *r == self.value(),
    {
        &self.inner
    }

    /// Drops the derived value and returns the underlying storage back as a
    /// `Vec`, exactly as it was consumed at construction.
    ///
    /// This consumes the container, so nothing can reach the derived value
    /// afterwards and the storage has exactly one owner again: the caller.
    pub fn into_vec(self) -> (r: Vec<u8>)
        ensures
            r == self.storage(),
            r@ == self.bytes(),
    {
        self.buf
    }
}

/// Round trip: a container built from storage `b` (so its storage is `b`, as
/// `from_vec` ensures) decomposes (per `into_vec`) to `b` itself — the same
/// vector value, hence the same length and the same contents.
pub proof fn lemma_round_trip<T>(b: Vec<u8>, c: OwningByteBuf<T>, out: Vec<u8>)
    requires
        c.storage() == b,
        out == c.storage(),
    ensures
        out == b,
        out@ == b@,
{
}

/// View correctness: if the constructing function computes `g` of the bytes
/// it is given — every value it may return for a slice `s` is `g(s@)` — then
/// the derived value of a container built from `b` (as `from_vec` ensures,
/// and as `get` hands it out) is exactly `g(b@)`.
pub proof fn lemma_view_correctness<T, F: FnOnce(&[u8]) -> T>(
    f: F,
    g: spec_fn(Seq<u8>) -> T,
    b: Vec<u8>,
    c: OwningByteBuf<T>,
)
    requires
        forall|s: &[u8], t: T| call_ensures(f, (s,), t) ==> t == g(s@),
        c.storage() == b,
        exists|s: &[u8]| s@ == b@ && call_ensures(f, (s,), c.value()),
    ensures
        c.value() == g(b@),
{
    let s = choose|s: &[u8]| s@ == b@ && call_ensures(f, (s,), c.value());
    assert(c.value() == g(s@));
}

/// Failure returns storage unchanged: if the constructing function can only
/// fail, and can only fail with `e`, then a fallible construction from `buf`
/// (whose outcome is what `from_vec_res` ensures) returned no container but
/// `e` paired with `buf` itself — the same vector value, hence the same
/// length and the same contents.
pub proof fn lemma_failure_returns_storage<T, E, F: FnOnce(&[u8]) -> Result<T, E>>(
    f: F,
    e: E,
    buf: Vec<u8>,
    r: Result<OwningByteBuf<T>, (E, Vec<u8>)>,
)
    requires
        forall|s: &[u8], out: Result<T, E>| call_ensures(f, (s,), out) ==> out == Err::<T, E>(e),
        fallible_outcome(f, buf, r),
    ensures
        r matches Err((err, v)) && err == e && v == buf && v@ == buf@,
{
    match r {
        Ok(c) => {
            let s = choose|s: &[u8]|
                s@ == buf@ && call_ensures(f, (s,), Ok::<T, E>(c.value()));
            assert(Ok::<T, E>(c.value()) == Err::<T, E>(e));
        },
        Err((err, v)) => {
            let s = choose|s: &[u8]| s@ == buf@ && call_ensures(f, (s,), Err::<T, E>(err));
            assert(Err::<T, E>(err) == Err::<T, E>(e));
        },
    }
}

} // verus!
