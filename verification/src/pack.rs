//! A pack is an array of registers.
//!
//! In `RegisterPack<V, M>`, `V` is the register type and `M` is the number of
//! registers. The pack owns its registers; indexing reaches one register,
//! `map` applies a function to each register and `zip_map` applies a function
//! to each pair of corresponding registers of two packs. Both visit the
//! registers in array order, and the function supplies any arithmetic.
//!
//! The model of a pack is the sequence of its registers (`pack@`), whose
//! length is always `M`.

use vstd::prelude::*;

verus! {

/// An array of `M` registers of type `V`.
///
/// The pack adds no lane, arithmetic, or architecture policy to its elements.
/// Empty packs are supported. Mapping consumes elements in index order and
/// does not require `Copy`, `Clone`, or `Default`.
#[derive(Clone, Copy, Debug, PartialEq, Eq)]
pub struct RegisterPack<V, const M: usize>(pub [V; M]);

impl<V, const M: usize> View for RegisterPack<V, M> {
    type V = Seq<V>;

    open spec fn view(&self) -> Seq<V> {
        self.0@
    }
}

/// Moves the elements of an array, in order, into a `Vec`.
///
/// Trusted: `<Vec<T> as From<[T; N]>>::from`, which std documents as
/// allocating a `Vec` and moving the array's items into it; the contract
/// claims that the vector holds the array's elements in the same order.
#[verifier::external_body]
fn array_into_vec<T, const N: usize>(array: [T; N]) -> (v: Vec<T>)
    ensures
        v@ == array@,
{
    Vec::from(array)
}

/// Moves the elements of a `Vec` into an array of length `N`.
///
/// Trusted: `<[T; N] as TryFrom<Vec<T>>>::try_from`, which std documents as
/// returning the vector's contents as an array when its length is exactly
/// `N`, and the vector itself, unchanged, otherwise; the contract claims
/// exactly that.
#[verifier::external_body]
fn vec_try_into_array<T, const N: usize>(v: Vec<T>) -> (r: Result<[T; N], Vec<T>>)
    ensures
        r is Ok <==> v@.len() == N,
        r matches Ok(a) ==> a@ == v@,
        r matches Err(w) ==> w@ == v@,
{
    <[T; N]>::try_from(v)
}

impl<V, const M: usize> RegisterPack<V, M> {
    /// The precondition of `map`: `f` may be called on every register.
    pub open spec fn map_requires<U, F: FnMut(V) -> U>(self, f: F) -> bool {
        forall|i: int| 0 <= i < M ==> call_requires(f, (#[trigger] self@[i],))
    }

    /// The precondition of `zip_map`: `f` may be called on every pair of
    /// corresponding registers of `self` and `other`.
    pub open spec fn zip_map_requires<W, U, F: FnMut(V, W) -> U>(
        self,
        other: RegisterPack<W, M>,
        f: F,
    ) -> bool {
        forall|i: int| 0 <= i < M ==> call_requires(f, (#[trigger] self@[i], other@[i]))
    }

    /// Own an array of values.
    pub fn new(values: [V; M]) -> (pack: Self)
        ensures
            pack@ == values@,
            pack.0 == values,
    {
        RegisterPack(values)
    }

    /// Borrow the underlying array.
    pub fn as_array(&self) -> (values: &[V; M])
        ensures
            *values == self.0,
            values@ == self@,
    {
        &self.0
    }

    /// Mutably borrow the underlying array.
    pub fn as_mut_array(&mut self) -> (values: &mut [V; M])
        ensures
            *values == old(self).0,
            final(self).0 == *final(values),
    {
        &mut self.0
    }

    /// Recover the owned array.
    pub fn into_array(self) -> (values: [V; M])
        ensures
            values == self.0,
            values@ == self@,
    {
        self.0
    }

    /// Transform each element in index order.
    ///
    /// `f` is called once per register, on register `0` first and register
    /// `M - 1` last. The contract states the result register by register;
    /// the order of the calls is not in it, since a call of an `FnMut`
    /// closure is modelled as leaving the closure unchanged, so no clause can
    /// tell one order of calls from another.
    pub fn map<U, F: FnMut(V) -> U>(self, f: F) -> (out: RegisterPack<U, M>)
        requires
            self.map_requires(f),
        ensures
            out@.len() == M,
            forall|i: int| 0 <= i < M ==> call_ensures(f, (self@[i],), #[trigger] out@[i]),
    {
        let mut f = f;
        let ghost input = self@;
        let ghost f0 = f;
        let mut rest = array_into_vec(self.0);
        let mut mapped: Vec<U> = Vec::new();
        let mut i: usize = 0;
        while i < M
            invariant
                i <= M,
                input.len() == M,
                f == f0,
                forall|j: int| 0 <= j < M ==> call_requires(f, (#[trigger] input[j],)),
                rest@ == input.skip(i as int),
                mapped@.len() == i,
                forall|j: int| 0 <= j < i ==> call_ensures(f, (input[j],), #[trigger] mapped@[j]),
            decreases M - i,
        {
            let value = rest.remove(0);
            let result = f(value);
            mapped.push(result);
            i = i + 1;
        }
        match vec_try_into_array(mapped) {
            Ok(values) => RegisterPack(values),
            Err(_) => vstd::pervasive::unreached(),
        }
    }

    /// Transform pairs of elements from equally sized packs in index order.
    ///
    /// `f` is called once per pair, on the pair at index `0` first and the
    /// pair at `M - 1` last; as for `map`, the contract states the result
    /// pair by pair and leaves the order of the calls out.
    pub fn zip_map<W, U, F: FnMut(V, W) -> U>(
        self,
        other: RegisterPack<W, M>,
        f: F,
    ) -> (out: RegisterPack<U, M>)
        requires
            self.zip_map_requires(other, f),
        ensures
            out@.len() == M,
            forall|i: int|
                0 <= i < M ==> call_ensures(f, (self@[i], other@[i]), #[trigger] out@[i]),
    {
        let mut f = f;
        let ghost left_input = self@;
        let ghost right_input = other@;
        let ghost f0 = f;
        let mut left = array_into_vec(self.0);
        let mut right = array_into_vec(other.0);
        let mut mapped: Vec<U> = Vec::new();
        let mut i: usize = 0;
        while i < M
            invariant
                i <= M,
                left_input.len() == M,
                right_input.len() == M,
                f == f0,
                forall|j: int|
                    0 <= j < M ==> call_requires(f, (#[trigger] left_input[j], right_input[j])),
                left@ == left_input.skip(i as int),
                right@ == right_input.skip(i as int),
                mapped@.len() == i,
                forall|j: int|
                    0 <= j < i ==> call_ensures(
                        f,
                        (left_input[j], right_input[j]),
                        #[trigger] mapped@[j],
                    ),
            decreases M - i,
        {
            let lhs = left.remove(0);
            let rhs = right.remove(0);
            let result = f(lhs, rhs);
            mapped.push(result);
            i = i + 1;
        }
        match vec_try_into_array(mapped) {
            Ok(values) => RegisterPack(values),
            Err(_) => vstd::pervasive::unreached(),
        }
    }
}

impl<V, const M: usize> core::ops::Index<usize> for RegisterPack<V, M> {
    type Output = V;

    /// Index a value; the index must lie inside the pack.
    fn index(&self, index: usize) -> (value: &V)
        ensures
            *value == self@[index as int],
    {
        &self.0[index]
    }
}

impl<V, const M: usize> vstd::std_specs::core::IndexSpecImpl<usize> for RegisterPack<V, M> {
    open spec fn index_req(&self, index: &usize) -> bool {
        *index < M
    }
}

impl<V, const M: usize> core::ops::IndexMut<usize> for RegisterPack<V, M> {
    /// Mutably index a value; the index must lie inside the pack.
    fn index_mut(&mut self, index: usize) -> (value: &mut V)
        requires
            index < M,
        ensures
            *value == old(self)@[index as int],
            final(self)@ == old(self)@.update(index as int, *final(value)),
    {
        &mut self.0[index]
    }
}

} // verus!

verus! {

/// A pack holds exactly `M` registers.
pub proof fn lemma_pack_len<V, const M: usize>(pack: RegisterPack<V, M>)
    ensures
        pack@.len() == M,
{
}

/// An operation on an empty pack invokes no callback: `map` and `zip_map`
/// ask nothing of their function when the pack holds no register, so they
/// accept a function that can never be called.
pub proof fn lemma_empty_pack_calls_nothing<V, W, U, F: FnMut(V) -> U, G: FnMut(V, W) -> U>(
    pack: RegisterPack<V, 0>,
    other: RegisterPack<W, 0>,
    f: F,
    g: G,
)
    ensures
        pack.map_requires(f),
        pack.zip_map_requires(other, g),
{
}

} // verus!
