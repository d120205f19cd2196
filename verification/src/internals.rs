//! Length resolution and the concatenation engine.

use vstd::prelude::*;

verus! {

/// A counter whose const parameter is resolved by type-level unification.
///
/// A value of `Usize<N>` is asked to "fit" a reference to an array of length
/// `N`; unifying that reference with an actual argument pins `N` down to the
/// argument's own length, after which [`Usize::get`] reads the number off.
#[derive(Copy, Clone)]
pub struct Usize<const N: usize>;

impl<const N: usize> Usize<N> {
    /// The length probe: accepting `probe` unifies `N` with the length of the
    /// probed array, so `N` is exactly that array's element count.
    pub fn infer_mda<T>(self, probe: &core::mem::ManuallyDrop<[T; N]>)
        ensures
            probe@@.len() == N,
    {
    }

    /// The resolved numeric value of the counter.
    pub fn get(self) -> (n: usize)
        ensures
            n == N,
    {
        N
    }
}

/// A witness that the single type parameter of `S` is `T`.
///
/// Carrying a value of this type alongside an aggregate pins the aggregate's
/// element type down during unification; the value itself holds nothing.
pub struct TypeParam<S, T> {
    types: core::marker::PhantomData<(S, T)>,
}

impl<S, T> Copy for TypeParam<S, T> {

}

impl<S, T> Clone for TypeParam<S, T> {
    fn clone(&self) -> (r: Self)
        ensures
            r == *self,
    {
        *self
    }
}

impl<S, T> TypeParam<S, T> {
    /// The type-equality probe: accepting a `PhantomData<T>` unifies the
    /// witness's second parameter with the annotated element type.
    pub fn assert_type_param(self, _probe: core::marker::PhantomData<T>) {
    }

    /// Builds a witness for an arbitrary pairing of `S` and `T`.
    ///
    /// Nothing here checks that `T` really is the type parameter of `S`; a
    /// witness built this way is meaningful only where the caller pairs an
    /// aggregate with its own element type, as [`GetTypeParam`] does.
    pub fn new_unchecked() -> Self {
        TypeParam { types: core::marker::PhantomData }
    }
}

/// A capability of types with exactly one type parameter: exposing that
/// parameter as an associated type. Every fixed-size array satisfies it, with
/// the element type as the parameter.
pub trait GetTypeParam: Sized {
    /// The type parameter of `Self`.
    type T;

    /// A witness pairing `Self` with its own type parameter.
    fn type_param() -> TypeParam<Self, Self::T>;
}

impl<T, const L: usize> GetTypeParam for [T; L] {
    type T = T;

    fn type_param() -> TypeParam<[T; L], T> {
        TypeParam::new_unchecked()
    }
}

/// A capability of types that expose their own array length as a compile-time
/// constant derived purely from the type, independent of any value.
pub trait ArrayLength {
    /// The array length of `Self`.
    const LENGTH: usize;
}

impl<T, const L: usize> ArrayLength for [T; L] {
    const LENGTH: usize = L;
}

/// Annotates an expression with an explicit type without changing its value.
pub struct Identity<T> {
    /// The annotated value.
    pub inner: T,
}

/// Annotates an array with an explicit element type while leaving the length
/// to inference.
pub struct ArrayAndGhost<T, const LEN: usize> {
    /// The annotated array.
    pub inner: [T; LEN],
    /// The element type, named without holding a value of it.
    pub elem_ty: core::marker::PhantomData<T>,
}

/// The sequence laid out by abutting the given sequences in order: the first
/// one's elements, then the second one's, and so on, with no interleaving.
pub open spec fn concat_seqs<T>(parts: Seq<Seq<T>>) -> Seq<T>
    decreases parts.len(),
{
    if parts.len() == 0 {
        Seq::empty()
    } else {
        parts.first() + concat_seqs(parts.drop_first())
    }
}

/// The sum of the lengths of the given sequences.
pub open spec fn sum_lengths<T>(parts: Seq<Seq<T>>) -> nat
    decreases parts.len(),
{
    if parts.len() == 0 {
        0
    } else {
        parts.first().len() + sum_lengths(parts.drop_first())
    }
}

/// The element sequences of a list of vectors, in the same order.
pub open spec fn part_views<T>(parts: Seq<Vec<T>>) -> Seq<Seq<T>> {
    parts.map_values(|p: Vec<T>| p@)
}

/// The length of a concatenation equals the sum of the per-argument lengths.
pub proof fn lemma_concat_seqs_len<T>(parts: Seq<Seq<T>>)
    ensures
        concat_seqs(parts).len() == sum_lengths(parts),
    decreases parts.len(),
{
    if parts.len() > 0 {
        lemma_concat_seqs_len(parts.drop_first());
    }
}

/// Each argument stands contiguously in the concatenation, in argument order,
/// with no interleaving: its element `j` lands at the offset given by the
/// summed lengths of the arguments before it.
pub proof fn lemma_concat_seqs_index<T>(parts: Seq<Seq<T>>, i: int, j: int)
    requires
        0 <= i < parts.len(),
        0 <= j < parts[i].len(),
    ensures
        sum_lengths(parts.take(i)) + j < concat_seqs(parts).len(),
        concat_seqs(parts)[sum_lengths(parts.take(i)) + j] == parts[i][j],
    decreases i,
{
    if i == 0 {
        assert(parts.take(0) =~= Seq::<Seq<T>>::empty());
    } else {
        lemma_concat_seqs_index(parts.drop_first(), i - 1, j);
        assert(parts.drop_first().take(i - 1) =~= parts.take(i).drop_first());
        assert(parts.take(i).first() == parts.first());
    }
}

/// Concatenating no sequences yields the empty sequence.
pub proof fn lemma_concat_seqs_nil<T>()
    ensures
        concat_seqs(Seq::<Seq<T>>::empty()) == Seq::<T>::empty(),
{
}

/// Concatenating a single sequence yields that sequence unchanged.
pub proof fn lemma_concat_seqs_singleton<T>(parts: Seq<Seq<T>>)
    requires
        parts.len() == 1,
    ensures
        concat_seqs(parts) == parts[0],
{
    assert(concat_seqs(parts.drop_first()) == Seq::<T>::empty());
    assert(concat_seqs(parts) =~= parts[0]);
}

/// Concatenates the given arrays into one, in argument order.
///
/// Every source element is moved into the output exactly once, so the element
/// type need not be duplicable. The output holds the concatenation, in
/// argument order, of the arguments' element sequences; its length is the sum
/// of their lengths. Zero arguments yield the empty array, and a single
/// argument comes back unchanged.
pub fn concat_arrays<T>(parts: Vec<Vec<T>>) -> (out: Vec<T>)
    ensures
        out@ == concat_seqs(part_views(parts@)),
        out@.len() == sum_lengths(part_views(parts@)),
        parts@.len() == 0 ==> out@ == Seq::<T>::empty(),
        parts@.len() == 1 ==> out@ == parts@[0]@,
{
    let ghost all = part_views(parts@);
    let mut rest = parts;
    let mut out: Vec<T> = Vec::new();
    proof {
        assert(out@ + concat_seqs(all) =~= concat_seqs(all));
    }
    while rest.len() > 0
        invariant
            out@ + concat_seqs(part_views(rest@)) == concat_seqs(all),
        decreases rest@.len(),
    {
        let ghost prior_out = out@;
        let ghost prior = rest@;
        let mut part = rest.remove(0);
        proof {
            assert(rest@ =~= prior.drop_first());
            assert(part_views(prior).first() == part@);
            assert(part_views(prior).drop_first() =~= part_views(prior.drop_first()));
            assert((prior_out + part@) + concat_seqs(part_views(rest@)) =~= prior_out
                + concat_seqs(part_views(prior)));
        }
        out.append(&mut part);
    }
    proof {
        assert(part_views(rest@) =~= Seq::<Seq<T>>::empty());
        assert(out@ + concat_seqs(part_views(rest@)) =~= out@);
        lemma_concat_seqs_len(all);
        if parts@.len() == 1 {
            lemma_concat_seqs_singleton(all);
        }
    }
    out
}

} // verus!
