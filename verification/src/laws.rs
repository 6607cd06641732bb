//! Laws that hold of the outcome operations, stated over the spec-level
//! models that the operations' own contracts use and proved once for all
//! inputs.

use vstd::prelude::*;

use crate::fine::Fine;
use crate::fine::spec_err;
use crate::fine::spec_from_inverse;
use crate::fine::spec_into_result;
use crate::fine::spec_not_fine;
use crate::fine::spec_ok;
use crate::fine::spec_transpose;

verus! {

/// Wrapping a value together with a present error yields an outcome whose
/// status carries exactly that error: it answers `is_err` with `true`, and
/// `err` returns that error.
pub proof fn lemma_from_inverse_present_error<T, E>(v: T, e: E)
    ensures
        spec_from_inverse(v, Some(e)).1 is Err,
        spec_err(spec_from_inverse(v, Some(e))) == Some(e),
{
}

/// Wrapping a value with no error yields an outcome whose status reports no
/// error: it answers `is_ok` with `true`, and `ok` returns the value.
pub proof fn lemma_from_inverse_no_error<T, E>(v: T)
    ensures
        spec_from_inverse::<T, E>(v, None).1 is Ok,
        spec_ok(spec_from_inverse::<T, E>(v, None)) == Some(v),
{
}

/// Round trip through `not_fine`: collapsing an outcome whose status reports
/// no error and wrapping the payload back with an absent error reconstructs
/// the outcome exactly. (An outcome whose status carries an error is out of
/// reach of this law: `not_fine` discards its value.)
pub proof fn lemma_not_fine_round_trip<T, E>(o: Fine<T, E>)
    requires
        o.1 is Ok,
    ensures
        spec_not_fine(o) is Ok,
        spec_from_inverse(spec_not_fine(o)->Ok_0, None::<E>) == o,
{
    assert(o.1->Ok_0 == ());
}

/// `map` never changes the status: any outcome `m` that `map` may return for
/// a source `o` and an operation `op` (that is, any `m` meeting `map`'s
/// postcondition) answers `is_ok` and `is_err` exactly as `o` does.
pub proof fn lemma_map_preserves_status<T, E, U, F: FnOnce(T) -> U>(
    o: Fine<T, E>,
    op: F,
    m: Fine<U, E>,
)
    requires
        m.1 == o.1,
        call_ensures(op, (o.0,), m.0),
    ensures
        m.1 is Ok <==> o.1 is Ok,
        m.1 is Err <==> o.1 is Err,
{
}

/// `map_err` never changes the value: any outcome `m` that `map_err` may
/// return for a source `o` and an operation `op` (that is, any `m` meeting
/// `map_err`'s postcondition) yields the same value from `fine` as `o` does.
pub proof fn lemma_map_err_preserves_value<T, E, F, O: FnOnce(E) -> F>(
    o: Fine<T, E>,
    op: O,
    m: Fine<T, F>,
)
    requires
        m.0 == o.0,
        o.1 is Ok ==> m.1 is Ok,
        o.1 is Err ==> m.1 is Err && call_ensures(op, (o.1->Err_0,), m.1->Err_0),
    ensures
        m.0 == o.0,
{
}

/// `transpose` is its own inverse: exchanging the two status layers of a
/// nested outcome twice reconstructs the nested outcome exactly.
pub proof fn lemma_transpose_involution<T, E0, E1>(n: Fine<Fine<T, E0>, E1>)
    ensures
        spec_transpose(spec_transpose(n)) == n,
{
}

/// `into_result` keeps the value on the failure path: on an outcome whose
/// status carries an error `e` around a value `v`, it fails with exactly the
/// pair `(v, e)`.
pub proof fn lemma_into_result_keeps_value_on_error<T, E>(v: T, e: E)
    ensures
        spec_into_result((v, Err(e))) == Err::<T, (T, E)>((v, e)),
{
}

} // verus!
