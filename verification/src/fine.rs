//! The partial-failure outcome pair and its operation set.

use core::fmt::Debug;
use vstd::prelude::*;

verus! {

/// The outcome of an operation that *sort of* can't fail: a value `T` that is
/// always produced, paired with a status that either reports no error or
/// carries a non-fatal error `E`.
pub type Fine<T, E> = (T, Result<(), E>);

/// The pair built by [`from_inverse`]: the status is `Ok(())` exactly when no
/// error was supplied.
pub open spec fn spec_from_inverse<T, E>(value: T, error: Option<E>) -> Fine<T, E> {
    match error {
        Option::None => (value, Ok(())),
        Option::Some(e) => (value, Err(e)),
    }
}

/// What [`FineExt::ok`] returns: the value, but only when the status reports
/// no error.
pub open spec fn spec_ok<T, E>(o: Fine<T, E>) -> Option<T> {
    match o.1 {
        Ok(_) => Some(o.0),
        Err(_) => None,
    }
}

/// What [`FineExt::err`] returns: the error, when the status carries one.
pub open spec fn spec_err<T, E>(o: Fine<T, E>) -> Option<E> {
    match o.1 {
        Ok(_) => None,
        Err(e) => Some(e),
    }
}

/// What [`FineExt::not_fine`] returns: the outcome collapsed into a strict
/// result, discarding the value when the status carries an error.
pub open spec fn spec_not_fine<T, E>(o: Fine<T, E>) -> Result<T, E> {
    match o.1 {
        Ok(_) => Ok(o.0),
        Err(e) => Err(e),
    }
}

/// What [`FineExt::into_result`] returns: a strict result that keeps the
/// value on both paths, pairing it with the error on the failure path.
pub open spec fn spec_into_result<T, E>(o: Fine<T, E>) -> Result<T, (T, E)> {
    match o.1 {
        Ok(_) => Ok(o.0),
        Err(e) => Err((o.0, e)),
    }
}

/// What [`FineTranspose::transpose`] returns: the two status layers of a
/// nested outcome, exchanged without being inspected.
pub open spec fn spec_transpose<T, E0, E1>(n: Fine<Fine<T, E0>, E1>) -> Fine<Fine<T, E1>, E0> {
    ((n.0.0, n.1), n.0.1)
}

/// Builds an outcome from a value and an optional error: the status reports
/// no error exactly when `error` is absent. Total; no failure mode.
pub fn from_inverse<T, E>(value: T, error: Option<E>) -> (r: Fine<T, E>)
    ensures
        r == spec_from_inverse(value, error),
{
    match error {
        Option::None => (value, Ok(())),
        Option::Some(e) => (value, Err(e)),
    }
}

/// The primary operation set over an outcome pair.
pub trait FineExt<T, E>: Sized {
    /// The value/status pair this outcome denotes.
    spec fn model(&self) -> Fine<T, E>;

    /// Returns `true` iff the status is `Ok(())`.
    #[must_use]
    fn is_ok(&self) -> (r: bool)
        ensures
            r == (self.model().1 is Ok),
    ;

    /// Returns `true` iff the status is `Err`.
    #[must_use]
    fn is_err(&self) -> (r: bool)
        ensures
            r == (self.model().1 is Err),
    ;

    /// Converts from `Fine<T, E>` to `Option<T>`.
    ///
    /// Only `Some` if the status is `Ok`; otherwise the value is dropped.
    fn ok(self) -> (r: Option<T>)
        ensures
            r == spec_ok(self.model()),
    ;

    /// Unwraps the value, ignoring any error.
    fn fine(self) -> (r: T)
        ensures
            r == self.model().0,
    ;

    /// Converts from `Fine<T, E>` to `Option<E>`, discarding the value.
    ///
    /// Marked `must_use` because it is unclear whether a caller who drops the
    /// result meant to discard the error; prefer `fine` to do that on purpose.
    #[must_use]
    fn err(self) -> (r: Option<E>)
        ensures
            r == spec_err(self.model()),
    ;

    /// Converts from `Fine<T, E>` to `Result<T, E>`: succeeds with the value
    /// when the status is `Ok`, fails with the error otherwise, in which case
    /// the value is discarded. This is the escalation point for `?`-style
    /// propagation.
    fn not_fine(self) -> (r: Result<T, E>)
        ensures
            r == spec_not_fine(self.model()),
    ;

    /// Converts from `Fine<T, E>` to `Result<T, (T, E)>`: the one conversion
    /// that keeps the value even on the failure path.
    fn into_result(self) -> (r: Result<T, (T, E)>)
        ensures
            r == spec_into_result(self.model()),
    ;

    /// Converts from `&Fine<T, E>` to `Fine<&T, &E>`: a new outcome of
    /// borrowed views into the original, which stays in place.
    fn as_ref(&self) -> (r: Fine<&T, &E>)
        ensures
            r.0 == self.model().0,
            r.1 is Ok <==> self.model().1 is Ok,
            self.model().1 is Err ==> r.1 is Err && r.1->Err_0 == self.model().1->Err_0,
    ;

    /// Converts from `&mut Fine<T, E>` to `Fine<&mut T, &mut E>`: a new
    /// outcome of exclusive borrows into the original, permitting in-place
    /// mutation of either field. Upon return the borrowed views hold the
    /// original fields; what a caller then writes through them lands in the
    /// original under Rust's aliasing discipline.
    fn as_mut(&mut self) -> (r: Fine<&mut T, &mut E>)
        ensures
            *r.0 == old(self).model().0,
            r.1 is Ok <==> old(self).model().1 is Ok,
            old(self).model().1 is Err ==> r.1 is Err && *r.1->Err_0 == old(self).model().1->Err_0,
    ;

    /// Maps a `Fine<T, E>` to `Fine<U, E>` by *unconditionally* applying a
    /// function to the contained value, leaving the status untouched.
    fn map<U, F: FnOnce(T) -> U>(self, op: F) -> (r: Fine<U, E>)
        requires
            call_requires(op, (self.model().0,)),
        ensures
            r.1 == self.model().1,
            call_ensures(op, (self.model().0,), r.0),
    ;

    /// Maps a `Fine<T, E>` to `Fine<T, F>` by applying a function to a
    /// carried error, leaving the value untouched.
    fn map_err<F, O: FnOnce(E) -> F>(self, op: O) -> (r: Fine<T, F>)
        requires
            self.model().1 is Err ==> call_requires(op, (self.model().1->Err_0,)),
        ensures
            r.0 == self.model().0,
            self.model().1 is Ok ==> r.1 is Ok,
            self.model().1 is Err ==> r.1 is Err && call_ensures(
                op,
                (self.model().1->Err_0,),
                r.1->Err_0,
            ),
    ;
}

impl<T, E> FineExt<T, E> for Fine<T, E> {
    open spec fn model(&self) -> Fine<T, E> {
        *self
    }

    fn is_ok(&self) -> bool {
        self.1.is_ok()
    }

    fn is_err(&self) -> bool {
        self.1.is_err()
    }

    fn ok(self) -> Option<T> {
        let (value, status) = self;
        match status {
            Ok(_) => Some(value),
            Err(_) => None,
        }
    }

    fn fine(self) -> T {
        let (value, _status) = self;
        value
    }

    fn err(self) -> Option<E> {
        let (_value, status) = self;
        match status {
            Ok(_) => None,
            Err(e) => Some(e),
        }
    }

    fn not_fine(self) -> Result<T, E> {
        let (value, status) = self;
        match status {
            Ok(_) => Ok(value),
            Err(e) => Err(e),
        }
    }

    fn into_result(self) -> Result<T, (T, E)> {
        let (value, status) = self;
        match status {
            Ok(_) => Ok(value),
            Err(e) => Err((value, e)),
        }
    }

    fn as_ref(&self) -> Fine<&T, &E> {
        let status: Result<(), &E> = match self.1.as_ref() {
            Ok(_) => Ok(()),
            Err(e) => Err(e),
        };
        (&self.0, status)
    }

    fn as_mut(&mut self) -> Fine<&mut T, &mut E> {
        let status: Result<(), &mut E> = match &mut self.1 {
            Ok(_) => Ok(()),
            Err(e) => Err(e),
        };
        (&mut self.0, status)
    }

    fn map<U, F: FnOnce(T) -> U>(self, op: F) -> Fine<U, E> {
        let (value, status) = self;
        (op(value), status)
    }

    fn map_err<F, O: FnOnce(E) -> F>(self, op: O) -> Fine<T, F> {
        let (value, status) = self;
        let status: Result<(), F> = match status {
            Ok(_) => Ok(()),
            Err(e) => Err(op(e)),
        };
        (value, status)
    }
}

/// Relies on core's `Result::expect_err`: when the result is `Err`, it
/// returns the carried error; when the result is `Ok`, it panics with a
/// message combining `msg` and the `Debug` form of the `Ok` payload. The
/// `requires` keeps verified callers off the panicking input.
#[verifier::external_body]
fn result_expect_err<T: Debug, E>(result: Result<T, E>, msg: &str) -> (e: E)
    requires
        result is Err,
    ensures
        e == result->Err_0,
{
    result.expect_err(msg)
}

/// The convenience operations that need the error to be `Debug`-formattable:
/// they unwrap the value and turn a carried error into a fatal abort whose
/// diagnostic includes the error's representation. Verified callers must show
/// the status reports no error, so the abort is out of their reach.
pub trait FineExtWhereEDebug<T, E: Debug>: FineExt<T, E> {
    /// Unwraps the value. Aborts fatally iff the status carries an error,
    /// with a diagnostic combining `msg` and that error's representation;
    /// the `requires` keeps that input away from verified callers.
    fn expect(self, msg: &str) -> (r: T)
        requires
            self.model().1 is Ok,
        ensures
            r == self.model().0,
    ;

    /// Unwraps the value. Aborts fatally iff the status carries an error,
    /// with a diagnostic derived from that error's representation; the
    /// `requires` keeps that input away from verified callers.
    fn unwrap(self) -> (r: T)
        requires
            self.model().1 is Ok,
        ensures
            r == self.model().0,
    ;
}

impl<T, E: Debug> FineExtWhereEDebug<T, E> for Fine<T, E> {
    fn expect(self, msg: &str) -> T {
        let (value, status) = self;
        status.expect(msg);
        value
    }

    fn unwrap(self) -> T {
        let (value, status) = self;
        status.unwrap();
        value
    }
}

/// The convenience operations that need the value to be `Debug`-formattable:
/// they unwrap the error and turn a missing error into a fatal abort whose
/// diagnostic includes the value's representation. Verified callers must show
/// the status carries an error, so the abort is out of their reach.
pub trait FineExtWhereTDebug<T: Debug, E>: FineExt<T, E> {
    /// Unwraps the error. Aborts fatally iff the status does *not* carry an
    /// error, with a diagnostic combining `msg` and the value's
    /// representation; the `requires` keeps that input away from verified
    /// callers.
    fn expect_err(self, msg: &str) -> (r: E)
        requires
            self.model().1 is Err,
        ensures
            r == self.model().1->Err_0,
    ;

    /// Unwraps the error. Aborts fatally iff the status does *not* carry an
    /// error, with a diagnostic derived from the value's representation; the
    /// `requires` keeps that input away from verified callers.
    fn unwrap_err(self) -> (r: E)
        requires
            self.model().1 is Err,
        ensures
            r == self.model().1->Err_0,
    ;
}

impl<T: Debug, E> FineExtWhereTDebug<T, E> for Fine<T, E> {
    fn expect_err(self, msg: &str) -> E {
        result_expect_err(self.not_fine(), msg)
    }

    fn unwrap_err(self) -> E {
        self.not_fine().unwrap_err()
    }
}

/// The dereference projection, available when the value supports shared
/// dereferencing: `as_ref` followed by dereferencing the borrowed value.
pub trait FineDeref<T: core::ops::Deref, E>: Sized {
    /// The value/status pair this outcome denotes.
    spec fn deref_model(&self) -> Fine<T, E>;

    /// Converts from `&Fine<T, E>` to `Fine<&T::Target, &E>`. The borrowed
    /// target comes from the value's own dereference capability, of which
    /// nothing more can be stated here; the status is mirrored exactly.
    fn as_deref(&self) -> (r: Fine<&T::Target, &E>)
        ensures
            r.1 is Ok <==> self.deref_model().1 is Ok,
            self.deref_model().1 is Err ==> r.1 is Err && r.1->Err_0 == self.deref_model().1->Err_0,
    ;
}

impl<T: core::ops::Deref, E> FineDeref<T, E> for Fine<T, E> {
    open spec fn deref_model(&self) -> Fine<T, E> {
        *self
    }

    fn as_deref(&self) -> Fine<&T::Target, &E> {
        let (value, status) = FineExt::as_ref(self);
        (value.deref(), status)
    }
}

/// The exclusive dereference projection, available when the value supports
/// exclusive dereferencing: `as_mut` followed by mutably dereferencing the
/// borrowed value.
pub trait FineDerefMut<T: core::ops::DerefMut, E>: Sized {
    /// The value/status pair this outcome denotes.
    spec fn deref_mut_model(&self) -> Fine<T, E>;

    /// Converts from `&mut Fine<T, E>` to `Fine<&mut T::Target, &mut E>`. The
    /// borrowed target comes from the value's own dereference capability, of
    /// which nothing more can be stated here; the status is mirrored exactly,
    /// and the error view holds the original error upon return.
    fn as_deref_mut(&mut self) -> (r: Fine<&mut T::Target, &mut E>)
        ensures
            r.1 is Ok <==> old(self).deref_mut_model().1 is Ok,
            old(self).deref_mut_model().1 is Err ==> r.1 is Err && *r.1->Err_0 == old(self).deref_mut_model().1->Err_0,
    ;
}

impl<T: core::ops::DerefMut, E> FineDerefMut<T, E> for Fine<T, E> {
    open spec fn deref_mut_model(&self) -> Fine<T, E> {
        *self
    }

    fn as_deref_mut(&mut self) -> Fine<&mut T::Target, &mut E> {
        let (value, status) = FineExt::as_mut(self);
        (value.deref_mut(), status)
    }
}

/// The transpose operation over a nested outcome.
pub trait FineTranspose<T, E0, E1>: Sized {
    /// The nested value/status pair this outcome denotes.
    spec fn nested_model(&self) -> Fine<Fine<T, E0>, E1>;

    /// Exchanges the two status layers of a nested outcome without
    /// inspecting either. Pure structural rearrangement; total.
    fn transpose(self) -> (r: Fine<Fine<T, E1>, E0>)
        ensures
            r == spec_transpose(self.nested_model()),
    ;
}

impl<T, E0, E1> FineTranspose<T, E0, E1> for Fine<Fine<T, E0>, E1> {
    open spec fn nested_model(&self) -> Fine<Fine<T, E0>, E1> {
        *self
    }

    fn transpose(self) -> Fine<Fine<T, E1>, E0> {
        let ((value, status0), status1) = self;
        ((value, status1), status0)
    }
}

} // verus!
