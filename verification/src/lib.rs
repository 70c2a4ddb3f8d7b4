//! A wrapper that hands its contained value, by full ownership, to a
//! consuming teardown operation exactly once at the end of the wrapper's
//! life.
//!
//! Cleanup is often most naturally written as an operation that consumes a
//! value by value — push this owned value into another container, hand this
//! resource to a new owner. An ordinary destructor only lends a mutable
//! reference to the value being destroyed, which is not enough for such an
//! operation. [`DropOwned`] reconciles the two models: it stores one value of
//! a type implementing [`OwnedDroppable`], gives transparent access to it
//! while the wrapper lives, and on teardown extracts the value out of its
//! storage slot — exactly once — and passes it, owned, to
//! [`OwnedDroppable::drop_owned`].
//!
//! Teardown is explicit here: the holder calls [`DropOwned::finalize`] on
//! every exit path (it is safe to call again on an already torn-down
//! wrapper), or reclaims the value with [`DropOwned::into_inner`], which
//! forfeits finalization.

use vstd::prelude::*;

verus! {

/// Capability required of a value for ownership-consuming teardown.
///
/// A type opts in by providing `drop_owned`, which consumes the value by
/// value and performs whatever cleanup the type calls for. The wrapper
/// places no other requirement on it.
pub trait OwnedDroppable: Sized {
    /// Called with the wrapped instance, by full ownership, when the
    /// [`DropOwned`] holding it is torn down.
    fn drop_owned(self);
}

/// A wrapper owning one value of an [`OwnedDroppable`] type.
///
/// Its storage slot is occupied (`Some`) from construction until the one
/// teardown step vacates it, and vacated (`None`) afterwards. The slot never
/// returns from vacated to occupied, and the vacating step runs at most
/// once: it either hands the value to [`OwnedDroppable::drop_owned`]
/// (through [`DropOwned::finalize`]) or returns it to the caller (through
/// [`DropOwned::into_inner`]), never both.
pub struct DropOwned<T: OwnedDroppable> {
    slot: Option<T>,
}

impl<T: OwnedDroppable> View for DropOwned<T> {
    type V = Option<T>;

    /// The abstract state of the wrapper: `Some(v)` while the slot is
    /// occupied by `v`, `None` once it has been vacated.
    closed spec fn view(&self) -> Option<T> {
        self.slot
    }
}

impl<T: OwnedDroppable> DropOwned<T> {
    /// The slot still holds its value.
    pub open spec fn is_occupied(&self) -> bool {
        self@ is Some
    }

    /// The contained value, while the slot is occupied.
    pub open spec fn value(&self) -> T
        recommends
            self.is_occupied(),
    {
        self@->0
    }

    /// One teardown attempt, as a relation between the wrapper before
    /// (`pre`) and after (`post`) the attempt, and whether the finalizer ran.
    ///
    /// Every attempt leaves the slot vacated, and the finalizer runs exactly
    /// when the slot was still occupied — in which case it receives
    /// `pre.value()`, by full ownership: the last clause holds the
    /// postcondition predicate of [`OwnedDroppable::drop_owned`] of exactly
    /// that value, and for a method with no stated postcondition that
    /// predicate can only be established by actually invoking it. A teardown
    /// that vacated the slot but skipped the call could not satisfy this
    /// relation.
    pub open spec fn teardown_step(pre: Self, post: Self, ran: bool) -> bool {
        &&& !post.is_occupied()
        &&& ran == pre.is_occupied()
        &&& ran ==> call_ensures(T::drop_owned, (pre.value(),), ())
    }

    /// The wrapper that construction on `val` yields, as a spec-level
    /// value; its slot is occupied by `val` (see [`Self::lemma_spec_new`]).
    pub closed spec fn spec_new(val: T) -> Self {
        (DropOwned { slot: Some(val) })
    }

    /// Construction yields an occupied wrapper holding exactly the passed
    /// value.
    pub proof fn lemma_spec_new(val: T)
        ensures
            Self::spec_new(val)@ == Some(val),
    {
    }

    /// Creates a new `DropOwned` containing the passed `val`.
    pub fn new(val: T) -> (r: Self)
        ensures
            r@ == Some(val),
            r == Self::spec_new(val),
    {
        DropOwned { slot: Some(val) }
    }

    /// Read access to the contained value.
    pub fn get(&self) -> (r: &T)
        requires
            self.is_occupied(),
        ensures
            *r == self.value(),
    {
        match &self.slot {
            Some(val) => val,
            None => unreached(),
        }
    }

    /// Read-write access to the contained value. Writes through the returned
    /// reference land in the slot, so they are seen by every later access
    /// and by whichever of finalization or raw extraction ends the
    /// wrapper's life.
    pub fn get_mut(&mut self) -> (r: &mut T)
        requires
            old(self).is_occupied(),
        ensures
            *r == old(self).value(),
            final(self)@ == Some(*final(r)),
    {
        match &mut self.slot {
            Some(val) => val,
            None => unreached(),
        }
    }

    /// Consumes the `DropOwned` and produces its inner value, skipping its
    /// [`OwnedDroppable`] implementation.
    ///
    /// This is the explicit bypass: the wrapper is gone after the call, so
    /// no teardown step can ever follow on this instance and `drop_owned`
    /// is never invoked on the extracted value.
    pub fn into_inner(slot: Self) -> (r: T)
        requires
            slot.is_occupied(),
        ensures
            r == slot.value(),
    {
        match slot.slot {
            Some(val) => val,
            None => unreached(),
        }
    }

    /// Tears the wrapper down in place, ending its observable life: vacates
    /// the slot and hands the extracted value, by full ownership, to
    /// [`OwnedDroppable::drop_owned`].
    ///
    /// The vacating step is safe against repetition: on an already vacated
    /// wrapper the call does nothing — no second finalization, no access to
    /// the departed value. The return tells whether the finalizer ran, which
    /// it does exactly on the first call.
    ///
    /// A failure raised by `drop_owned` itself propagates out of this call
    /// unchanged; the slot has been vacated by then, so a later attempt
    /// still runs nothing.
    pub fn finalize(&mut self) -> (ran: bool)
        ensures
            Self::teardown_step(*old(self), *final(self), ran),
    {
        match self.slot.take() {
            Some(val) => {
                val.drop_owned();
                true
            }
            None => false,
        }
    }
}

/// Creates a new `DropOwned` containing the passed `val`.
pub fn drop_owned<T: OwnedDroppable>(val: T) -> (r: DropOwned<T>)
    ensures
        r@ == Some(val),
        r == DropOwned::spec_new(val),
{
    DropOwned::new(val)
}

/// Law — exactly-once finalization: a wrapper constructed on `val` is
/// occupied by `val`, so the first teardown attempt runs the finalizer and
/// hands it exactly `val` — witnessed by the finalizer's postcondition
/// predicate holding of `val` itself; and every teardown attempt leaves the
/// slot vacated, so no later attempt runs the finalizer again. Over the
/// wrapper's whole life the finalizer thus runs exactly once — never zero
/// times, never twice.
pub proof fn lemma_exactly_once_finalization<T: OwnedDroppable>(
    val: T,
    w: DropOwned<T>,
    w1: DropOwned<T>,
    ran1: bool,
    w2: DropOwned<T>,
    ran2: bool,
)
    requires
        w@ == Some(val),
        DropOwned::teardown_step(w, w1, ran1),
        DropOwned::teardown_step(w1, w2, ran2),
    ensures
        ran1,
        w.value() == val,
        call_ensures(T::drop_owned, (val,), ()),
        !ran2,
{
}

/// Law — no double drop: whatever state a wrapper is in, of two successive
/// teardown attempts on the same instance the second never runs the
/// finalizer. Repeated or nested teardown attempts therefore finalize at
/// most once.
pub proof fn lemma_no_double_drop<T: OwnedDroppable>(
    w: DropOwned<T>,
    w1: DropOwned<T>,
    ran1: bool,
    w2: DropOwned<T>,
    ran2: bool,
)
    requires
        DropOwned::teardown_step(w, w1, ran1),
        DropOwned::teardown_step(w1, w2, ran2),
    ensures
        !ran2,
{
}

/// Law — bypass correctness: a wrapper constructed on `val` holds exactly
/// `val`, so raw extraction ([`DropOwned::into_inner`], which returns
/// `value()`) hands back the original value unchanged. The extraction
/// consumes the wrapper, so no teardown step can ever follow on the same
/// instance: the finalizer is never invoked on the bypassed value. That
/// "never" half is carried by single ownership rather than by a clause
/// here: a consumed wrapper cannot again be the pre-state of
/// [`DropOwned::teardown_step`], the only relation in this crate that
/// yields the finalizer's invocation witness, and the extraction's own
/// contract establishes nothing of the finalizer's postcondition
/// predicate.
pub proof fn lemma_bypass_returns_original<T: OwnedDroppable>(val: T, w: DropOwned<T>)
    requires
        w@ == Some(val),
    ensures
        w.is_occupied(),
        w.value() == val,
{
}

/// Law — transparent access fidelity: once a write through
/// [`DropOwned::get_mut`] has left `written` behind the returned reference,
/// the slot holds exactly `written`; a later read access or raw extraction
/// (both of which return `value()`) yields `written`, and a teardown
/// attempt runs the finalizer and hands it `written` — the mutated value,
/// not the one originally wrapped — witnessed by the finalizer's
/// postcondition predicate holding of `written` itself.
pub proof fn lemma_transparent_access<T: OwnedDroppable>(
    written: T,
    w1: DropOwned<T>,
    w2: DropOwned<T>,
    ran: bool,
)
    requires
        w1@ == Some(written),
        DropOwned::teardown_step(w1, w2, ran),
    ensures
        w1.is_occupied(),
        w1.value() == written,
        ran,
        call_ensures(T::drop_owned, (written,), ()),
{
}

impl<T: OwnedDroppable> From<T> for DropOwned<T> {
    /// Upgrades a plain value into an owned-finalizing wrapper, exactly as
    /// [`DropOwned::new`] does.
    fn from(val: T) -> Self {
        DropOwned::new(val)
    }
}

impl<T: OwnedDroppable> vstd::std_specs::convert::FromSpecImpl<T> for DropOwned<T> {
    open spec fn obeys_from_spec() -> bool {
        true
    }

    open spec fn from_spec(val: T) -> Self {
        DropOwned::spec_new(val)
    }
}

} // verus!
