//! Single-slot cache cell with a stickiness mode.

use vstd::prelude::*;
use vstd::std_specs::convert::FromSpec;

verus! {

/// The stickiness mode of a [`CacheCell<T>`].
///
/// A cell starts out `Ambiguous`. It can be set to `Persistent` (the held
/// value must be safeguarded against ordinary clearing) or `Transient` (the
/// held value may be discarded readily) at any point, and may move freely
/// between those two — but once either concrete mode has been chosen, the
/// cell can never revert to `Ambiguous`.
#[derive(Clone, Copy, Debug, PartialEq, Eq, Structural)]
pub enum CellMode {
    Ambiguous,
    Persistent,
    Transient,
}

/// Container type for caches with a one-element limit.
///
/// `CacheCell` holds up to one value at a time, but can be used to store
/// arbitrarily many distinct values (of the same, statically known type) over
/// the course of its lifetime.
///
/// The mode is independent of the held value: a cell may be empty in any
/// mode, and may be set to a concrete mode before it ever holds a value.
/// Persistence is a caller-observed contract, not an invariant enforced on
/// every operation: [`CacheCell::swap`] replaces the value regardless of
/// mode, and [`CacheCell::unchecked_clear`] discards it regardless of mode,
/// so callers who care must check [`CacheCell::is_persistent`] first. The
/// mode-respecting removal path is [`CacheCell::checked_clear`].
#[derive(Clone, Debug)]
pub struct CacheCell<T> {
    value: Option<T>,
    mode: CellMode,
}

/// The mode reported as a raw keep-alive flag: `Persistent` keeps values
/// alive (`Some(true)`), `Transient` does not (`Some(false)`), and the
/// initial `Ambiguous` mode reports `None`.
pub open spec fn keep_alive_of(m: CellMode) -> Option<bool> {
    match m {
        CellMode::Ambiguous => None,
        CellMode::Persistent => Some(true),
        CellMode::Transient => Some(false),
    }
}

impl<T> CacheCell<T> {
    /// The value currently held, if any.
    pub closed spec fn spec_value(&self) -> Option<T> {
        self.value
    }

    /// The current stickiness mode.
    pub closed spec fn spec_mode(&self) -> CellMode {
        self.mode
    }

    /// The cell that wrapping a bare value produces: it holds the value and
    /// its mode is still `Ambiguous`.
    pub closed spec fn wrap_spec(value: T) -> CacheCell<T> {
        CacheCell { value: Some(value), mode: CellMode::Ambiguous }
    }

    /// Returns a [`CacheCell<T>`] that holds no value and has the
    /// indeterminate `Ambiguous` mode.
    pub fn new() -> (r: Self)
        ensures
            r.spec_value() is None,
            r.spec_mode() == CellMode::Ambiguous,
    {
        CacheCell { value: None, mode: CellMode::Ambiguous }
    }

    /// Sets a mutably borrowed [`CacheCell<T>`] to persistent-mode,
    /// regardless of its previous mode. Idempotent; the held value is
    /// untouched.
    pub fn set_persistent(&mut self)
        ensures
            final(self).spec_mode() == CellMode::Persistent,
            final(self).spec_value() == old(self).spec_value(),
    {
        self.mode = CellMode::Persistent;
    }

    /// Sets a mutably borrowed [`CacheCell<T>`] to transient-mode,
    /// regardless of its previous mode. Idempotent; the held value is
    /// untouched.
    pub fn set_transient(&mut self)
        ensures
            final(self).spec_mode() == CellMode::Transient,
            final(self).spec_value() == old(self).spec_value(),
    {
        self.mode = CellMode::Transient;
    }

    /// Returns `true` if `self` has been set to persistent-mode.
    pub fn is_persistent(&self) -> (r: bool)
        ensures
            r == (self.spec_mode() == CellMode::Persistent),
    {
        matches!(self.mode, CellMode::Persistent)
    }

    /// Returns `true` if `self` has been set to transient-mode.
    pub fn is_transient(&self) -> (r: bool)
        ensures
            r == (self.spec_mode() == CellMode::Transient),
    {
        matches!(self.mode, CellMode::Transient)
    }

    /// Returns `true` if the mode of `self` is unchanged from initialization.
    pub fn is_ambiguous(&self) -> (r: bool)
        ensures
            r == (self.spec_mode() == CellMode::Ambiguous),
    {
        matches!(self.mode, CellMode::Ambiguous)
    }

    /// Returns `true` if `self` holds no value.
    pub fn is_empty(&self) -> (r: bool)
        ensures
            r == (self.spec_value() is None),
    {
        self.value.is_none()
    }

    /// Returns `true` if `self` holds a value.
    #[must_use]
    pub fn has_value(&self) -> (r: bool)
        ensures
            r == (self.spec_value() is Some),
    {
        self.value.is_some()
    }

    /// Returns an immutable reference to the interior value of the cell,
    /// wrapped in `Some` when the cell is non-empty, and `None` when it is
    /// empty. No side effects.
    pub fn get(&self) -> (r: Option<&T>)
        ensures
            match r {
                Some(v) => self.spec_value() == Some(*v),
                None => self.spec_value() is None,
            },
    {
        self.value.as_ref()
    }

    /// Replaces the contents of the cell with `replacement`, returning the
    /// previous contents — regardless of mode.
    ///
    /// This is a deliberate escape hatch: persistence is a caller-observed
    /// contract, and callers who care about it must check
    /// [`Self::is_persistent`] themselves before calling `swap`.
    pub fn swap(&mut self, replacement: T) -> (r: Option<T>)
        ensures
            r == old(self).spec_value(),
            final(self).spec_value() == Some(replacement),
            final(self).spec_mode() == old(self).spec_mode(),
    {
        let previous = self.value.take();
        self.value = Some(replacement);
        previous
    }

    /// Discards the value held by the cell (whether or not it is empty),
    /// unless it is set to persistent-mode.
    ///
    /// Returns the sentinel `None` if the value was not discarded (on
    /// account of the cell being marked persistent), and `Some(())` for
    /// ambiguous and transient cells. This is the mode-respecting removal
    /// path.
    pub fn checked_clear(&mut self) -> (r: Option<()>)
        ensures
            final(self).spec_mode() == old(self).spec_mode(),
            old(self).spec_mode() == CellMode::Persistent ==> r is None && final(self).spec_value()
                == old(self).spec_value(),
            old(self).spec_mode() != CellMode::Persistent ==> r == Some(())
                && final(self).spec_value() is None,
    {
        if self.is_persistent() {
            None
        } else {
            let _ = self.value.take();
            Some(())
        }
    }

    /// Discards any value held by the cell, ignoring its mode.
    ///
    /// This bypasses — and thereby violates — the contract of
    /// persistent-mode cells, though it is entirely safe otherwise: it is
    /// the caller's responsibility to use it in a disciplined fashion.
    pub fn unchecked_clear(&mut self)
        ensures
            final(self).spec_value() is None,
            final(self).spec_mode() == old(self).spec_mode(),
    {
        let _ = self.value.take();
    }

    /// Converts a [`CacheCell<T>`] into a [`CacheCell<U>`], consuming the
    /// cell, mapping the held value (if any) through the supplied
    /// conversion, and preserving the mode. No value present maps to no
    /// value present.
    pub fn migrate<U, F: FnOnce(T) -> U>(self, conversion: F) -> (r: CacheCell<U>)
        requires
            self.spec_value() matches Some(v) ==> call_requires(conversion, (v,)),
        ensures
            r.spec_mode() == self.spec_mode(),
            self.spec_value() is None ==> r.spec_value() is None,
            self.spec_value() matches Some(v) ==> r.spec_value() matches Some(w)
                && call_ensures(conversion, (v,), w),
    {
        let value = match self.value {
            Some(x) => Some(conversion(x)),
            None => None,
        };
        CacheCell { value, mode: self.mode }
    }

    /// Reports the mode as a raw keep-alive flag: `Some(true)` for
    /// persistent, `Some(false)` for transient, `None` for ambiguous.
    pub fn keep_alive(&self) -> (r: Option<bool>)
        ensures
            r == keep_alive_of(self.spec_mode()),
    {
        match self.mode {
            CellMode::Ambiguous => None,
            CellMode::Persistent => Some(true),
            CellMode::Transient => Some(false),
        }
    }
}

impl<T> Default for CacheCell<T> {
    /// Returns a [`CacheCell<T>`] that holds no value and has the
    /// indeterminate `Ambiguous` mode.
    fn default() -> (r: Self)
        ensures
            r.spec_value() is None,
            r.spec_mode() == CellMode::Ambiguous,
    {
        CacheCell { value: None, mode: CellMode::Ambiguous }
    }
}

impl<T> From<T> for CacheCell<T> {
    /// Wraps a bare value: the cell holds it and the mode is `Ambiguous`.
    fn from(value: T) -> (r: Self) {
        CacheCell { value: Some(value), mode: CellMode::Ambiguous }
    }
}

impl<T> vstd::std_specs::convert::FromSpecImpl<T> for CacheCell<T> {
    open spec fn obeys_from_spec() -> bool {
        true
    }

    open spec fn from_spec(value: T) -> CacheCell<T> {
        CacheCell::wrap_spec(value)
    }
}

impl<T> From<CacheCell<T>> for Option<T> {
    /// Unwraps a cell into its optional value, discarding the mode.
    fn from(value: CacheCell<T>) -> (r: Self) {
        value.value
    }
}

impl<T> vstd::std_specs::convert::FromSpecImpl<CacheCell<T>> for Option<T> {
    open spec fn obeys_from_spec() -> bool {
        true
    }

    open spec fn from_spec(value: CacheCell<T>) -> Option<T> {
        value.spec_value()
    }
}

/// One step of the mode state machine: the mode after a single
/// `set_persistent` (`true`) or `set_transient` (`false`) call.
pub open spec fn mode_after_set(target: bool) -> CellMode {
    if target {
        CellMode::Persistent
    } else {
        CellMode::Transient
    }
}

/// The mode after a whole sequence of `set_persistent` (`true`) and
/// `set_transient` (`false`) calls, applied oldest first, starting from
/// `start`.
pub open spec fn mode_after_sets(start: CellMode, calls: Seq<bool>) -> CellMode
    decreases calls.len(),
{
    if calls.len() == 0 {
        start
    } else {
        mode_after_sets(mode_after_set(calls[0]), calls.drop_first())
    }
}

/// Law: after any non-empty sequence of `set_persistent`/`set_transient`
/// calls — each of which ensures exactly one `mode_after_set` step — the
/// mode matches the most recent call's target; in particular it is never
/// `Ambiguous` again, whatever it started as.
pub proof fn lemma_mode_matches_last_set(start: CellMode, calls: Seq<bool>)
    requires
        calls.len() > 0,
    ensures
        mode_after_sets(start, calls) == mode_after_set(calls.last()),
        mode_after_sets(start, calls) != CellMode::Ambiguous,
    decreases calls.len(),
{
    if calls.len() == 1 {
        assert(mode_after_sets(mode_after_set(calls[0]), calls.drop_first()) == mode_after_set(
            calls[0],
        ));
    } else {
        lemma_mode_matches_last_set(mode_after_set(calls[0]), calls.drop_first());
        assert(calls.drop_first().last() == calls.last());
    }
}

/// Law: wrapping a bare value into a cell and unwrapping the cell back
/// yields the original value, and the wrapped cell still has the
/// indeterminate `Ambiguous` mode.
pub proof fn lemma_wrap_unwrap<T>(value: T)
    ensures
        <Option<T> as FromSpec<CacheCell<T>>>::from_spec(
            <CacheCell<T> as FromSpec<T>>::from_spec(value),
        ) == Some(value),
        <CacheCell<T> as FromSpec<T>>::from_spec(value).spec_mode() == CellMode::Ambiguous,
{
}

} // verus!
