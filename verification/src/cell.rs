use vstd::prelude::*;

verus! {

/// Holder for exactly one hardware-resource handle (a pin, a timer) that
/// setup code populates once and interrupt handlers then use.
///
/// The cell itself only tracks occupancy; the mutual-exclusion discipline
/// (masking the interrupts that could also reach the same cell while it is
/// accessed) is the platform's critical-section primitive and stays with
/// the caller. Reading an empty cell after setup is a programming error,
/// not a runtime condition, so every access requires the cell to be
/// initialized.
pub struct SharedPeripheralCell<T> {
    slot: Option<T>,
}

impl<T> SharedPeripheralCell<T> {
    /// Whether setup has stored a handle in the cell.
    pub closed spec fn is_initialized_spec(&self) -> bool {
        self.slot is Some
    }

    /// The handle the cell holds.
    pub closed spec fn value(&self) -> T
        recommends
            self.is_initialized_spec(),
    {
        self.slot->Some_0
    }

    /// A cell that holds nothing yet.
    pub fn empty() -> (c: Self)
        ensures
            !c.is_initialized_spec(),
    {
        Self { slot: None }
    }

    pub fn is_initialized(&self) -> (r: bool)
        ensures
            r == self.is_initialized_spec(),
    {
        self.slot.is_some()
    }

    /// Store `handle`, discarding any previous occupant. The caller must
    /// hold the critical section that masks every interrupt that could
    /// also access this cell.
    pub fn replace(&mut self, handle: T)
        ensures
            final(self).is_initialized_spec(),
            final(self).value() == handle,
    {
        self.slot = Some(handle);
    }

    /// Borrow the stored handle.
    pub fn borrow_handle(&self) -> (r: &T)
        requires
            self.is_initialized_spec(),
        ensures
            *r == self.value(),
    {
        match &self.slot {
            Some(handle) => handle,
            None => vstd::pervasive::unreached(),
        }
    }

    /// Move the stored handle out, leaving the cell empty.
    pub fn take_handle(&mut self) -> (r: T)
        requires
            old(self).is_initialized_spec(),
        ensures
            r == old(self).value(),
            !final(self).is_initialized_spec(),
    {
        match self.slot.take() {
            Some(handle) => handle,
            None => vstd::pervasive::unreached(),
        }
    }

    /// Run `f` against the stored handle, storing the handle `f` gives
    /// back and returning `f`'s other result. The caller must hold the
    /// critical section for this cell while it runs.
    pub fn with_mut<R, F: FnOnce(T) -> (T, R)>(&mut self, f: F) -> (r: R)
        requires
            old(self).is_initialized_spec(),
            call_requires(f, (old(self).value(),)),
        ensures
            final(self).is_initialized_spec(),
            call_ensures(f, (old(self).value(),), (final(self).value(), r)),
    {
        let handle = match self.slot.take() {
            Some(handle) => handle,
            None => vstd::pervasive::unreached(),
        };
        let (handle, result) = f(handle);
        self.slot = Some(handle);
        result
    }
}

} // verus!
