//! A cell that is written at most once.
use vstd::prelude::*;

verus! {

/// Holds nothing at first and, after one successful [`OnceCell::set`], one
/// value for good.
pub struct OnceCell<T> {
    value: Option<T>,
}

impl<T> View for OnceCell<T> {
    type V = Option<T>;

    closed spec fn view(&self) -> Option<T> {
        self.value
    }
}

impl<T> OnceCell<T> {
    /// An empty cell.
    pub fn new() -> (cell: Self)
        ensures
            cell@ is None,
    {
        OnceCell { value: None }
    }

    /// The stored value, if the cell was set.
    pub fn get(&self) -> (held: Option<&T>)
        ensures
            held is Some <==> self@ is Some,
            held matches Some(v) ==> self@ == Some(*v),
    {
        self.value.as_ref()
    }

    /// Stores `new_value` if the cell is empty. A cell that is already set
    /// keeps its value and hands it back as the error.
    pub fn set(&mut self, new_value: T) -> (outcome: Result<(), &T>)
        ensures
            old(self)@ is None ==> outcome is Ok && final(self)@ == Some(new_value),
            old(self)@ matches Some(existing) ==> outcome == Err::<(), &T>(&existing)
                && final(self)@ == old(self)@,
    {
        match self.value {
            Some(ref existing) => Err(existing),
            None => {
                self.value = Some(new_value);
                Ok(())
            },
        }
    }

    /// Empties the cell and returns what it held.
    pub fn take(&mut self) -> (held: Option<T>)
        ensures
            held == old(self)@,
            final(self)@ is None,
    {
        self.value.take()
    }
}

} // verus!
