//! State that outlives the attempts of an operation.
use vstd::prelude::*;

verus! {

/// Data that every attempt of an operation gets to change, one attempt at a
/// time.
pub struct RetryCell<T>(T);

impl<T> RetryCell<T> {
    /// The data in the cell.
    pub closed spec fn value(self) -> T {
        self.0
    }

    /// A cell that owns its data.
    pub fn owned(val: T) -> (cell: Self)
        ensures
            cell.value() == val,
    {
        RetryCell(val)
    }

    /// Access to the data for one attempt: what the attempt leaves there is what
    /// the next one finds.
    pub fn get(&mut self) -> (data: &mut T)
        ensures
            *data == old(self).value(),
            final(self).value() == *final(data),
    {
        &mut self.0
    }
}

impl<'a, T> RetryCell<&'a mut T> {
    /// A cell over borrowed data: changes made through the cell reach the
    /// lender.
    pub fn new(val: &'a mut T) -> (cell: Self)
        ensures
            *cell.value() == *old(val),
            *final(cell.value()) == *final(val),
    {
        RetryCell(val)
    }
}

/// What is in the cell when it is used for the last time is what the lender
/// gets back.
pub proof fn law_lender_gets_data_back<T>(cell: RetryCell<&mut T>)
    requires
        has_resolved(cell),
    ensures
        *final(cell.value()) == *cell.value(),
{
}

/// The first attempt finds what the cell was made with, and each later one what
/// the attempt before it left there.
pub proof fn law_attempt_finds_what_was_left<T>(
    val: T,
    cell: RetryCell<T>,
    first: &mut RetryCell<T>,
    found: &mut T,
    second: &mut RetryCell<T>,
    found_again: &mut T,
)
    requires
        call_ensures(RetryCell::<T>::owned, (val,), cell),
        *old(first) == cell,
        call_ensures(RetryCell::<T>::get, (first,), found),
        *old(second) == *final(first),
        call_ensures(RetryCell::<T>::get, (second,), found_again),
    ensures
        *old(found) == val,
        *old(found_again) == *final(found),
{
}

/// An attempt works on the data that was lent to the cell, and the lender gets back
/// what the last attempt left there.
pub proof fn law_attempt_works_on_lent_data<'a, T>(
    val: &'a mut T,
    cell: RetryCell<&'a mut T>,
    access: &mut RetryCell<&'a mut T>,
    found: &mut &'a mut T,
)
    requires
        call_ensures(RetryCell::<&'a mut T>::new, (val,), cell),
        *old(access) == cell,
        call_ensures(RetryCell::<&'a mut T>::get, (access,), found),
    ensures
        **old(found) == *old(val),
        *final(*old(found)) == *final(val),
{
}

} // verus!
