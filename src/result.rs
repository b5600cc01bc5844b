use vstd::prelude::*;

verus! {

/// A decoded response value together with the row counts reported beside it.
#[derive(Debug)]
pub struct PostgrestResult<T> {
    pub value: T,
    /// The number of items returned by the query.
    pub item_count: usize,
    /// The table-wide item count; `None` unless a count mode was requested.
    pub total_item_count: Option<usize>,
}

impl<T> PostgrestResult<T> {
    pub fn is_empty(&self) -> (r: bool)
        ensures
            r == (self.item_count == 0),
    {
        self.item_count == 0
    }

    /// Returns `true` also when no count was requested.
    pub fn is_table_empty(&self) -> (r: bool)
        ensures
            r == match self.total_item_count {
                Some(n) => n == 0,
                None => true,
            },
    {
        match self.total_item_count {
            Some(n) => n == 0,
            None => true,
        }
    }

    pub fn value(&self) -> (r: &T)
        ensures
            *r == self.value,
    {
        &self.value
    }
}

} // verus!
