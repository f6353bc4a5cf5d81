//! Stores: the identity and time stamp of a new store, and the cells of the
//! location grid searched around a point.
use vstd::prelude::*;
use crate::ids::{is_random_id, new_random_id, now_seconds};

verus! {

/// Id and creation stamp of a new store.
pub struct StoreStamp {
    pub store_id: u128,
    pub created_date: i64,
    pub modified_date: i64,
}

/// A fresh random store id, created and modified now.
pub fn new_store_stamp() -> (s: StoreStamp)
    ensures
        is_random_id(s.store_id),
        s.created_date == s.modified_date,
        s.created_date >= 0,
{
    let store_id = new_random_id();
    let now = now_seconds();
    StoreStamp { store_id, created_date: now, modified_date: now }
}

/// The latitude (or longitude) cells searched around a point's cell: the
/// cell below, the cell itself and the cell above.
pub fn nearby_cells(cell: i8) -> (cells: (i8, i8, i8))
    requires
        i8::MIN < cell < i8::MAX,
    ensures
        cells.0 == cell - 1,
        cells.1 == cell,
        cells.2 == cell + 1,
{
    (cell - 1, cell, cell + 1)
}

} // verus!
