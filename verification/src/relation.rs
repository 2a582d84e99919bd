//! Model of an opened relation: its row shape and its stored rows.

use vstd::prelude::*;

use crate::tupledesc::RawTupleDesc;
use crate::Datum;

verus! {

/// One stored row: a datum per attribute, `None` standing for SQL NULL.
pub type Tuple = Vec<Option<Datum>>;

/// An opened relation, as the host hands it over: the row descriptor and the
/// rows a scan will visit, in scan order.
pub struct Relation {
    pub td: RawTupleDesc,
    pub tuples: Vec<Tuple>,
}

impl Relation {
    /// Every stored row has exactly the described number of attributes.
    pub open spec fn wf(self) -> bool {
        &&& self.td.natts >= 0
        &&& forall|i: int|
            0 <= i < self.tuples.len() ==> #[trigger] self.tuples[i].len() == self.td.natts
    }
}

} // verus!
