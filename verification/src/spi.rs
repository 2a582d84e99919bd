//! Model of the server programming interface: query-parameter marshalling,
//! classification of execution results, and scrollable cursors.
//!
//! The host parses, plans and runs the query between the two halves modelled
//! here: [`prepare_arguments`] builds exactly what is handed to the host, and
//! [`SpiContext::execute`] classifies what the host reports back.

use vstd::prelude::*;

use crate::heap::copy_tuple;
use crate::relation::Tuple;
use crate::tupledesc::{RawTupleDesc, RefTupleDesc};
use crate::types::{Oid, StaticallyTyped};
use crate::Datum;

verus! {

pub const SPI_OK_UTILITY: i32 = 4;

pub const SPI_OK_SELECT: i32 = 5;

pub const SPI_OK_SELINTO: i32 = 6;

pub const SPI_OK_INSERT: i32 = 7;

pub const SPI_OK_DELETE: i32 = 8;

pub const SPI_OK_UPDATE: i32 = 9;

pub const SPI_OK_INSERT_RETURNING: i32 = 11;

pub const SPI_OK_DELETE_RETURNING: i32 = 12;

pub const SPI_OK_UPDATE_RETURNING: i32 = 13;

pub const SPI_OK_REWRITTEN: i32 = 14;

pub const SPI_ERR_COPY: i32 = -2;

pub const SPI_ERR_TRANSACTION: i32 = -8;

/// The argument marker the host expects for a present value.
pub const SPI_PARAM_PRESENT: u8 = 32u8;

/// The argument marker the host expects for a null value.
pub const SPI_PARAM_NULL: u8 = 110u8;

/// Errors an execution can report as values (anything else arrives through
/// the error bridge instead).
#[derive(Clone, Debug, PartialEq, Eq, Structural)]
pub enum ExecError {
    Copy,
    Transaction,
}

/// Cursor fetch direction.
#[derive(Clone, Copy, Debug, PartialEq, Eq, Structural)]
pub enum Direction {
    Forward,
    Backward,
}

/// One query parameter: its declared type, and its value or NULL.
pub struct QueryParameter {
    pub oid: Oid,
    pub value: Option<Datum>,
}

/// The module once carried a second spelling of the same record.
pub type Parameter = QueryParameter;

impl QueryParameter {
    /// A NULL parameter of the given type.
    pub fn null<T: StaticallyTyped>() -> (p: QueryParameter)
        ensures
            p.oid == T::spec_oid(),
            p.value is None,
    {
        QueryParameter { oid: T::type_oid(), value: None }
    }

    /// A present parameter carrying a datum of the given type.
    pub fn from<T: StaticallyTyped + crate::types::IntoDatum>(t: T) -> (p: QueryParameter)
        ensures
            p.oid == T::spec_oid(),
            p.value == Some(t.spec_into_datum()),
    {
        QueryParameter { oid: T::type_oid(), value: Some(t.into_datum()) }
    }
}

/// A result table the host left behind: the rows and their descriptor.
pub struct SpiTuples {
    pub table: Vec<Tuple>,
    pub desc: RawTupleDesc,
}

impl SpiTuples {
    /// The result rows' descriptor.
    pub fn tuple_desc(&self) -> (d: RefTupleDesc)
        ensures
            d.raw == self.desc,
    {
        RefTupleDesc { raw: self.desc }
    }

    /// The number of rows.
    pub fn count(&self) -> (n: usize)
        ensures
            n == self.table.len(),
    {
        self.table.len()
    }

    /// An iterator over the result rows.
    pub fn iter<'a>(&'a self) -> (it: SpiTuplesIter<'a>)
        ensures
            it.tuples == self,
            it.index == 0,
    {
        SpiTuplesIter { tuples: self, index: 0 }
    }
}

/// An iterator over a result table's rows, in result order.
pub struct SpiTuplesIter<'a> {
    pub tuples: &'a SpiTuples,
    pub index: usize,
}

impl<'a> SpiTuplesIter<'a> {
    /// A copy of the next row, if any.
    pub fn next(&mut self) -> (r: Option<Tuple>)
        ensures
            final(self).tuples == old(self).tuples,
            old(self).index < old(self).tuples.table.len() ==> {
                &&& r matches Some(t) && t@ == old(self).tuples.table[old(self).index as int]@
                &&& final(self).index == old(self).index + 1
            },
            old(self).index >= old(self).tuples.table.len() ==> r is None && final(self).index
                == old(self).index,
    {
        if self.index < self.tuples.table.len() {
            let t = copy_tuple(&self.tuples.table[self.index]);
            self.index = self.index + 1;
            Some(t)
        } else {
            None
        }
    }
}

/// What an execution produced, by statement kind.
pub enum SpiResult {
    Select(SpiTuples),
    SelectInto(u64),
    Insert(u64),
    Delete(u64),
    Update(u64),
    InsertReturning(SpiTuples),
    DeleteReturning(SpiTuples),
    UpdateReturning(SpiTuples),
    Utility,
    Rewritten,
}

/// The execution outcomes this layer handles as values.  The host's argument
/// and connection errors cannot occur (the connection is managed here), and
/// its unknown codes are treated as fatal, so none of those are classified.
pub open spec fn handled_execute_code(code: i32) -> bool {
    ||| code == SPI_OK_UTILITY
    ||| code == SPI_OK_SELECT
    ||| code == SPI_OK_SELINTO
    ||| code == SPI_OK_INSERT
    ||| code == SPI_OK_DELETE
    ||| code == SPI_OK_UPDATE
    ||| code == SPI_OK_INSERT_RETURNING
    ||| code == SPI_OK_DELETE_RETURNING
    ||| code == SPI_OK_UPDATE_RETURNING
    ||| code == SPI_OK_REWRITTEN
    ||| code == SPI_ERR_COPY
    ||| code == SPI_ERR_TRANSACTION
}

/// Builds the three parallel argument arrays the host's execution primitive
/// takes: declared types, datum words (zero standing in for NULL), and the
/// present/null markers.
pub fn prepare_arguments(args: &[QueryParameter]) -> (out: (Vec<Oid>, Vec<Datum>, Vec<u8>))
    ensures
        out.0.len() == args@.len(),
        out.1.len() == args@.len(),
        out.2.len() == args@.len(),
        forall|i: int| 0 <= i < args@.len() ==> #[trigger] out.0@[i] == args@[i].oid,
        forall|i: int|
            0 <= i < args@.len() ==> #[trigger] out.1@[i] == (match args@[i].value {
                Some(d) => d,
                None => Datum::spec_new(0),
            }),
        forall|i: int|
            0 <= i < args@.len() ==> #[trigger] out.2@[i] == (if args@[i].value is Some {
                SPI_PARAM_PRESENT
            } else {
                SPI_PARAM_NULL
            }),
{
    let mut argtypes: Vec<Oid> = Vec::new();
    let mut values: Vec<Datum> = Vec::new();
    let mut nulls: Vec<u8> = Vec::new();
    let mut i: usize = 0;
    while i < args.len()
        invariant
            i <= args@.len(),
            argtypes.len() == i,
            values.len() == i,
            nulls.len() == i,
            forall|j: int| 0 <= j < i ==> #[trigger] argtypes@[j] == args@[j].oid,
            forall|j: int|
                0 <= j < i ==> #[trigger] values@[j] == (match args@[j].value {
                    Some(d) => d,
                    None => Datum::spec_new(0),
                }),
            forall|j: int|
                0 <= j < i ==> #[trigger] nulls@[j] == (if args@[j].value is Some {
                    SPI_PARAM_PRESENT
                } else {
                    SPI_PARAM_NULL
                }),
        decreases args@.len() - i,
    {
        let p = &args[i];
        argtypes.push(p.oid);
        match p.value {
            Some(d) => {
                values.push(d);
                nulls.push(SPI_PARAM_PRESENT);
            },
            None => {
                values.push(Datum::create(0));
                nulls.push(SPI_PARAM_NULL);
            },
        }
        i = i + 1;
    }
    (argtypes, values, nulls)
}

/// An open connection to the host's query machinery.
pub struct SpiContext {
    _private: (),
}

impl SpiContext {
    /// Takes charge after the host has accepted the connection.
    pub fn create() -> (c: SpiContext) {
        SpiContext { _private: () }
    }

    /// Classifies what the host reported back from an execution: the return
    /// code, the processed-row count, and — for row-returning statements —
    /// the result table.
    pub fn execute(&self, code: i32, processed: u64, table: SpiTuples) -> (r: Result<
        SpiResult,
        ExecError,
    >)
        requires
            handled_execute_code(code),
        ensures
            code == SPI_OK_SELECT ==> (r matches Ok(SpiResult::Select(t)) && t == table),
            code == SPI_OK_INSERT_RETURNING ==> (r matches Ok(SpiResult::InsertReturning(t)) && t
                == table),
            code == SPI_OK_DELETE_RETURNING ==> (r matches Ok(SpiResult::DeleteReturning(t)) && t
                == table),
            code == SPI_OK_UPDATE_RETURNING ==> (r matches Ok(SpiResult::UpdateReturning(t)) && t
                == table),
            code == SPI_OK_SELINTO ==> r == Ok::<SpiResult, ExecError>(
                SpiResult::SelectInto(processed),
            ),
            code == SPI_OK_INSERT ==> r == Ok::<SpiResult, ExecError>(
                SpiResult::Insert(processed),
            ),
            code == SPI_OK_DELETE ==> r == Ok::<SpiResult, ExecError>(
                SpiResult::Delete(processed),
            ),
            code == SPI_OK_UPDATE ==> r == Ok::<SpiResult, ExecError>(
                SpiResult::Update(processed),
            ),
            code == SPI_OK_UTILITY ==> r == Ok::<SpiResult, ExecError>(SpiResult::Utility),
            code == SPI_OK_REWRITTEN ==> r == Ok::<SpiResult, ExecError>(SpiResult::Rewritten),
            code == SPI_ERR_COPY ==> r == Err::<SpiResult, ExecError>(ExecError::Copy),
            code == SPI_ERR_TRANSACTION ==> r == Err::<SpiResult, ExecError>(
                ExecError::Transaction,
            ),
    {
        if code == SPI_OK_SELECT {
            Ok(SpiResult::Select(table))
        } else if code == SPI_OK_INSERT_RETURNING {
            Ok(SpiResult::InsertReturning(table))
        } else if code == SPI_OK_DELETE_RETURNING {
            Ok(SpiResult::DeleteReturning(table))
        } else if code == SPI_OK_UPDATE_RETURNING {
            Ok(SpiResult::UpdateReturning(table))
        } else if code == SPI_OK_SELINTO {
            Ok(SpiResult::SelectInto(processed))
        } else if code == SPI_OK_INSERT {
            Ok(SpiResult::Insert(processed))
        } else if code == SPI_OK_DELETE {
            Ok(SpiResult::Delete(processed))
        } else if code == SPI_OK_UPDATE {
            Ok(SpiResult::Update(processed))
        } else if code == SPI_OK_UTILITY {
            Ok(SpiResult::Utility)
        } else if code == SPI_OK_REWRITTEN {
            Ok(SpiResult::Rewritten)
        } else if code == SPI_ERR_COPY {
            Err(ExecError::Copy)
        } else {
            Err(ExecError::Transaction)
        }
    }

    /// Opens a scrollable cursor over the rows the host planned for the
    /// query; the cursor starts before the first row.
    pub fn execute_cursor(&self, rows: Vec<Tuple>, desc: RawTupleDesc) -> (c: SpiCursor)
        ensures
            c.rows == rows,
            c.desc == desc,
            c.pos == 0,
    {
        SpiCursor { rows, desc, pos: 0 }
    }
}

/// A scrollable cursor: a position within the planned rows, moved by fetches
/// in either direction.
pub struct SpiCursor {
    pub rows: Vec<Tuple>,
    pub desc: RawTupleDesc,
    pub pos: usize,
}

impl SpiCursor {
    /// The position after fetching or moving `count` rows forward from `pos`.
    pub open spec fn spec_fwd(pos: int, count: int, len: int) -> int {
        if pos + count <= len {
            pos + count
        } else {
            len
        }
    }

    /// The position after fetching or moving `count` rows backward.
    pub open spec fn spec_bwd(pos: int, count: int) -> int {
        if count <= pos {
            pos - count
        } else {
            0
        }
    }

    /// Fetches up to `count` rows in the given direction.  Forward fetches
    /// return the rows from the position on, in order, and leave the cursor
    /// after them; backward fetches return the rows before the position in
    /// reverse order and leave the cursor before them.
    pub fn fetch(&mut self, direction: Direction, count: u64) -> (r: SpiTuples)
        requires
            old(self).pos <= old(self).rows.len(),
            count <= i64::MAX as u64,
        ensures
            final(self).rows == old(self).rows,
            final(self).desc == old(self).desc,
            r.desc == old(self).desc,
            direction is Forward ==> {
                &&& final(self).pos == Self::spec_fwd(
                    old(self).pos as int,
                    count as int,
                    old(self).rows.len() as int,
                )
                &&& r.table.len() == final(self).pos - old(self).pos
                &&& forall|k: int|
                    0 <= k < r.table.len() ==> #[trigger] r.table@[k]@ == old(self).rows@[old(
                        self,
                    ).pos + k]@
            },
            direction is Backward ==> {
                &&& final(self).pos == Self::spec_bwd(old(self).pos as int, count as int)
                &&& r.table.len() == old(self).pos - final(self).pos
                &&& forall|k: int|
                    0 <= k < r.table.len() ==> #[trigger] r.table@[k]@ == old(self).rows@[old(
                        self,
                    ).pos - 1 - k]@
            },
    {
        let len = self.rows.len();
        match direction {
            Direction::Forward => {
                let avail = len - self.pos;
                let take: usize = if count > avail as u64 {
                    avail
                } else {
                    count as usize
                };
                let end = self.pos + take;
                let mut out: Vec<Tuple> = Vec::new();
                let mut i: usize = self.pos;
                while i < end
                    invariant
                        self.pos <= i <= end <= self.rows.len(),
                        self.pos == old(self).pos,
                        self.rows == old(self).rows,
                        self.desc == old(self).desc,
                        out.len() == i - self.pos,
                        forall|k: int|
                            0 <= k < out.len() ==> #[trigger] out@[k]@ == self.rows@[self.pos
                                + k]@,
                    decreases end - i,
                {
                    out.push(crate::heap::copy_tuple(&self.rows[i]));
                    i = i + 1;
                }
                let desc = self.desc;
                self.pos = end;
                SpiTuples { table: out, desc }
            },
            Direction::Backward => {
                let take: usize = if count > self.pos as u64 {
                    self.pos
                } else {
                    count as usize
                };
                let start = self.pos - take;
                let mut out: Vec<Tuple> = Vec::new();
                let mut i: usize = self.pos;
                while i > start
                    invariant
                        start <= i <= self.pos <= self.rows.len(),
                        self.pos == old(self).pos,
                        self.rows == old(self).rows,
                        self.desc == old(self).desc,
                        out.len() == self.pos - i,
                        forall|k: int|
                            0 <= k < out.len() ==> #[trigger] out@[k]@ == self.rows@[self.pos - 1
                                - k]@,
                    decreases i - start,
                {
                    out.push(crate::heap::copy_tuple(&self.rows[i - 1]));
                    i = i - 1;
                }
                let desc = self.desc;
                self.pos = start;
                SpiTuples { table: out, desc }
            },
        }
    }

    /// Moves the cursor to an absolute position, clamped to the row count.
    pub fn move_absolute(&mut self, index: u64)
        requires
            index <= i64::MAX as u64,
        ensures
            final(self).rows == old(self).rows,
            final(self).desc == old(self).desc,
            final(self).pos == (if index <= old(self).rows.len() as u64 {
                index as int
            } else {
                old(self).rows.len() as int
            }),
    {
        let len = self.rows.len();
        self.pos = if index > len as u64 {
            len
        } else {
            index as usize
        };
    }

    /// Moves the cursor by a signed offset, clamped to the table's bounds.
    pub fn move_relative(&mut self, offset: i64)
        requires
            old(self).pos <= old(self).rows.len(),
        ensures
            final(self).rows == old(self).rows,
            final(self).desc == old(self).desc,
            offset >= 0 ==> final(self).pos == Self::spec_fwd(
                old(self).pos as int,
                offset as int,
                old(self).rows.len() as int,
            ),
            offset < 0 ==> final(self).pos == Self::spec_bwd(old(self).pos as int, -offset as int),
    {
        let len = self.rows.len();
        if offset >= 0 {
            let off = offset as u64;
            let avail = (len - self.pos) as u64;
            if off > avail {
                self.pos = len;
            } else {
                self.pos = self.pos + off as usize;
            }
        } else {
            let back = (-(offset + 1) as u64) + 1;
            if back > self.pos as u64 {
                self.pos = 0;
            } else {
                self.pos = self.pos - back as usize;
            }
        }
    }
}

} // verus!
