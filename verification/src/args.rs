//! Forward-only views over the host's argument array: one cursor for
//! per-row evaluation, and one for setup that additionally exposes the
//! host-declared nullability of each argument.

use vstd::prelude::*;

use crate::host::{ArgCell, UDF_ARGS};
use crate::value::{arg_value_matches, data_view, ArgValue};

verus! {

/// One argument slot as seen during per-row evaluation. It borrows the
/// host's cell for the current call only; nullability is deliberately not
/// offered here, since the host defines it only during setup.
pub struct RowUdfArg<'a> {
    /// The borrowed cell.
    pub cell: &'a ArgCell,
}

impl<'a> RowUdfArg<'a> {
    /// Reads the cell as a discriminated value.
    pub fn arg_value(&self) -> (v: ArgValue<'a>)
        requires
            self.cell.wf(),
        ensures
            arg_value_matches(v, self.cell.arg_type, data_view(self.cell.data)),
    {
        ArgValue::new(self.cell.arg_type, &self.cell.data, self.cell.length)
    }
}

/// One argument slot as seen during setup: the same cell view, plus the
/// host-declared "may be null" flag.
pub struct InitUdfArg<'a> {
    /// The evaluation-time view of the same slot.
    pub row_arg: RowUdfArg<'a>,
    /// Whether the host declared the argument nullable.
    pub maybe_null_: bool,
}

impl<'a> InitUdfArg<'a> {
    /// Reads the cell as a discriminated value.
    pub fn arg_value(&self) -> (v: ArgValue<'a>)
        requires
            self.row_arg.cell.wf(),
        ensures
            arg_value_matches(v, self.row_arg.cell.arg_type, data_view(self.row_arg.cell.data)),
    {
        self.row_arg.arg_value()
    }

    /// Whether the host declared the argument nullable.
    pub fn maybe_null(&self) -> (b: bool)
        ensures
            b == self.maybe_null_,
    {
        self.maybe_null_
    }
}

/// Strictly sequential cursor over the argument array for one evaluation
/// call. `next` yields the cells in index order, exactly once each, and
/// yields nothing once the host-supplied count is exhausted — there is no
/// way to seek or start over.
pub struct RowUdfArgsIter<'a> {
    /// Index of the next cell to yield.
    pub idx: usize,
    /// The call's argument array.
    pub udf_args: &'a UDF_ARGS,
}

impl<'a> RowUdfArgsIter<'a> {
    /// The argument array behind the cursor meets the host's layout
    /// guarantees, so every cell the cursor yields may be read.
    pub open spec fn wf(&self) -> bool {
        self.udf_args.wf()
    }

    /// Yields the next argument, or `None` when all of the call's arguments
    /// have been yielded; once exhausted, every further call yields `None`.
    pub fn next(&mut self) -> (r: Option<RowUdfArg<'a>>)
        ensures
            final(self).udf_args == old(self).udf_args,
            old(self).idx < old(self).udf_args.cells@.len() ==> {
                &&& final(self).idx == old(self).idx + 1
                &&& r matches Some(arg) && *arg.cell == old(self).udf_args.cells@[old(
                    self,
                ).idx as int]
            },
            old(self).idx >= old(self).udf_args.cells@.len() ==> {
                &&& r is None
                &&& final(self).idx == old(self).idx
            },
    {
        let args: &'a UDF_ARGS = self.udf_args;
        if self.idx < args.cells.len() {
            let arg = RowUdfArg { cell: &args.cells[self.idx] };
            self.idx = self.idx + 1;
            Some(arg)
        } else {
            None
        }
    }

    /// Drains the cursor, counting what it yields: a fresh cursor counts
    /// exactly the call's argument count, and an exhausted one counts
    /// nothing.
    pub fn count(self) -> (n: usize)
        ensures
            self.idx <= self.udf_args.cells@.len() ==> n == self.udf_args.cells@.len() - self.idx,
            self.idx > self.udf_args.cells@.len() ==> n == 0,
    {
        let mut it = self;
        let ghost orig = it;
        let mut n: usize = 0;
        loop
            invariant
                it.udf_args == orig.udf_args,
                orig.idx <= orig.udf_args.cells@.len() ==> {
                    &&& orig.idx <= it.idx <= it.udf_args.cells@.len()
                    &&& n == it.idx - orig.idx
                },
                orig.idx > orig.udf_args.cells@.len() ==> n == 0 && it.idx == orig.idx,
            ensures
                orig.idx <= orig.udf_args.cells@.len() ==> n == orig.udf_args.cells@.len()
                    - orig.idx,
                orig.idx > orig.udf_args.cells@.len() ==> n == 0,
            decreases (if it.idx <= it.udf_args.cells@.len() {
                it.udf_args.cells@.len() + 1 - it.idx
            } else {
                0
            }),
        {
            if it.next().is_none() {
                break;
            }
            n = n + 1;
        }
        n
    }
}

/// Strictly sequential cursor over the argument array for the setup call:
/// the same traversal as `RowUdfArgsIter`, with each argument's declared
/// nullability alongside.
pub struct InitUdfArgsIter<'a> {
    /// The underlying evaluation-time cursor.
    pub row_iter: RowUdfArgsIter<'a>,
}

impl<'a> InitUdfArgsIter<'a> {
    /// The argument array behind the cursor meets the host's layout
    /// guarantees, so every cell the cursor yields may be read.
    pub open spec fn wf(&self) -> bool {
        self.row_iter.udf_args.wf()
    }

    /// Yields the next argument together with its declared nullability, or
    /// `None` when all of the call's arguments have been yielded; once
    /// exhausted, every further call yields `None`.
    pub fn next(&mut self) -> (r: Option<InitUdfArg<'a>>)
        ensures
            final(self).row_iter.udf_args == old(self).row_iter.udf_args,
            old(self).row_iter.idx < old(self).row_iter.udf_args.cells@.len() ==> {
                &&& final(self).row_iter.idx == old(self).row_iter.idx + 1
                &&& r matches Some(arg) && *arg.row_arg.cell == old(
                    self,
                ).row_iter.udf_args.cells@[old(self).row_iter.idx as int] && arg.maybe_null_ == (
                old(self).row_iter.udf_args.cells@[old(self).row_iter.idx as int].maybe_null != 0)
            },
            old(self).row_iter.idx >= old(self).row_iter.udf_args.cells@.len() ==> {
                &&& r is None
                &&& final(self).row_iter.idx == old(self).row_iter.idx
            },
    {
        match self.row_iter.next() {
            None => None,
            Some(row_arg) => {
                let maybe_null_ = row_arg.cell.maybe_null != 0;
                Some(InitUdfArg { row_arg, maybe_null_ })
            },
        }
    }
}

impl UDF_ARGS {
    /// A fresh setup cursor over this call's arguments, starting at index 0.
    pub fn init_args_iter_mut(&self) -> (it: InitUdfArgsIter<'_>)
        ensures
            it.row_iter.udf_args == self,
            it.row_iter.idx == 0,
    {
        InitUdfArgsIter { row_iter: self.row_args_iter_mut() }
    }

    /// A fresh evaluation cursor over this call's arguments, starting at
    /// index 0.
    pub fn row_args_iter_mut(&self) -> (it: RowUdfArgsIter<'_>)
        ensures
            it.udf_args == self,
            it.idx == 0,
    {
        RowUdfArgsIter { idx: 0, udf_args: self }
    }
}

} // verus!
