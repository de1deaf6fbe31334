//! The capability surface an extension implements: a fallible setup routine
//! and a per-row evaluation routine, together with the output adapter that
//! maps an extension's declared result shape onto the host's value-plus-null
//! convention.

use vstd::prelude::*;

use crate::args::{InitUdfArgsIter, RowUdfArgsIter};
use crate::config::UdfInit;

verus! {

/// Adapter from an extension's declared output shape onto the host's return
/// convention for host type `T`: a value channel plus a separate null flag.
/// A bare numeric shape never reports null; an optional shape reports null
/// exactly for `None`. `default_value` supplies the defined placeholder the
/// host receives on its value channel whenever the null or error flag is
/// set, so that channel never carries an unspecified value.
pub trait UdfOutput<T>: Sized {
    /// Whether this output shape declares the result nullable.
    spec fn spec_nullable() -> bool;

    /// Whether this particular output reports NULL to the host.
    spec fn spec_is_null(&self) -> bool;

    /// The value this output puts on the host's value channel.
    spec fn spec_output(&self) -> T;

    /// The placeholder value for rows whose null or error flag is set.
    spec fn spec_default() -> T;

    /// Whether results of this shape may be NULL; this decides the
    /// nullability pre-set before an extension's setup routine runs.
    fn nullable() -> (r: bool)
        ensures
            r == Self::spec_nullable(),
    ;

    /// Whether this output reports NULL to the host.
    fn is_null(&self) -> (r: bool)
        ensures
            r == self.spec_is_null(),
    ;

    /// The value for the host's value channel; only a non-null output has
    /// one.
    fn output(self) -> (r: T)
        requires
            !self.spec_is_null(),
        ensures
            r == self.spec_output(),
    ;

    /// The defined placeholder value.
    fn default_value() -> (r: T)
        ensures
            r == Self::spec_default(),
    ;
}

impl UdfOutput<i64> for i64 {
    open spec fn spec_nullable() -> bool {
        false
    }

    open spec fn spec_is_null(&self) -> bool {
        false
    }

    open spec fn spec_output(&self) -> i64 {
        *self
    }

    open spec fn spec_default() -> i64 {
        0
    }

    fn nullable() -> bool {
        false
    }

    fn is_null(&self) -> bool {
        false
    }

    fn output(self) -> i64 {
        self
    }

    fn default_value() -> i64 {
        0
    }
}

impl UdfOutput<i64> for Option<i64> {
    open spec fn spec_nullable() -> bool {
        true
    }

    open spec fn spec_is_null(&self) -> bool {
        *self is None
    }

    open spec fn spec_output(&self) -> i64 {
        self->Some_0
    }

    open spec fn spec_default() -> i64 {
        0
    }

    fn nullable() -> bool {
        true
    }

    fn is_null(&self) -> bool {
        self.is_none()
    }

    fn output(self) -> i64 {
        match self {
            Some(v) => v,
            None => 0,
        }
    }

    fn default_value() -> i64 {
        0
    }
}

impl UdfOutput<u64> for u64 {
    open spec fn spec_nullable() -> bool {
        false
    }

    open spec fn spec_is_null(&self) -> bool {
        false
    }

    open spec fn spec_output(&self) -> u64 {
        *self
    }

    open spec fn spec_default() -> u64 {
        0
    }

    fn nullable() -> bool {
        false
    }

    fn is_null(&self) -> bool {
        false
    }

    fn output(self) -> u64 {
        self
    }

    fn default_value() -> u64 {
        0
    }
}

impl UdfOutput<u64> for Option<u64> {
    open spec fn spec_nullable() -> bool {
        true
    }

    open spec fn spec_is_null(&self) -> bool {
        *self is None
    }

    open spec fn spec_output(&self) -> u64 {
        self->Some_0
    }

    open spec fn spec_default() -> u64 {
        0
    }

    fn nullable() -> bool {
        true
    }

    fn is_null(&self) -> bool {
        self.is_none()
    }

    fn output(self) -> u64 {
        match self {
            Some(v) => v,
            None => 0,
        }
    }

    fn default_value() -> u64 {
        0
    }
}

/// A bare numeric output shape never declares the result nullable, and an
/// optional output shape always does — before and independent of anything an
/// extension's setup routine later writes.
pub proof fn lemma_declared_nullability()
    ensures
        !<i64 as UdfOutput<i64>>::spec_nullable(),
        <Option<i64> as UdfOutput<i64>>::spec_nullable(),
        !<u64 as UdfOutput<u64>>::spec_nullable(),
        <Option<u64> as UdfOutput<u64>>::spec_nullable(),
{
}

/// What an extension implements, parameterized by the host return type `T`
/// (a signed 64-bit integer, or a double-precision value carried as its 64
/// bits). `new` validates the declared arguments during setup and builds the
/// per-instance state or reports a descriptive failure; `process_row`
/// computes one output from that state and the current row's arguments, or
/// signals a binary failure. Instances of different setups may run on
/// whichever threads the host chooses, hence `Send + Sync`.
pub trait Udf<T>: Send + Sync + Sized {
    /// The declared output shape, bare or optional.
    type Output: UdfOutput<T>;

    /// Setup: validate the declared arguments, optionally adjust the setup
    /// configuration, and build the per-instance state, or return a
    /// human-readable reason the arguments are unacceptable. The shim hands
    /// over a fresh, well-formed cursor, so every argument may be read.
    fn new(init: &mut UdfInit, init_args: InitUdfArgsIter<'_>) -> Result<Self, String>
        requires
            init_args.wf(),
    ;

    /// Evaluation: compute one output from the instance state and the
    /// current row's arguments, or signal failure for this row. The shim
    /// hands over a fresh, well-formed cursor for the current row.
    fn process_row(&self, args: RowUdfArgsIter<'_>) -> Result<Self::Output, ()>
        requires
            args.wf(),
    ;
}

} // verus!
