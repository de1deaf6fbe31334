//! Plain-data model of the structures the host engine owns and shares with
//! an extension for the duration of a single call: the argument array, the
//! per-instance metadata block, and the status conventions around them.

use vstd::prelude::*;

verus! {

/// Status type the host expects back from a setup call: `0` reports success,
/// any other value reports failure.
#[allow(non_camel_case_types)]
pub type my_bool = i8;

/// Type tag for an argument carrying text bytes.
pub const STRING_RESULT: i32 = 0;

/// Type tag for an argument carrying a double-precision value.
pub const REAL_RESULT: i32 = 1;

/// Type tag for an argument carrying a signed 64-bit integer.
pub const INT_RESULT: i32 = 2;

/// Type tag for an argument carrying a decimal rendered as bytes.
pub const DECIMAL_RESULT: i32 = 4;

/// Capacity, in bytes, of the host's setup error-message buffer. A failure
/// message handed back to the host is cut to this many bytes before the
/// terminating NUL.
pub const MYSQL_ERRMSG_SIZE: usize = 512;

/// The four tags above are the only ones the host's interface defines; any
/// other value is a host-side contract violation, not a data condition.
pub open spec fn valid_arg_type(t: i32) -> bool {
    t == STRING_RESULT || t == REAL_RESULT || t == INT_RESULT || t == DECIMAL_RESULT
}

/// One slot of the host's argument array: a type tag, the bytes behind the
/// slot's data pointer (`None` models a null pointer, the host's encoding of
/// a NULL argument), the declared byte length, and the nullability flag that
/// is meaningful only during setup.
pub struct ArgCell {
    /// One of the four `*_RESULT` tags.
    pub arg_type: i32,
    /// The pointed-to bytes; `None` stands for a null data pointer.
    pub data: Option<Vec<u8>>,
    /// Byte length the host declares for the slot; it governs text and
    /// decimal data, while numeric slots always carry a fixed-width value.
    pub length: u64,
    /// Nonzero when the host declares the argument may be NULL (setup only).
    pub maybe_null: i8,
}

impl ArgCell {
    /// What the host guarantees of every cell it hands over: a known tag,
    /// eight bytes behind every non-null numeric pointer, and exactly the
    /// declared length behind every non-null text or decimal pointer.
    pub open spec fn wf(&self) -> bool {
        &&& valid_arg_type(self.arg_type)
        &&& match self.data {
            Some(d) => {
                if self.arg_type == INT_RESULT || self.arg_type == REAL_RESULT {
                    d@.len() == 8
                } else {
                    d@.len() == self.length
                }
            },
            None => true,
        }
    }
}

/// The host's argument array for one call, as a bounds-checked sequence of
/// cells. The host builds it fresh for every call; nothing taken from it may
/// outlive the call.
#[allow(non_camel_case_types)]
pub struct UDF_ARGS {
    /// The argument cells, indexed `0 .. arg_count()`.
    pub cells: Vec<ArgCell>,
}

impl UDF_ARGS {
    /// Every cell meets the host's layout guarantees.
    pub open spec fn wf(&self) -> bool {
        forall|i: int| 0 <= i < self.cells@.len() ==> (#[trigger] self.cells@[i]).wf()
    }

    /// The argument count the host supplied for this call.
    pub fn arg_count(&self) -> (n: usize)
        ensures
            n == self.cells@.len(),
    {
        self.cells.len()
    }
}

/// The host-owned per-instance block: the setup metadata the extension may
/// write, and the slot where the opaque per-instance state handle lives from
/// a successful setup until teardown.
#[allow(non_camel_case_types)]
pub struct UDF_INIT<U> {
    /// Nonzero when the function's result may be NULL.
    pub maybe_null: i8,
    /// Digits after the decimal point the host should display.
    pub decimals: u32,
    /// Maximum length of the result the host should expect.
    pub max_length: u32,
    /// Nonzero when the result is the same for every row.
    pub const_item: i8,
    /// The per-instance state handle: `None` models the zeroed slot of an
    /// instance that has no live state (before setup, after a failed setup,
    /// or after teardown); `Some` holds the one heap allocation the
    /// lifecycle functions own on the extension's behalf.
    pub ptr: Option<Box<U>>,
}

} // verus!
