//! The write-once setup configuration the extension's setup routine may fill
//! in: a working copy of the host's metadata fields, handed to the extension
//! and copied back into the host's block when setup returns.

use vstd::prelude::*;

verus! {

/// Setup-time view of the host metadata an extension may adjust: result
/// nullability, displayed decimals, maximum result length, and whether the
/// result is constant across rows.
pub struct UdfInit {
    /// Nonzero when the function's result may be NULL.
    pub maybe_null: i8,
    /// Digits after the decimal point the host should display.
    pub decimals: u32,
    /// Maximum length of the result the host should expect.
    pub max_length: u32,
    /// Nonzero when the result is the same for every row.
    pub const_item: i8,
}

impl UdfInit {
    /// Declares whether the result may be NULL.
    pub fn set_maybe_null(&mut self, nullable: bool)
        ensures
            final(self).maybe_null == (if nullable {
                1i8
            } else {
                0i8
            }),
            final(self).decimals == old(self).decimals,
            final(self).max_length == old(self).max_length,
            final(self).const_item == old(self).const_item,
    {
        self.maybe_null = if nullable {
            1
        } else {
            0
        };
    }

    /// Declares how many decimal digits the host should display.
    pub fn set_decimals(&mut self, decimals: u16)
        ensures
            final(self).decimals == decimals as u32,
            final(self).maybe_null == old(self).maybe_null,
            final(self).max_length == old(self).max_length,
            final(self).const_item == old(self).const_item,
    {
        self.decimals = decimals as u32;
    }

    /// Declares the maximum length of the result.
    pub fn set_max_length(&mut self, max_length: u32)
        ensures
            final(self).max_length == max_length,
            final(self).maybe_null == old(self).maybe_null,
            final(self).decimals == old(self).decimals,
            final(self).const_item == old(self).const_item,
    {
        self.max_length = max_length;
    }

    /// Declares whether the result is the same for every row.
    pub fn set_const_item(&mut self, is_const_item: bool)
        ensures
            final(self).const_item == (if is_const_item {
                1i8
            } else {
                0i8
            }),
            final(self).maybe_null == old(self).maybe_null,
            final(self).decimals == old(self).decimals,
            final(self).max_length == old(self).max_length,
    {
        self.const_item = if is_const_item {
            1
        } else {
            0
        };
    }
}

} // verus!
