//! The generic glue behind the host's three fixed entry points: setup
//! (validate, allocate the per-instance state, report failure within the
//! host's message-buffer convention), per-row evaluation (route the
//! extension's outcome onto the host's value, null and error channels), and
//! teardown (release the per-instance state exactly once).

use vstd::prelude::*;
use vstd::string::StrSliceExecFns;

use crate::config::UdfInit;
use crate::contract::{Udf, UdfOutput};
use crate::host::{my_bool, MYSQL_ERRMSG_SIZE, UDF_ARGS, UDF_INIT};

verus! {

/// The bytes the host's error buffer holds after a failure with message
/// bytes `s`: the message cut to the buffer's capacity, then a terminating
/// NUL.
pub open spec fn truncated_nul(s: Seq<u8>) -> Seq<u8> {
    (if s.len() <= MYSQL_ERRMSG_SIZE {
        s
    } else {
        s.take(MYSQL_ERRMSG_SIZE as int)
    }).push(0u8)
}

/// A message longer than the buffer capacity is delivered as exactly the
/// capacity-length prefix, NUL-terminated.
pub proof fn lemma_error_truncation(s: Seq<u8>)
    requires
        s.len() > MYSQL_ERRMSG_SIZE,
    ensures
        truncated_nul(s) == s.take(MYSQL_ERRMSG_SIZE as int).push(0u8),
        truncated_nul(s).len() == MYSQL_ERRMSG_SIZE + 1,
{
}

/// Fills the host's error buffer with the failure message `err`, cut to the
/// buffer capacity and NUL-terminated.
pub fn write_error_message(msg: &mut Vec<u8>, err: &Vec<u8>)
    ensures
        final(msg)@ == truncated_nul(err@),
{
    msg.clear();
    let n: usize = if err.len() > MYSQL_ERRMSG_SIZE {
        MYSQL_ERRMSG_SIZE
    } else {
        err.len()
    };
    let mut i: usize = 0;
    while i < n
        invariant
            i <= n,
            n <= err@.len(),
            msg@ == err@.take(i as int),
        decreases n - i,
    {
        let b = err[i];
        msg.push(b);
        i = i + 1;
        proof {
            assert(msg@ =~= err@.take(i as int));
        }
    }
    msg.push(0);
    proof {
        assert(msg@ =~= truncated_nul(err@));
    }
}

/// The setup configuration handed to an extension's setup routine: the
/// host's current metadata, with nullability pre-set from the extension's
/// declared output shape — so the pre-set holds before any extension-side
/// override can run.
pub fn preset_config<U: Udf<R>, R>(initid: &UDF_INIT<U>) -> (cfg: UdfInit)
    ensures
        cfg.maybe_null == (if <U::Output as UdfOutput<R>>::spec_nullable() {
            1i8
        } else {
            0i8
        }),
        cfg.decimals == initid.decimals,
        cfg.max_length == initid.max_length,
        cfg.const_item == initid.const_item,
{
    let mut cfg = UdfInit {
        maybe_null: initid.maybe_null,
        decimals: initid.decimals,
        max_length: initid.max_length,
        const_item: initid.const_item,
    };
    cfg.set_maybe_null(<U::Output as UdfOutput<R>>::nullable());
    cfg
}

/// Copies the setup configuration back into the host's metadata block,
/// leaving the state handle alone.
fn store_metadata<U>(initid: &mut UDF_INIT<U>, cfg: &UdfInit)
    ensures
        final(initid).maybe_null == cfg.maybe_null,
        final(initid).decimals == cfg.decimals,
        final(initid).max_length == cfg.max_length,
        final(initid).const_item == cfg.const_item,
        final(initid).ptr == old(initid).ptr,
{
    initid.maybe_null = cfg.maybe_null;
    initid.decimals = cfg.decimals;
    initid.max_length = cfg.max_length;
    initid.const_item = cfg.const_item;
}

/// Runs the extension's setup: pre-sets nullability from the declared output
/// shape, hands the extension the setup cursor and configuration, and on
/// success moves the built instance behind the host's state handle. Exactly
/// a successful setup leaves a live handle.
fn safe_init<U: Udf<R>, R>(initid: &mut UDF_INIT<U>, args: &UDF_ARGS) -> (r: Result<(), String>)
    requires
        old(initid).ptr is None,
        args.wf(),
    ensures
        r is Ok ==> final(initid).ptr is Some,
        r is Err ==> final(initid).ptr is None,
{
    let args_iter = args.init_args_iter_mut();
    let mut cfg = preset_config::<U, R>(initid);
    match U::new(&mut cfg, args_iter) {
        Err(e) => {
            store_metadata(initid, &cfg);
            Err(e)
        },
        Ok(udf) => {
            store_metadata(initid, &cfg);
            initid.ptr = Some(Box::new(udf));
            Ok(())
        },
    }
}

/// The setup entry point: reports `0` to the host on success, having stored
/// the per-instance state behind the handle; on failure reports `1`, leaves
/// the handle empty, and fills the host's error buffer with the extension's
/// message, cut to the buffer capacity and NUL-terminated.
pub fn init<U: Udf<R>, R>(initid: &mut UDF_INIT<U>, args: &UDF_ARGS, msg: &mut Vec<u8>) -> (r:
    my_bool)
    requires
        old(initid).ptr is None,
        args.wf(),
    ensures
        r == 0 || r == 1,
        r == 0 ==> final(initid).ptr is Some,
        r == 1 ==> {
            &&& final(initid).ptr is None
            &&& 1 <= final(msg)@.len() <= MYSQL_ERRMSG_SIZE + 1
            &&& final(msg)@.last() == 0
            &&& exists|m: Seq<u8>| final(msg)@ == truncated_nul(m)
        },
{
    match safe_init::<U, R>(initid, args) {
        Err(err_msg) => {
            let bytes = err_msg.as_str().as_bytes_vec();
            write_error_message(msg, &bytes);
            proof {
                assert(exists|m: Seq<u8>| msg@ == truncated_nul(m)) by {
                    assert(msg@ == truncated_nul(bytes@));
                }
            }
            1
        },
        Ok(()) => 0,
    }
}

/// Routes one evaluation outcome onto the host's channels: a failed row sets
/// the error flag, a NULL result sets the null flag, and in either case the
/// value channel carries the shape's defined placeholder; a present result
/// goes to the value channel with both flags untouched.
pub fn route_output<O: UdfOutput<R>, R>(out: Result<O, ()>, is_null: &mut i8, error: &mut i8) -> (r:
    R)
    ensures
        out is Err ==> {
            &&& *final(error) == 1
            &&& *final(is_null) == *old(is_null)
            &&& r == O::spec_default()
        },
        out matches Ok(o) ==> {
            &&& *final(error) == *old(error)
            &&& o.spec_is_null() ==> (*final(is_null) == 1 && r == O::spec_default())
            &&& !o.spec_is_null() ==> (*final(is_null) == *old(is_null) && r == o.spec_output())
        },
{
    match out {
        Err(_) => {
            *error = 1;
            O::default_value()
        },
        Ok(result) => {
            if result.is_null() {
                *is_null = 1;
                O::default_value()
            } else {
                result.output()
            }
        },
    }
}

/// The per-row entry point: rebuilds a fresh argument cursor for the current
/// row, evaluates the extension against the state behind the handle, and
/// routes the outcome onto the host's channels. The handle — and everything
/// else in the host's block — is exactly as it was before the call.
pub fn process_row<U: Udf<R>, R>(
    initid: &mut UDF_INIT<U>,
    args: &UDF_ARGS,
    is_null: &mut i8,
    error: &mut i8,
) -> (r: R)
    requires
        old(initid).ptr is Some,
        args.wf(),
    ensures
        *final(initid) == *old(initid),
        *final(error) == *old(error) || (*final(error) == 1 && r
            == <U::Output as UdfOutput<R>>::spec_default()),
        *final(is_null) == *old(is_null) || (*final(is_null) == 1 && r
            == <U::Output as UdfOutput<R>>::spec_default()),
{
    let udf: &U = match &initid.ptr {
        Some(b) => &**b,
        None => vstd::pervasive::unreached(),
    };
    let out = udf.process_row(args.row_args_iter_mut());
    route_output::<U::Output, R>(out, is_null, error)
}

/// The teardown entry point: takes the per-instance state out of the host's
/// handle and releases it, leaving the handle empty. The host calls this at
/// most once per successful setup, so the one allocation made there is freed
/// exactly once.
pub fn deinit<T>(initid: &mut UDF_INIT<T>)
    ensures
        final(initid).ptr is None,
        final(initid).maybe_null == old(initid).maybe_null,
        final(initid).decimals == old(initid).decimals,
        final(initid).max_length == old(initid).max_length,
        final(initid).const_item == old(initid).const_item,
{
    initid.ptr = None;
}

} // verus!
