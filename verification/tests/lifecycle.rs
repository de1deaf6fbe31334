use mysql_udf::{
    deinit, init, process_row, route_output, write_error_message, ArgCell, ArgValue,
    InitUdfArgsIter, RowUdfArgsIter, Udf, UdfInit, UdfOutput, INT_RESULT, MYSQL_ERRMSG_SIZE,
    REAL_RESULT, UDF_ARGS, UDF_INIT,
};

fn int_cell(v: Option<i64>) -> ArgCell {
    ArgCell {
        arg_type: INT_RESULT,
        data: v.map(|x| x.to_le_bytes().to_vec()),
        length: 8,
        maybe_null: 0,
    }
}

fn real_cell(v: Option<f64>) -> ArgCell {
    ArgCell {
        arg_type: REAL_RESULT,
        data: v.map(|x| x.to_bits().to_le_bytes().to_vec()),
        length: 8,
        maybe_null: 0,
    }
}

fn text_cell(s: &[u8]) -> ArgCell {
    ArgCell {
        arg_type: mysql_udf::STRING_RESULT,
        data: Some(s.to_vec()),
        length: s.len() as u64,
        maybe_null: 0,
    }
}

fn fresh_init<U>() -> UDF_INIT<U> {
    UDF_INIT { maybe_null: 0, decimals: 0, max_length: 0, const_item: 0, ptr: None }
}

/// Counts the arguments of each row.
struct ArgCount;

impl Udf<i64> for ArgCount {
    type Output = i64;

    fn new(_init: &mut UdfInit, _init_args: InitUdfArgsIter<'_>) -> Result<Self, String> {
        Ok(ArgCount)
    }

    fn process_row(&self, args: RowUdfArgsIter<'_>) -> Result<i64, ()> {
        Ok(args.count() as i64)
    }
}

/// Sums integer arguments, skipping NULLs.
struct Add;

impl Udf<i64> for Add {
    type Output = i64;

    fn new(_init: &mut UdfInit, mut init_args: InitUdfArgsIter<'_>) -> Result<Self, String> {
        let mut idx = 0;
        while let Some(arg) = init_args.next() {
            match arg.arg_value() {
                ArgValue::Integer(_) => {}
                _ => {
                    return Err(format!(
                        "Add only accepts integer values. Arg {} is not an integer",
                        idx
                    ))
                }
            }
            idx += 1;
        }
        Ok(Add)
    }

    fn process_row(&self, mut args: RowUdfArgsIter<'_>) -> Result<i64, ()> {
        let mut total: i64 = 0;
        while let Some(arg) = args.next() {
            if let ArgValue::Integer(Some(v)) = arg.arg_value() {
                total += v;
            }
        }
        Ok(total)
    }
}

/// Sums integer and real arguments as a double, skipping NULLs.
struct AddF;

impl Udf<u64> for AddF {
    type Output = u64;

    fn new(_init: &mut UdfInit, mut init_args: InitUdfArgsIter<'_>) -> Result<Self, String> {
        let mut idx = 0;
        while let Some(arg) = init_args.next() {
            match arg.arg_value() {
                ArgValue::Integer(_) | ArgValue::Real(_) => {}
                _ => {
                    return Err(format!(
                        "AddF only accepts integer or real values. Arg {} is not numeric",
                        idx
                    ))
                }
            }
            idx += 1;
        }
        Ok(AddF)
    }

    fn process_row(&self, mut args: RowUdfArgsIter<'_>) -> Result<u64, ()> {
        let mut total: f64 = 0.0;
        while let Some(arg) = args.next() {
            match arg.arg_value() {
                ArgValue::Integer(Some(v)) => total += v as f64,
                ArgValue::Real(Some(bits)) => total += f64::from_bits(bits),
                _ => {}
            }
        }
        Ok(total.to_bits())
    }
}

/// Always fails setup with an overlong message, for truncation tests.
struct Failing;

impl Udf<i64> for Failing {
    type Output = i64;

    fn new(_init: &mut UdfInit, _init_args: InitUdfArgsIter<'_>) -> Result<Self, String> {
        Err("x".repeat(600))
    }

    fn process_row(&self, _args: RowUdfArgsIter<'_>) -> Result<i64, ()> {
        Ok(0)
    }
}

/// Reports NULL for every row, to exercise the optional output shape.
struct AlwaysNull;

impl Udf<i64> for AlwaysNull {
    type Output = Option<i64>;

    fn new(_init: &mut UdfInit, _init_args: InitUdfArgsIter<'_>) -> Result<Self, String> {
        Ok(AlwaysNull)
    }

    fn process_row(&self, _args: RowUdfArgsIter<'_>) -> Result<Option<i64>, ()> {
        Ok(None)
    }
}

/// Fails every row, to exercise the error flag.
struct AlwaysErr;

impl Udf<i64> for AlwaysErr {
    type Output = i64;

    fn new(_init: &mut UdfInit, _init_args: InitUdfArgsIter<'_>) -> Result<Self, String> {
        Ok(AlwaysErr)
    }

    fn process_row(&self, _args: RowUdfArgsIter<'_>) -> Result<i64, ()> {
        Err(())
    }
}

#[test]
fn scenario_argument_counter_returns_three() {
    let args = UDF_ARGS {
        cells: vec![int_cell(Some(7)), real_cell(Some(1.5)), text_cell(b"x")],
    };
    let mut initid = fresh_init::<ArgCount>();
    let mut msg = Vec::new();
    assert_eq!(init::<ArgCount, i64>(&mut initid, &args, &mut msg), 0);
    let (mut is_null, mut error) = (0i8, 0i8);
    let r = process_row::<ArgCount, i64>(&mut initid, &args, &mut is_null, &mut error);
    assert_eq!(r, 3);
    assert_eq!(is_null, 0);
    assert_eq!(error, 0);
    deinit(&mut initid);
}

#[test]
fn scenario_integer_sum_skips_nulls() {
    let args = UDF_ARGS {
        cells: vec![int_cell(Some(2)), int_cell(None), int_cell(Some(5))],
    };
    let mut initid = fresh_init::<Add>();
    let mut msg = Vec::new();
    assert_eq!(init::<Add, i64>(&mut initid, &args, &mut msg), 0);
    let (mut is_null, mut error) = (0i8, 0i8);
    let r = process_row::<Add, i64>(&mut initid, &args, &mut is_null, &mut error);
    assert_eq!(r, 7);
    assert_eq!(is_null, 0);
    assert_eq!(error, 0);
    deinit(&mut initid);
}

#[test]
fn scenario_integer_sum_rejects_real_argument() {
    let args = UDF_ARGS { cells: vec![real_cell(Some(1.0))] };
    let mut initid = fresh_init::<Add>();
    let mut msg = Vec::new();
    assert_eq!(init::<Add, i64>(&mut initid, &args, &mut msg), 1);
    assert!(initid.ptr.is_none());
    assert_eq!(*msg.last().unwrap(), 0);
    let text = String::from_utf8(msg[..msg.len() - 1].to_vec()).unwrap();
    assert!(text.contains("is not an integer"));
    assert!(text.contains("Arg 0"));
}

#[test]
fn scenario_mixed_sum_returns_three_point_five() {
    let args = UDF_ARGS { cells: vec![int_cell(Some(1)), real_cell(Some(2.5))] };
    let mut initid = fresh_init::<AddF>();
    let mut msg = Vec::new();
    assert_eq!(init::<AddF, u64>(&mut initid, &args, &mut msg), 0);
    let (mut is_null, mut error) = (0i8, 0i8);
    let bits = process_row::<AddF, u64>(&mut initid, &args, &mut is_null, &mut error);
    assert_eq!(f64::from_bits(bits), 3.5);
    assert_eq!(is_null, 0);
    assert_eq!(error, 0);
    deinit(&mut initid);
}

#[test]
fn overlong_setup_message_is_cut_to_limit_prefix() {
    let args = UDF_ARGS { cells: vec![] };
    let mut initid = fresh_init::<Failing>();
    let mut msg = Vec::new();
    assert_eq!(init::<Failing, i64>(&mut initid, &args, &mut msg), 1);
    assert_eq!(msg.len(), MYSQL_ERRMSG_SIZE + 1);
    assert_eq!(msg[MYSQL_ERRMSG_SIZE], 0);
    assert!(msg[..MYSQL_ERRMSG_SIZE].iter().all(|&b| b == b'x'));
}

#[test]
fn short_message_is_delivered_whole() {
    let mut msg = Vec::new();
    write_error_message(&mut msg, &b"bad arity".to_vec());
    assert_eq!(msg, b"bad arity\0".to_vec());
}

#[test]
fn boundary_length_message_keeps_every_byte() {
    let mut msg = Vec::new();
    write_error_message(&mut msg, &vec![b'y'; MYSQL_ERRMSG_SIZE]);
    assert_eq!(msg.len(), MYSQL_ERRMSG_SIZE + 1);
    assert!(msg[..MYSQL_ERRMSG_SIZE].iter().all(|&b| b == b'y'));
    assert_eq!(msg[MYSQL_ERRMSG_SIZE], 0);
}

#[test]
fn lifecycle_handle_lives_from_setup_to_teardown() {
    for k in [0usize, 1, 5] {
        let args = UDF_ARGS { cells: vec![int_cell(Some(3))] };
        let mut initid = fresh_init::<Add>();
        let mut msg = Vec::new();
        assert!(initid.ptr.is_none());
        assert_eq!(init::<Add, i64>(&mut initid, &args, &mut msg), 0);
        assert!(initid.ptr.is_some());
        for _ in 0..k {
            let (mut is_null, mut error) = (0i8, 0i8);
            let r = process_row::<Add, i64>(&mut initid, &args, &mut is_null, &mut error);
            assert_eq!(r, 3);
            assert!(initid.ptr.is_some());
        }
        deinit(&mut initid);
        assert!(initid.ptr.is_none());
    }
}

#[test]
fn failed_setup_stores_no_handle() {
    let args = UDF_ARGS { cells: vec![real_cell(Some(0.5))] };
    let mut initid = fresh_init::<Add>();
    let mut msg = Vec::new();
    assert_eq!(init::<Add, i64>(&mut initid, &args, &mut msg), 1);
    assert!(initid.ptr.is_none());
}

#[test]
fn null_result_sets_the_null_flag_and_placeholder() {
    let args = UDF_ARGS { cells: vec![] };
    let mut initid = fresh_init::<AlwaysNull>();
    let mut msg = Vec::new();
    assert_eq!(init::<AlwaysNull, i64>(&mut initid, &args, &mut msg), 0);
    assert_eq!(initid.maybe_null, 1);
    let (mut is_null, mut error) = (0i8, 0i8);
    let r = process_row::<AlwaysNull, i64>(&mut initid, &args, &mut is_null, &mut error);
    assert_eq!(r, 0);
    assert_eq!(is_null, 1);
    assert_eq!(error, 0);
    deinit(&mut initid);
}

#[test]
fn row_failure_sets_the_error_flag_and_placeholder() {
    let args = UDF_ARGS { cells: vec![] };
    let mut initid = fresh_init::<AlwaysErr>();
    let mut msg = Vec::new();
    assert_eq!(init::<AlwaysErr, i64>(&mut initid, &args, &mut msg), 0);
    let (mut is_null, mut error) = (0i8, 0i8);
    let r = process_row::<AlwaysErr, i64>(&mut initid, &args, &mut is_null, &mut error);
    assert_eq!(r, 0);
    assert_eq!(is_null, 0);
    assert_eq!(error, 1);
    deinit(&mut initid);
}

#[test]
fn bare_output_shape_presets_nullability_off() {
    let args = UDF_ARGS { cells: vec![] };
    let mut initid = fresh_init::<ArgCount>();
    initid.maybe_null = 1;
    let mut msg = Vec::new();
    assert_eq!(init::<ArgCount, i64>(&mut initid, &args, &mut msg), 0);
    assert_eq!(initid.maybe_null, 0);
    deinit(&mut initid);
}

#[test]
fn nullable_follows_output_shape() {
    assert!(!<i64 as UdfOutput<i64>>::nullable());
    assert!(<Option<i64> as UdfOutput<i64>>::nullable());
    assert!(!<u64 as UdfOutput<u64>>::nullable());
    assert!(<Option<u64> as UdfOutput<u64>>::nullable());
}

#[test]
fn route_output_maps_each_outcome() {
    let (mut is_null, mut error) = (0i8, 0i8);
    assert_eq!(route_output::<i64, i64>(Ok(9), &mut is_null, &mut error), 9);
    assert_eq!((is_null, error), (0, 0));

    let (mut is_null, mut error) = (0i8, 0i8);
    assert_eq!(route_output::<Option<i64>, i64>(Ok(None), &mut is_null, &mut error), 0);
    assert_eq!((is_null, error), (1, 0));

    let (mut is_null, mut error) = (0i8, 0i8);
    assert_eq!(route_output::<Option<i64>, i64>(Ok(Some(4)), &mut is_null, &mut error), 4);
    assert_eq!((is_null, error), (0, 0));

    let (mut is_null, mut error) = (0i8, 0i8);
    assert_eq!(route_output::<i64, i64>(Err(()), &mut is_null, &mut error), 0);
    assert_eq!((is_null, error), (0, 1));
}

/// Writes every setup metadata field, to check the copy-back into the host
/// block.
struct Configuring;

impl Udf<i64> for Configuring {
    type Output = i64;

    fn new(init: &mut UdfInit, _init_args: InitUdfArgsIter<'_>) -> Result<Self, String> {
        init.set_decimals(2);
        init.set_max_length(20);
        init.set_const_item(true);
        init.set_maybe_null(true);
        Ok(Configuring)
    }

    fn process_row(&self, _args: RowUdfArgsIter<'_>) -> Result<i64, ()> {
        Ok(1)
    }
}

#[test]
fn setup_configuration_setters_take_effect() {
    let args = UDF_ARGS { cells: vec![] };
    let mut initid = fresh_init::<Configuring>();
    let mut msg = Vec::new();
    assert_eq!(init::<Configuring, i64>(&mut initid, &args, &mut msg), 0);
    assert_eq!(initid.decimals, 2);
    assert_eq!(initid.max_length, 20);
    assert_eq!(initid.const_item, 1);
    assert_eq!(initid.maybe_null, 1);
    deinit(&mut initid);
}
