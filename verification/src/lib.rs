//! A safe, verified core for writing host-loaded row-level extension
//! functions. The host engine drives every extension through three fixed
//! calls — setup, per-row evaluation, teardown — and hands arguments over as
//! tagged cells. This crate models that boundary with plain data and proves
//! the marshalling logic that connects it to a strongly typed extension
//! implementation.

pub mod args;
pub mod config;
pub mod contract;
pub mod host;
pub mod lifecycle;
pub mod value;

pub use crate::args::{InitUdfArg, InitUdfArgsIter, RowUdfArg, RowUdfArgsIter};
pub use crate::config::UdfInit;
pub use crate::contract::{Udf, UdfOutput};
pub use crate::host::{my_bool, ArgCell, UDF_ARGS, UDF_INIT, MYSQL_ERRMSG_SIZE};
pub use crate::host::{DECIMAL_RESULT, INT_RESULT, REAL_RESULT, STRING_RESULT};
pub use crate::lifecycle::{deinit, init, process_row, route_output, write_error_message};
pub use crate::value::ArgValue;
