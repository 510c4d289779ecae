//! Connection pooling, streaming query execution and column marshalling for
//! a SQL Server shell plugin.

pub mod args;
pub mod cell;
pub mod commands;
pub mod connect;
pub mod marshal;
pub mod pool;
pub mod stream;
pub mod value;

use vstd::prelude::*;

verus! {

/// Number of rows buffered ahead of the consumer when the caller names none.
pub const DEFAULT_BUFFER_SIZE: usize = 10;

} // verus!
