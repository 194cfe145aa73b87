//! Operation and event names by number.

use vstd::prelude::*;
use crate::albion::codes::{first_with, CodeTable, EventCode, OperationCode};

verus! {

/// The operation a number stands for in the table.
pub fn operation(table: &CodeTable, code: i32) -> (r: Option<OperationCode>)
    ensures
        r == first_with(table.operations@, code),
{
    table.operation(code)
}

/// The event a number stands for in the table.
pub fn event(table: &CodeTable, code: i32) -> (r: Option<EventCode>)
    ensures
        r == first_with(table.events@, code),
{
    table.event(code)
}

} // verus!
