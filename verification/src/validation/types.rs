//! The rules for limits and for the types of functions, tables, memories and globals.

use crate::types::{FunctionType, GlobalType, Limits, MemoryType, TableType, ValueType};
use crate::validation::validation::{
    broken, finds, ValidationError, ValidationResult, Verdict,
};
use vstd::prelude::*;

verus! {

// The messages of the rules for types.
pub const LIMIT_MINIMUM_ABOVE_RANGE: &'static str = "Limit minimum is above valid range";
pub const LIMIT_MAXIMUM_ABOVE_RANGE: &'static str = "Limit maximum is above valid range";
pub const LIMIT_MAXIMUM_BELOW_MINIMUM: &'static str = "Limit maximum is below minimum";
pub const TOO_MANY_RESULTS: &'static str = "Too many return value";

/// The most that the limits of a table can be.
pub const TABLE_RANGE: u32 = 0xFFFF_FFFF;

/// The most that the limits of a memory can be, in pages of 64 KiB.
pub const MEMORY_RANGE: u32 = 0x1_0000;

/// Limits are valid within `range` where the minimum is at most `range` and the maximum,
/// if there is one, is at most `range` and at least the minimum.
pub open spec fn limits_verdict(limits: Limits, range: u32) -> Verdict {
    if limits.min > range {
        broken(LIMIT_MINIMUM_ABOVE_RANGE)
    } else {
        match limits.max {
            Some(max) => {
                if max > range {
                    broken(LIMIT_MAXIMUM_ABOVE_RANGE)
                } else if max < limits.min {
                    broken(LIMIT_MAXIMUM_BELOW_MINIMUM)
                } else {
                    Ok(())
                }
            },
            None => Ok(()),
        }
    }
}

/// A function type is valid where it has at most one result.
pub open spec fn function_type_verdict(function_type: (Seq<ValueType>, Seq<ValueType>)) -> Verdict {
    if function_type.1.len() > 1 {
        broken(TOO_MANY_RESULTS)
    } else {
        Ok(())
    }
}

/// A table type is valid where its limits are valid within 2^32 - 1.
pub open spec fn table_type_verdict(table_type: TableType) -> Verdict {
    limits_verdict(table_type.limits, TABLE_RANGE)
}

/// A memory type is valid where its limits are valid within 2^16 pages.
pub open spec fn memory_type_verdict(memory_type: MemoryType) -> Verdict {
    limits_verdict(memory_type.limits, MEMORY_RANGE)
}

/// Checks limits against a range.
pub fn validate_limits(limits: &Limits, range: u32) -> (r: ValidationResult)
    ensures
        finds(r, limits_verdict(*limits, range)),
{
    if limits.min > range {
        return Err(ValidationError::from(LIMIT_MINIMUM_ABOVE_RANGE));
    }
    match limits.max {
        Some(max) => {
            if max > range {
                return Err(ValidationError::from(LIMIT_MAXIMUM_ABOVE_RANGE));
            }
            if max < limits.min {
                return Err(ValidationError::from(LIMIT_MAXIMUM_BELOW_MINIMUM));
            }
            Ok(())
        },
        None => Ok(()),
    }
}

/// Checks a function type.
pub fn validate_function_type(function_type: &FunctionType) -> (r: ValidationResult)
    ensures
        finds(r, function_type_verdict(function_type@)),
{
    if function_type.1.len() > 1 {
        return Err(ValidationError::from(TOO_MANY_RESULTS));
    }
    Ok(())
}

/// Checks a table type.
pub fn validate_table_type(table_type: &TableType) -> (r: ValidationResult)
    ensures
        finds(r, table_type_verdict(*table_type)),
{
    validate_limits(&table_type.limits, TABLE_RANGE)
}

/// Checks a memory type.
pub fn validate_memory_type(memory_type: &MemoryType) -> (r: ValidationResult)
    ensures
        finds(r, memory_type_verdict(*memory_type)),
{
    validate_limits(&memory_type.limits, MEMORY_RANGE)
}

/// Checks a global type: every global type is valid.
pub fn validate_global_type(_global_type: &GlobalType) -> (r: ValidationResult)
    ensures
        r is Ok,
{
    Ok(())
}

} // verus!
