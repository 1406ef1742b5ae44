use vstd::prelude::*;

verus! {

/// Relies on num::cast (ToPrimitive::to_i32 for i64): the conversion returns
/// the same value as an i32 exactly when it lies within i32's range, and
/// None otherwise.
#[verifier::external_body]
pub(crate) fn narrow_i64_to_i32(v: i64) -> (r: Option<i32>)
    ensures
        r == if i32::MIN <= v <= i32::MAX {
            Some(v as i32)
        } else {
            None::<i32>
        },
{
    num::cast(v)
}

} // verus!
