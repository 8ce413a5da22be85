//! What the Vulkan instance is created with.

use vstd::prelude::*;

verus! {

/// The instance extensions asked for when validation layers are on: those
/// the window system requires, then those validation adds, in that order.
pub fn add_validation_extension<T: Copy>(required_extensions: &[T], validation_extensions: &[T]) -> (v: Vec<T>)
    ensures
        v@ == required_extensions@ + validation_extensions@,
{
    let mut array: Vec<T> = Vec::new();
    let mut i: usize = 0;
    while i < required_extensions.len()
        invariant
            i <= required_extensions@.len(),
            array@ == required_extensions@.subrange(0, i as int),
        decreases required_extensions@.len() - i,
    {
        array.push(required_extensions[i]);
        i = i + 1;
        assert(array@ =~= required_extensions@.subrange(0, i as int));
    }
    let mut k: usize = 0;
    while k < validation_extensions.len()
        invariant
            k <= validation_extensions@.len(),
            array@ == required_extensions@ + validation_extensions@.subrange(0, k as int),
        decreases validation_extensions@.len() - k,
    {
        array.push(validation_extensions[k]);
        k = k + 1;
        assert(array@ =~= required_extensions@ + validation_extensions@.subrange(0, k as int));
    }
    assert(validation_extensions@.subrange(0, k as int) =~= validation_extensions@);
    array
}

} // verus!
