use vstd::prelude::*;

verus! {

/// Relies on rand::random: draws a value from the thread-local generator
/// under the Standard distribution. Nothing can be promised of a random
/// value, so no clause constrains the result; every caller states what
/// holds of its own outcome whatever comes back.
pub assume_specification<T>[ rand::random::<T> ]() -> (r: T)
    where
        rand::distributions::Standard: rand::distributions::Distribution<T>,
;

} // verus!
