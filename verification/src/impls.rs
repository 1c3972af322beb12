use vstd::prelude::*;

verus! {

/// Narrows a number from the platform to the width that events hold,
/// keeping its low bits.
pub trait TraitInto<T>: Sized {
    spec fn narrowed(self) -> T;

    fn into_diy(self) -> (value: T)
        ensures
            value == self.narrowed(),
    ;
}

impl TraitInto<i32> for i64 {
    open spec fn narrowed(self) -> i32 {
        self as i32
    }

    fn into_diy(self) -> (value: i32) {
        #[verifier::truncate]
        (self as i32)
    }
}

impl TraitInto<u32> for i64 {
    open spec fn narrowed(self) -> u32 {
        self as u32
    }

    fn into_diy(self) -> (value: u32) {
        #[verifier::truncate]
        (self as u32)
    }
}

/// Widens a number that an event holds to the width that the platform
/// takes, keeping its value.
pub trait TraitReverseInto<T>: Sized {
    spec fn widened(self) -> T;

    fn into_std(self) -> (value: T)
        ensures
            value == self.widened(),
    ;
}

impl TraitReverseInto<i64> for i32 {
    open spec fn widened(self) -> i64 {
        self as i64
    }

    fn into_std(self) -> (value: i64) {
        self as i64
    }
}

impl TraitReverseInto<u64> for u32 {
    open spec fn widened(self) -> u64 {
        self as u64
    }

    fn into_std(self) -> (value: u64) {
        self as u64
    }
}

} // verus!
