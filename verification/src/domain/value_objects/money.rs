//! An amount of money in the smallest unit of its currency.
use vstd::prelude::*;

verus! {

#[derive(Clone, Debug)]
pub struct Money {
    pub currency: String,
    pub amount_cents: i32,
}

} // verus!
