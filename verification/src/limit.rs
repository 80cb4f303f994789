//! The page-size limit accepted by the listing endpoints.

use vstd::prelude::*;

verus! {

/// Limits the number of items returned by the API: up to 10 (`Min`),
/// 25 (`Low`), 50 (`High`) or 100 (`Max`) items.
#[derive(Default, Debug, Clone, Copy, PartialEq, Eq, Structural)]
pub enum Limit {
    #[default]
    Min,
    Low,
    High,
    Max,
}

impl Limit {
    /// The numeric page size this limit stands for.
    pub open spec fn spec_value(self) -> u8 {
        match self {
            Limit::Min => 10u8,
            Limit::Low => 25u8,
            Limit::High => 50u8,
            Limit::Max => 100u8,
        }
    }

    pub fn value(&self) -> (r: u8)
        ensures
            r == self.spec_value(),
    {
        match self {
            Limit::Min => 10,
            Limit::Low => 25,
            Limit::High => 50,
            Limit::Max => 100,
        }
    }
}

} // verus!
