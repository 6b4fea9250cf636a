//! Building blocks for concrete nodes.
//!
//! Full sensor, control and perception nodes live with the
//! application around the library: their work is sampling hardware
//! (or simulating it with random draws) and floating-point signal
//! processing, neither of which belongs in the verified core. What
//! they share — the lifecycle, statistics and bus bookkeeping — is
//! `BaseNode`; here lives the remaining common piece, the
//! configuration of a data generator.

use vstd::prelude::*;

verus! {

/// Configuration of a source of simulated sensor readings: which kind
/// of data it produces. The drawing of the random readings themselves
/// is the application's, not the library's.
#[derive(Debug)]
pub struct RandomDataGenerator {
    pub data_type: String,
}

impl RandomDataGenerator {
    /// Create a generator configuration for this kind of data.
    pub fn new(data_type: String) -> (r: Self)
        ensures
            r.data_type == data_type,
    {
        RandomDataGenerator { data_type }
    }

    /// The kind of data this generator produces.
    pub fn data_type(&self) -> (r: &str)
        ensures
            r@ == self.data_type@,
    {
        self.data_type.as_str()
    }
}

} // verus!
