use vstd::prelude::*;

verus! {

/// The frequency reported for the machine: that of the first core, in MHz, or zero
/// when the platform lists no core.
pub fn cpu_frequency(core_frequencies: &Vec<u64>) -> (r: u64)
    ensures
        core_frequencies@.len() == 0 ==> r == 0,
        core_frequencies@.len() > 0 ==> r == core_frequencies@[0],
{
    if core_frequencies.len() > 0 {
        core_frequencies[0]
    } else {
        0
    }
}

} // verus!
