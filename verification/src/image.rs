//! The runtime-image initializer: zero-fill of the uninitialized data
//! region and the copy of the preloaded data region from its load location
//! to its run location.
//!
//! The linker supplies the region boundaries; here each region is a byte
//! buffer. Initialization must run once, before anything reads a statically
//! declared mutable variable, and is idempotent.

use vstd::prelude::*;

verus! {

/// The three byte regions the initializer touches: the zero-fill region,
/// the run-location data region, and the load-location image of the data
/// region. The linker guarantees that data and its load image have the same
/// length.
pub struct ImageRegions {
    pub bss: Vec<u8>,
    pub data: Vec<u8>,
    pub data_load: Vec<u8>,
}

/// Zero every byte of the region, keeping its length.
pub fn zero_bss(region: &mut Vec<u8>)
    ensures
        final(region)@.len() == old(region)@.len(),
        forall|i: int| 0 <= i < final(region)@.len() ==> final(region)@[i] == 0u8,
{
    let n = region.len();
    let mut i: usize = 0;
    while i < n
        invariant
            i <= n,
            region@.len() == n,
            forall|k: int| 0 <= k < i ==> region@[k] == 0u8,
        decreases n - i,
    {
        region.set(i, 0);
        i = i + 1;
    }
}

/// Copy the load-time image into the run-location region, byte for byte.
pub fn init_data(data: &mut Vec<u8>, data_load: &Vec<u8>)
    requires
        old(data)@.len() == data_load@.len(),
    ensures
        final(data)@ == data_load@,
{
    let n = data.len();
    let mut i: usize = 0;
    while i < n
        invariant
            i <= n,
            data@.len() == n,
            data_load@.len() == n,
            forall|k: int| 0 <= k < i ==> data@[k] == data_load@[k],
        decreases n - i,
    {
        data.set(i, data_load[i]);
        i = i + 1;
    }
    proof {
        assert(data@ =~= data_load@);
    }
}

/// Establish the runtime image: after it, every byte of the zero-fill
/// region reads as zero and the data region equals its load-time image.
pub fn init_bss(regions: &mut ImageRegions)
    requires
        old(regions).data@.len() == old(regions).data_load@.len(),
    ensures
        final(regions).bss@.len() == old(regions).bss@.len(),
        forall|i: int| 0 <= i < final(regions).bss@.len() ==> final(regions).bss@[i] == 0u8,
        final(regions).data@ == old(regions).data_load@,
        final(regions).data_load@ == old(regions).data_load@,
{
    zero_bss(&mut regions.bss);
    init_data(&mut regions.data, &regions.data_load);
}

/// Running the initializer a second time is a no-op: a region that is
/// already zeroed stays zeroed, and a region already equal to its load
/// image stays equal to it, since the result depends only on the region
/// lengths and the load image, none of which the initializer changes.
pub proof fn lemma_init_bss_idempotent(
    before: ImageRegions,
    once: ImageRegions,
    twice: ImageRegions,
)
    requires
        once.bss@.len() == before.bss@.len(),
        forall|i: int| 0 <= i < once.bss@.len() ==> once.bss@[i] == 0u8,
        once.data@ == before.data_load@,
        once.data_load@ == before.data_load@,
        twice.bss@.len() == once.bss@.len(),
        forall|i: int| 0 <= i < twice.bss@.len() ==> twice.bss@[i] == 0u8,
        twice.data@ == once.data_load@,
        twice.data_load@ == once.data_load@,
    ensures
        twice.bss@ =~= once.bss@,
        twice.data@ == once.data@,
        twice.data_load@ == once.data_load@,
{
}

} // verus!
