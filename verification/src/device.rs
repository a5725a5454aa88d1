//! Handle for an attached loop device and the derived names of its two
//! partitions.

use vstd::prelude::*;
use vstd::string::StringExecFns;

verus! {

/// An attached loop device, holding the device path the attach call
/// returned (such as `/dev/loop0`). The kernel names the device's
/// partitions by a fixed suffixing convention: `p1` is the boot (ESP)
/// partition and `p2` the root partition.
#[derive(Debug, Clone, PartialEq)]
pub struct LoopDev(pub String);

impl View for LoopDev {
    type V = Seq<char>;

    open spec fn view(&self) -> Seq<char> {
        self.0@
    }
}

impl LoopDev {
    /// Device path of the boot (ESP) partition: the device path with
    /// `p1` appended.
    pub fn boot_partition(&self) -> (path: String)
        ensures
            path@ == self@ + "p1"@,
    {
        self.0.clone().concat("p1")
    }

    /// Device path of the root partition: the device path with `p2`
    /// appended.
    pub fn root_partition(&self) -> (path: String)
        ensures
            path@ == self@ + "p2"@,
    {
        self.0.clone().concat("p2")
    }
}

} // verus!
