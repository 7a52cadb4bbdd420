//! Which GPU vendor the machine carries, read off a PCI device listing,
//! and the operator's remembered card choice.

use vstd::prelude::*;
use crate::text::{lower_bytes, bytes_contain};

verus! {

/// The GPU vendor a PCI listing reveals.
#[derive(Clone, Copy, Debug, PartialEq, Eq, Structural)]
pub enum GpuType {
    AMD,
    Nvidia,
    Unknown,
}

/// The vendor a PCI device listing names: AMD when the lowercased listing
/// mentions `amd` or `ati`, otherwise NVIDIA when it mentions `nvidia`,
/// otherwise unknown.
pub open spec fn spec_gpu_type(listing: Seq<u8>) -> GpuType {
    let low = lower_bytes(listing);
    if bytes_contain(low, "amd"@.map_values(|c: char| c as u8)) || bytes_contain(
        low,
        "ati"@.map_values(|c: char| c as u8),
    ) {
        GpuType::AMD
    } else if bytes_contain(low, "nvidia"@.map_values(|c: char| c as u8)) {
        GpuType::Nvidia
    } else {
        GpuType::Unknown
    }
}

/// Classify the GPU vendor from a PCI device listing (the raw bytes of the
/// machine's device table as the enumeration tool prints it).
pub fn detect_gpu_type(listing: &[u8]) -> (r: GpuType)
    ensures
        r == spec_gpu_type(listing@),
{
    let low = crate::text::to_lower_bytes(listing);
    proof {
        reveal_strlit("amd");
        reveal_strlit("ati");
        reveal_strlit("nvidia");
        assert("amd".is_ascii());
        assert("ati".is_ascii());
        assert("nvidia".is_ascii());
    }
    let amd = crate::text::contains_bytes(low.as_slice(), crate::text::ascii_bytes("amd"));
    let ati = crate::text::contains_bytes(low.as_slice(), crate::text::ascii_bytes("ati"));
    let nvidia = crate::text::contains_bytes(low.as_slice(), crate::text::ascii_bytes("nvidia"));
    if amd || ati {
        GpuType::AMD
    } else if nvidia {
        GpuType::Nvidia
    } else {
        GpuType::Unknown
    }
}

/// The card the operator picked, remembered across screens.
pub struct GpuSelection {
    pub name: String,
}

impl GpuSelection {
    pub fn new() -> (r: Self)
        ensures
            r.name@.len() == 0,
    {
        GpuSelection { name: String::new() }
    }

    /// Remember the picked card.
    pub fn set_selected_gpu(&mut self, name: String)
        ensures
            final(self).name == name,
    {
        self.name = name;
    }

    /// The remembered card, or the empty string when none was picked.
    pub fn get_selected_gpu(&self) -> (r: String)
        ensures
            r == self.name,
    {
        self.name.clone()
    }
}

} // verus!
