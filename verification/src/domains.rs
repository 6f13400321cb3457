//! The fixed, ordered set of clock domains.
//!
//! Current and maximum clock arrays are indexed positionally: index `i`
//! always holds the reading for the domain with `domain_index` `i`, in the
//! fixed order Graphics, Shader, Memory, Video.

use vstd::prelude::*;

verus! {

/// How many clock domains the snapshot tracks.
pub const CLOCK_DOMAIN_COUNT: usize = 4;

/// One clock domain of the device.
#[derive(Clone, Copy, Debug, PartialEq, Eq, Structural)]
pub enum ClockDomain {
    Graphics,
    Shader,
    Memory,
    Video,
}

/// The fixed position of a domain in the clock arrays.
pub open spec fn domain_index(d: ClockDomain) -> int {
    match d {
        ClockDomain::Graphics => 0,
        ClockDomain::Shader => 1,
        ClockDomain::Memory => 2,
        ClockDomain::Video => 3,
    }
}

/// The domain stored at position `i` of the clock arrays.
pub fn clock_domain_at(i: usize) -> (d: ClockDomain)
    requires
        i < 4,
    ensures
        domain_index(d) == i,
{
    if i == 0 {
        ClockDomain::Graphics
    } else if i == 1 {
        ClockDomain::Shader
    } else if i == 2 {
        ClockDomain::Memory
    } else {
        ClockDomain::Video
    }
}

/// The position of domain `d` in the clock arrays.
pub fn domain_position(d: ClockDomain) -> (i: usize)
    ensures
        i == domain_index(d),
{
    match d {
        ClockDomain::Graphics => 0,
        ClockDomain::Shader => 1,
        ClockDomain::Memory => 2,
        ClockDomain::Video => 3,
    }
}

/// Positions determine domains: the clock arrays have one slot per domain,
/// so two domains sharing a slot are the same domain.
pub proof fn lemma_domain_index_injective(a: ClockDomain, b: ClockDomain)
    requires
        domain_index(a) == domain_index(b),
    ensures
        a == b,
{
}

} // verus!
