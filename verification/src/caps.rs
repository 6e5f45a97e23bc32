//! Process capabilities: the two bitmaps the kernel reports and the test
//! that both network capabilities are effective.

use vstd::prelude::*;

verus! {

/// Number of the capability that permits binding to privileged ports.
pub const CAP_NET_BIND_SERVICE: u32 = 10;

/// Number of the capability that permits transparent sockets.
pub const CAP_NET_ADMIN: u32 = 12;

/// Version word of the 64-bit capability interface.
pub const LINUX_CAPABILITY_VERSION_3: u32 = 0x2008_0522;

/// One 32-bit slice of the three capability sets of a process.
#[derive(Clone, Copy, Debug, PartialEq, Eq, Structural)]
pub struct CapData {
    pub effective: u32,
    pub permitted: u32,
    pub inheritable: u32,
}

impl Default for CapData {
    fn default() -> (data: Self)
        ensures
            data.effective == 0,
            data.permitted == 0,
            data.inheritable == 0,
    {
        CapData { effective: 0, permitted: 0, inheritable: 0 }
    }
}

/// Whether bit `bit` (counted from the least significant) of `word` is set.
pub open spec fn bit_is_set(word: u32, bit: u32) -> bool {
    word & (1u32 << bit) != 0
}

/// Whether capability `cap` is in the effective set that `words` describes:
/// word `cap / 32`, bit `cap % 32`. Capabilities past the last word are not
/// held.
pub open spec fn cap_effective(words: Seq<CapData>, cap: u32) -> bool {
    &&& cap / 32 < words.len()
    &&& bit_is_set(words[cap as int / 32].effective, cap % 32)
}

/// Whether both network capabilities are effective.
pub open spec fn net_capable(words: Seq<CapData>) -> bool {
    cap_effective(words, CAP_NET_ADMIN) && cap_effective(words, CAP_NET_BIND_SERVICE)
}

/// Index of the word that holds capability `x`.
pub fn cap_to_index(x: u32) -> (index: usize)
    ensures
        index == x / 32,
{
    assert(x >> 5u32 == x / 32) by (bit_vector);
    (x >> 5u32) as usize
}

/// Mask that selects capability `x` inside its word.
pub fn cap_to_mask(x: u32) -> (mask: u32)
    ensures
        mask == 1u32 << (x % 32),
        forall|word: u32| word & mask != 0 <==> bit_is_set(word, x % 32),
{
    assert(x & 31u32 == x % 32) by (bit_vector);
    1u32 << (x & 31u32)
}

/// Tests one capability against the effective bitmaps.
pub fn has_capability(words: &[CapData; 2], cap: u32) -> (held: bool)
    ensures
        held == cap_effective(words@, cap),
{
    let index: usize = cap_to_index(cap);
    if index >= 2 {
        return false;
    }
    words[index].effective & cap_to_mask(cap) != 0
}

/// Tests that both `CAP_NET_ADMIN` and `CAP_NET_BIND_SERVICE` are effective.
pub fn is_capable(words: &[CapData; 2]) -> (capable: bool)
    ensures
        capable == net_capable(words@),
{
    has_capability(words, CAP_NET_ADMIN) && has_capability(words, CAP_NET_BIND_SERVICE)
}

} // verus!
