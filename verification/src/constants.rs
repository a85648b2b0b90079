use vstd::prelude::*;

verus! {

/// Outbound execute messages are padded to multiples of this many bytes so
/// that their length leaks as little as possible about their contents.
pub const BLOCK_SIZE: usize = 256;

} // verus!
