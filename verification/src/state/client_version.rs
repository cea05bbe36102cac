use vstd::prelude::*;

verus! {

/// Software version a validator runs.
#[derive(Debug, Clone, Copy)]
pub struct ClientVersion {
    pub major: u8,
    pub minor: u8,
    pub patch: u16,
}

} // verus!
