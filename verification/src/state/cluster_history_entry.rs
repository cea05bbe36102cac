use vstd::prelude::*;

verus! {

/// One epoch of cluster-wide history.
pub struct ClusterHistoryEntry {
    pub total_blocks: u32,
    pub epoch: u16,
    pub padding0: [u8; 2],
    pub epoch_start_timestamp: u64,
    pub padding: [u8; 240],
}

impl ClusterHistoryEntry {
    /// Every field of the default entry holds its type's largest value, which marks it unset.
    pub open spec fn is_default(self) -> bool {
        &&& self.total_blocks == u32::MAX
        &&& self.epoch == u16::MAX
        &&& self.padding0@ == seq![u8::MAX, u8::MAX]
        &&& self.epoch_start_timestamp == u64::MAX
        &&& forall|i: int| 0 <= i < 240 ==> #[trigger] self.padding@[i] == u8::MAX
    }
}

impl Default for ClusterHistoryEntry {
    fn default() -> (entry: Self)
        ensures
            entry.is_default(),
    {
        broadcast use vstd::array::group_array_axioms;
        let entry = Self {
            total_blocks: u32::MAX,
            epoch: u16::MAX,
            padding0: [u8::MAX; 2],
            epoch_start_timestamp: u64::MAX,
            padding: [u8::MAX; 240],
        };
        assert(entry.padding0@ =~= seq![u8::MAX, u8::MAX]);
        entry
    }
}

} // verus!
