use vstd::prelude::*;

verus! {

/// Commands of the cluster menu.
#[derive(Debug, Clone, Copy, PartialEq, Eq, Structural)]
pub enum ClusterCommand {
    EpochInfo,
    CurrentSlot,
    BlockHeight,
    BlockTime,
    Validators,
    ClusterVersion,
    SupplyInfo,
    Inflation,
    GoBack,
}

} // verus!
