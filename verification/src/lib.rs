//! Verified core of a meshless finite-mass hydrodynamics code.

pub mod batches;
pub mod binary64;
pub mod cell_list_2d;
pub mod columns_1d;
pub mod entropic;
pub mod estimates;
pub mod extremes;
pub mod fault;
pub mod grain;
pub mod hierarchy_2d;
pub mod hydro_error;
pub mod hydro_evolution_2d;
pub mod incidence;
pub mod individual_timeline;
pub mod kdk;
pub mod kernel;
pub mod meshless_2d;
pub mod message;
pub mod mhd;
pub mod mhd_2d;
pub mod mhd_evolution;
pub mod neighbors_1d;
pub mod order;
pub mod pairs;
pub mod riemann;
pub mod smoothing;
pub mod synchronized_timeline;
pub mod ticks;
pub mod timestep;
pub mod tree_seeds;

pub use crate::binary64::Binary64;
pub use crate::columns_1d::MfmState1d;
pub use crate::entropic::EntropicPoint1d;
pub use crate::hydro_error::HydroError;
pub use crate::kdk::MfmKdkStep1d;
pub use crate::neighbors_1d::{BoundaryMode1d, NeighborIndex1d};
pub use crate::riemann::{
    FaceStates1d, MeshlessFace1d, MeshlessPoint1d, PairSolvePath, PrimitiveState1d,
    ReconstructionOrder, RiemannMethod,
};
pub use crate::synchronized_timeline::{SynchronizedStep1d, SynchronizedTimeline1d};
pub use crate::ticks::LEGACY_TIMEBASE_TICKS;
pub use crate::timestep::{TimestepBound1d, TimestepSelection1d};
