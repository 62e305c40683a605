//! Machine records, their classification and the list-query filter.

pub mod brand;
pub mod disk;
pub mod filter;
pub mod machine;
pub mod models;
pub mod nic;
pub mod normalize;
pub mod opaque;
pub mod state;
pub mod text;
pub mod vm;

pub use brand::{classify_brand, Brand, MachineType, SmartMachine, VirtualMachine};
pub use disk::Disk;
pub use filter::{Criterion, CriterionValue, ListVmInput};
pub use machine::{Machine, NormalizeError};
pub use models::{DiskModel, NicModel, ZfsDataCompression};
pub use nic::{IpAddress, NetworkObject, Nic};
pub use normalize::{
    normalize_batch, normalize_fetched, resolve_disk_size, resolve_image, NormalizedBatch,
};
pub use state::{classify_state, MachineState, State};
pub use vm::Vm;
