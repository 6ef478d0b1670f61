//! Typed heterogeneous storage with run-time checked borrows.

pub mod cell;
pub mod res;
pub mod system;

pub use cell::{BorrowError, BorrowFlag};
pub use res::{
    Fetch, FetchId, FetchIdMut, FetchMut, Resource, ResourceError, ResourceId, Resources,
};
pub use system::SystemData;
