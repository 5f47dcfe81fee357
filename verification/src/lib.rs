//! Low-rank adapters on linear layers, selected and scaled per position.
//!
//! A model's linear layers are built through [`linear`] and
//! [`linear_no_bias`]: for each module they decide whether it stays a
//! [`FrozenLayer`] or becomes an [`AdapterLayer`], and hand back a
//! [`LoraLayer`] that is used through [`LinearLayerLike`] either way.

pub mod adapter;
pub mod config;
pub mod engine;
pub mod error;
pub mod factory;
pub mod frozen;
pub mod layer;
pub mod names;
pub mod scalings;
pub mod shape;
pub mod store;

pub use adapter::{Adapter, AdapterLayer};
pub use config::LoraConfig;
pub use error::LoraError;
pub use factory::{linear, linear_no_bias, place, Placement};
pub use frozen::FrozenLayer;
pub use layer::{LinearLayerLike, LoraLayer};
pub use store::VarStore;
