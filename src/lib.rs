//! Adapters that spare boilerplate around yew's component model: an equality
//! test on incoming properties, a wrapper for pure components, a wrapper that
//! keeps fetched data, and a two-phase producer of child component nodes.

pub mod props_update;
pub mod persist_fetching;
pub mod pure;
pub mod vcomp;

pub use persist_fetching::{PersistFetching, PersistFetchingProps, Render, Rendered};
pub use pure::{Emissive, Pure, PureComponent, PureEmissiveComponent};
pub use vcomp::{BoundComp, VCompProducer};
