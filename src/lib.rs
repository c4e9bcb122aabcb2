//! Hot-reload coordination for loaded assets: a per-frame policy that decides
//! when changed assets are swapped for freshly loaded versions, and the pass
//! that performs those swaps while keeping failures isolated per asset.

pub mod laws;
pub mod reload;
pub mod strategy;
pub mod system;
