//! Ingestion core of a personal budget tool: normalising vendor descriptions,
//! parsing bank export rows, reconciling descriptions against stored metadata,
//! collecting new metadata and totalling amounts.

pub mod text;
pub mod normalize;
pub mod merchants;
pub mod amount;
pub mod date;
pub mod record;
pub mod reconcile;
pub mod totals;
pub mod metadata;
