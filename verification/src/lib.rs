//! Hardware description metrics: slugs for label values, the metric model
//! that a collector hands out, and the decisions of the indexer data provider.

pub mod text;
pub mod slug;
pub mod model;
pub mod hardware_metrics;
pub mod data_provider;
