//! Catalogs of cloud connectors, one module per provider.

pub mod aws;
