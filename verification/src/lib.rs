//! Ingestion and migration logic of a software-supply-chain knowledge base:
//! advisory ingestion plans for OSV records, CPE lookups, the schema migration
//! catalogue and the data-migration command line, each with a verified contract.

pub mod cpe;
pub mod curation;
pub mod data_command;
pub mod m0001200_add_sbom_node_checksum_idx;
pub mod m0002000_example_data_migration;
pub mod migration;
pub mod model;
pub mod osv_json;
pub mod osv_loader;
pub mod osv_model;
pub mod prefix;
pub mod schema_change;
pub mod text;
