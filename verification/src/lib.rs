pub mod config;
pub mod heuristics;
pub mod laws;
pub mod matcher;
pub mod pipeline;
pub mod text;
pub mod transformer;

pub use config::{AppConfig, ColumnStrategy, TableConfig};
pub use heuristics::guess_strategy;
pub use laws::{lemma_cross_column_consistency, lemma_generate_deterministic, lemma_keep_identity,
    lemma_mismatch_safety, lemma_passthrough, lemma_quote_preservation_quoted,
    lemma_quote_preservation_unquoted_mask, lemma_untracked_passthrough};
pub use matcher::{match_insert, match_insert_header};
pub use pipeline::{split_columns, Pipeline};
pub use transformer::Transformer;
