//! Counts the blank, comment and code lines of source files, by language.
//!
//! The verified core: the registry of languages and their comment syntax
//! (`config`), the per-file line classifier (`calculate`), the fold of
//! per-file results into a report (`detail`, `reporter`), the walk's
//! ignore rule (`explorer`), the laws of a whole run (`pipeline`) and the
//! rendering of a report (`pprint`, `util`).
pub mod calculate;
pub mod config;
pub mod detail;
pub mod error;
pub mod executor;
pub mod explorer;
pub mod options;
pub mod pipeline;
pub mod pprint;
pub mod reporter;
pub mod spinner;
pub mod text;
pub mod util;
