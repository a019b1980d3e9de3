// A disk-usage analyzer: the entry tree and its aggregates, the hardlink
// registry, natural ordering and sorting of siblings, the per-object scan
// decisions, configuration and the helpers that format what is shown.
use vstd::prelude::*;

pub mod cli;
pub mod config;
pub mod error;
pub mod export;
pub mod hardlink;
pub mod model;
pub mod natural;
pub mod progress;
pub mod scanner;
pub mod sorting;
pub mod text;
pub mod ui;
pub mod utils;

verus! {

} // verus!
