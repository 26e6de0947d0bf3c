//! What a run is configured with, built once and passed on explicitly.

use vstd::prelude::*;

verus! {

/// The number of rows sampled where nothing else is asked for.
pub const DEFAULT_SAMPLE_SIZE: usize = 500;

/// The configuration of one run.
#[derive(Clone, Debug, PartialEq, Eq)]
pub struct Config {
    /// Where the data comes from; shown in the heading of the table.
    pub path: String,
    /// A query over the data. Reserved: nothing reads it yet.
    pub query: Option<String>,
    /// The largest number of rows that inference looks at.
    pub sample_size: usize,
}

impl Config {
    /// A configuration is valid where it samples at least one row.
    pub open spec fn is_valid(&self) -> bool {
        self.sample_size > 0
    }

    /// The configuration for `path`, with the default sample size.
    pub fn new(path: String, query: Option<String>) -> (out: Config)
        ensures
            out.path == path,
            out.query == query,
            out.sample_size == DEFAULT_SAMPLE_SIZE,
            out.is_valid(),
    {
        Config { path, query, sample_size: DEFAULT_SAMPLE_SIZE }
    }

    /// The same configuration with another sample size; none for a sample
    /// size of zero.
    pub fn with_sample_size(self, sample_size: usize) -> (out: Option<Config>)
        ensures
            out is None <==> sample_size == 0,
            out matches Some(config) ==> {
                &&& config.path == self.path
                &&& config.query == self.query
                &&& config.sample_size == sample_size
                &&& config.is_valid()
            },
    {
        if sample_size == 0 {
            None
        } else {
            Some(Config { path: self.path, query: self.query, sample_size })
        }
    }
}

} // verus!
