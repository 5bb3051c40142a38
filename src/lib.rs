pub mod header_analyzer;
pub mod pattern;
pub mod scan;
pub mod text;

pub use header_analyzer::{Finding, HeaderAnalyzer, HeaderRule};
pub use pattern::{compile_patterns, ExploitPattern, PatternError};
pub use scan::{
    or_pattern_match, pattern_finding, scan_headers, search_headers, FetchOutcome, Header,
    UrlFindings,
};
