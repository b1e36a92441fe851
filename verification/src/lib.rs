//! Decision logic of a batch transcoder: a directory tree is scanned for files
//! with one of several source extensions, an external transcoding program is
//! run once per match, and the source is removed once its conversion succeeded.
//!
//! The crate holds everything that is decided or computed: the usable
//! configuration, the extension matcher, the command line of each conversion,
//! what follows each result of the external program, the counters and the
//! lines that are reported. Walking the tree, running the program and
//! deleting files are left to the caller, which hands in what it observed and
//! carries out what is handed back.
//!
//! - `config`: the settings of a run and when they are usable.
//! - `converter`: a usable configuration; the entry point for a run.
//! - `matcher`: the filter that accepts files with a source extension.
//! - `walk`: the entries of a directory walk and what is decided for each.
//! - `invoke`: the steps of one conversion.
//! - `tally`: the counters of converted files and of errors.
//! - `paths`: output paths and the paths shown in report lines.
//! - `text`: the report lines.

pub mod config;
pub mod converter;
pub mod invoke;
pub mod matcher;
pub mod paths;
pub mod tally;
pub mod text;
pub mod walk;
