//! The configuration of a run and the conditions under which it is usable.

use crate::paths::{is_separator_free, separator_free};
use vstd::prelude::*;

verus! {

/// The settings of one run, as given on the command line.
#[derive(Debug)]
pub struct Args {
    /// Report what would be done instead of doing it.
    pub dry_run: bool,
    /// The extension that files are converted to.
    pub output: String,
    /// The directory that is searched.
    pub target_dir: String,
    /// The deepest level that is searched; unlimited where absent.
    pub max_depth: Option<usize>,
    /// Follow symbolic links.
    pub follow_links: bool,
    /// Stay on the file system of the target directory.
    pub same_fs: bool,
    /// The number of worker threads; the number of processors where absent.
    pub num_threads: Option<usize>,
    /// Keep a source file after its conversion succeeded.
    pub preserve_files: bool,
    /// The extensions that files are converted from, without a leading dot.
    pub inputs: Vec<String>,
    /// Arguments handed through to the transcoder, between input and output.
    pub ffmpeg_args: Vec<String>,
}

/// Why a configuration cannot be used.
#[derive(Debug, Clone, Copy, PartialEq, Eq)]
pub enum ConfigError {
    /// No source extension is given.
    NoSourceExtension,
    /// The target extension is empty.
    EmptyTargetExtension,
    /// The target extension holds a path separator.
    SeparatorInTargetExtension,
}

impl ConfigError {
    /// The message that describes the error.
    pub fn message(&self) -> (text: String)
        ensures
            text@ == match *self {
                ConfigError::NoSourceExtension => "no source extension given"@,
                ConfigError::EmptyTargetExtension => "the target extension is empty"@,
                ConfigError::SeparatorInTargetExtension =>
                    "the target extension holds a path separator"@,
            },
    {
        match self {
            ConfigError::NoSourceExtension => String::from_str("no source extension given"),
            ConfigError::EmptyTargetExtension => String::from_str("the target extension is empty"),
            ConfigError::SeparatorInTargetExtension => String::from_str(
                "the target extension holds a path separator",
            ),
        }
    }
}

impl Args {
    /// What is wrong with the settings, if anything: the conditions are
    /// examined in the order of the variants of `ConfigError`.
    pub open spec fn defect(&self) -> Option<ConfigError> {
        if self.inputs@.len() == 0 {
            Some(ConfigError::NoSourceExtension)
        } else if self.output@.len() == 0 {
            Some(ConfigError::EmptyTargetExtension)
        } else if !separator_free(self.output@) {
            Some(ConfigError::SeparatorInTargetExtension)
        } else {
            None
        }
    }

    /// The settings can be used: there is a source extension, and the target
    /// extension is not empty and holds no path separator.
    pub open spec fn usable(&self) -> bool {
        self.defect() is None
    }

    /// Examines the settings.
    pub fn check(&self) -> (found: Result<(), ConfigError>)
        ensures
            match found {
                Ok(()) => self.defect() is None,
                Err(error) => self.defect() == Some(error),
            },
    {
        if self.inputs.len() == 0 {
            Err(ConfigError::NoSourceExtension)
        } else if self.output.as_str().unicode_len() == 0 {
            Err(ConfigError::EmptyTargetExtension)
        } else if !is_separator_free(self.output.as_str()) {
            Err(ConfigError::SeparatorInTargetExtension)
        } else {
            Ok(())
        }
    }
}

impl Default for Args {
    /// Converts `mp3` to `opus` below the current directory, deleting what was
    /// converted.
    fn default() -> (args: Args)
        ensures
            !args.dry_run,
            args.output@ == "opus"@,
            args.target_dir@ == "./"@,
            args.max_depth is None,
            !args.follow_links,
            !args.same_fs,
            args.num_threads is None,
            !args.preserve_files,
            args.inputs@.len() == 1,
            args.inputs@[0]@ == "mp3"@,
            args.ffmpeg_args@.len() == 0,
    {
        let mut inputs: Vec<String> = Vec::new();
        inputs.push(String::from_str("mp3"));
        Args {
            dry_run: false,
            output: String::from_str("opus"),
            target_dir: String::from_str("./"),
            max_depth: None,
            follow_links: false,
            same_fs: false,
            num_threads: None,
            preserve_files: false,
            inputs,
            ffmpeg_args: Vec::new(),
        }
    }
}

} // verus!
