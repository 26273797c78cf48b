//! Error kinds for the compaction pipeline.
//!
//! Every error is local to the unit of work that produced it (one root, one
//! candidate, one target) and carries the offending path together with the
//! underlying cause, already rendered as text by the caller that saw it.

use vstd::prelude::*;

verus! {

/// A per-unit error of the pipeline. Each variant names the stage that
/// failed and carries the offending path and the underlying cause.
#[derive(Debug)]
pub enum AppError {
    /// A scan root is not a directory.
    NotDirectory { argument: String, directory: String },
    /// A scan root could not be accessed at all.
    DirectoryAccess { source: String, directory: String },
    /// Reading a candidate file's metadata or header failed.
    FileAccess { source: String, filename: String },
    /// Opening a connection to the target through the engine failed.
    DatabaseOpen { source: String, filename: String },
    /// One of the two required engine statements failed.
    Vacuum { source: String, filename: String },
}

impl AppError {
    /// The human-readable rendering of this error, as a character sequence.
    pub open spec fn message_spec(self) -> Seq<char> {
        match self {
            AppError::NotDirectory { argument: _, directory } => "Not a directory `"@
                + directory@ + "`"@,
            AppError::DirectoryAccess { source, directory } => "Error accessing directory `"@
                + directory@ + "`: "@ + source@,
            AppError::FileAccess { source, filename } => "Error accessing file `"@ + filename@
                + "`: "@ + source@,
            AppError::DatabaseOpen { source, filename } => "Error opening `"@ + filename@
                + "`: "@ + source@,
            AppError::Vacuum { source, filename } => "Error vacuuming `"@ + filename@ + "`: "@
                + source@,
        }
    }

    pub fn not_directory(argument: &str, directory: &str) -> (e: AppError)
        ensures
            e matches AppError::NotDirectory { argument: a, directory: d } && a@ == argument@
                && d@ == directory@,
    {
        AppError::NotDirectory {
            argument: String::from_str(argument),
            directory: String::from_str(directory),
        }
    }

    pub fn directory_access(source: &str, directory: &str) -> (e: AppError)
        ensures
            e matches AppError::DirectoryAccess { source: s, directory: d } && s@ == source@
                && d@ == directory@,
    {
        AppError::DirectoryAccess {
            source: String::from_str(source),
            directory: String::from_str(directory),
        }
    }

    pub fn io_error(source: &str, filename: &str) -> (e: AppError)
        ensures
            e matches AppError::FileAccess { source: s, filename: f } && s@ == source@
                && f@ == filename@,
    {
        AppError::FileAccess {
            source: String::from_str(source),
            filename: String::from_str(filename),
        }
    }

    pub fn db_open_error(source: &str, filename: &str) -> (e: AppError)
        ensures
            e matches AppError::DatabaseOpen { source: s, filename: f } && s@ == source@
                && f@ == filename@,
    {
        AppError::DatabaseOpen {
            source: String::from_str(source),
            filename: String::from_str(filename),
        }
    }

    pub fn db_vacuum_error(source: &str, filename: &str) -> (e: AppError)
        ensures
            e matches AppError::Vacuum { source: s, filename: f } && s@ == source@
                && f@ == filename@,
    {
        AppError::Vacuum {
            source: String::from_str(source),
            filename: String::from_str(filename),
        }
    }

    /// Renders the error for the error-reporting surface.
    pub fn message(&self) -> (m: String)
        ensures
            m@ == self.message_spec(),
    {
        match self {
            AppError::NotDirectory { argument: _, directory } => {
                let mut m = String::from_str("Not a directory `");
                m.append(directory.as_str());
                m.append("`");
                m
            },
            AppError::DirectoryAccess { source, directory } => {
                let mut m = String::from_str("Error accessing directory `");
                m.append(directory.as_str());
                m.append("`: ");
                m.append(source.as_str());
                m
            },
            AppError::FileAccess { source, filename } => {
                let mut m = String::from_str("Error accessing file `");
                m.append(filename.as_str());
                m.append("`: ");
                m.append(source.as_str());
                m
            },
            AppError::DatabaseOpen { source, filename } => {
                let mut m = String::from_str("Error opening `");
                m.append(filename.as_str());
                m.append("`: ");
                m.append(source.as_str());
                m
            },
            AppError::Vacuum { source, filename } => {
                let mut m = String::from_str("Error vacuuming `");
                m.append(filename.as_str());
                m.append("`: ");
                m.append(source.as_str());
                m
            },
        }
    }
}

} // verus!
