//! The failure taxonomy of a run.

use vstd::prelude::*;
use vstd::string::*;

verus! {

/// How far a failure reaches.
#[derive(Clone, Copy, Debug, PartialEq, Eq, Structural)]
pub enum Severity {
    /// The run ends at once with this failure.
    Fatal,
    /// Only the current file is given up; the run goes on with the next one.
    Local,
    /// The run's result is already settled; the failure is only reported.
    Reported,
}

/// A failure of one stage of a run, with the cause as the operating system
/// worded it.
#[derive(Clone, Debug, PartialEq, Eq)]
pub enum PreloadError {
    /// The target directory does not exist or cannot be made canonical.
    InvalidDirectory(String),
    /// The entries of the directory could not be listed.
    FailedToReadDirectory(String),
    /// The object subsystem could not be initialised.
    FailedToInitialiseCOM(String),
    /// The progress dialog could not be created, titled or given its summary.
    FailedToCreateProgressDialog(String),
    /// The binding context could not be created.
    FailedToCreateBindContext(String),
    /// The thumbnail cache could not be reached.
    FailedToCreateThumbnailCache(String),
    /// One file's path could not be resolved to a shell item.
    FailedToCreateShellItem(String),
    /// The progress dialog could not be shown.
    FailedToShowProgressDialog(String),
    /// The progress dialog could not be updated for an item.
    FailedToUpdateProgressDialog(String),
    /// One file's thumbnail could not be generated.
    FailedToGenerateThumbnail(String),
    /// The progress dialog could not be hidden.
    FailedToHideProgressDialog(String),
}

impl PreloadError {
    /// The cause text that the failure carries.
    pub open spec fn cause(self) -> Seq<char> {
        match self {
            PreloadError::InvalidDirectory(c) => c@,
            PreloadError::FailedToReadDirectory(c) => c@,
            PreloadError::FailedToInitialiseCOM(c) => c@,
            PreloadError::FailedToCreateProgressDialog(c) => c@,
            PreloadError::FailedToCreateBindContext(c) => c@,
            PreloadError::FailedToCreateThumbnailCache(c) => c@,
            PreloadError::FailedToCreateShellItem(c) => c@,
            PreloadError::FailedToShowProgressDialog(c) => c@,
            PreloadError::FailedToUpdateProgressDialog(c) => c@,
            PreloadError::FailedToGenerateThumbnail(c) => c@,
            PreloadError::FailedToHideProgressDialog(c) => c@,
        }
    }

    /// The words that name the failed stage.
    pub open spec fn stage_text(self) -> Seq<char> {
        match self {
            PreloadError::InvalidDirectory(_) => "invalid directory"@,
            PreloadError::FailedToReadDirectory(_) => "failed to read directory"@,
            PreloadError::FailedToInitialiseCOM(_) => "failed to initialise COM"@,
            PreloadError::FailedToCreateProgressDialog(_) => "failed to create progress dialog"@,
            PreloadError::FailedToCreateBindContext(_) => "failed to create bind context"@,
            PreloadError::FailedToCreateThumbnailCache(_) => "failed to create thumbnail cache"@,
            PreloadError::FailedToCreateShellItem(_) => "failed to create shell item"@,
            PreloadError::FailedToShowProgressDialog(_) => "failed to show progress dialog"@,
            PreloadError::FailedToUpdateProgressDialog(_) => "failed to update progress dialog"@,
            PreloadError::FailedToGenerateThumbnail(_) => "failed to generate thumbnail"@,
            PreloadError::FailedToHideProgressDialog(_) => "failed to hide progress dialog"@,
        }
    }

    /// The failure as one line: the stage, then the cause in square brackets.
    pub open spec fn message_text(self) -> Seq<char> {
        self.stage_text() + " ["@ + self.cause() + "]"@
    }

    /// Local are the two failures of forcing one file; hiding the dialog is
    /// only reported; every other failure is fatal.
    pub open spec fn severity_of(self) -> Severity {
        match self {
            PreloadError::FailedToCreateShellItem(_) => Severity::Local,
            PreloadError::FailedToGenerateThumbnail(_) => Severity::Local,
            PreloadError::FailedToHideProgressDialog(_) => Severity::Reported,
            _ => Severity::Fatal,
        }
    }

    /// Whether the failure belongs to a stage that comes before the first file.
    pub open spec fn is_setup(self) -> bool {
        self.severity_of() == Severity::Fatal && !(self is FailedToUpdateProgressDialog)
    }

    /// How far this failure reaches.
    pub fn severity(&self) -> (s: Severity)
        ensures
            s == self.severity_of(),
    {
        match self {
            PreloadError::FailedToCreateShellItem(_) => Severity::Local,
            PreloadError::FailedToGenerateThumbnail(_) => Severity::Local,
            PreloadError::FailedToHideProgressDialog(_) => Severity::Reported,
            _ => Severity::Fatal,
        }
    }

    /// The line that describes this failure to the operator.
    pub fn message(&self) -> (text: String)
        ensures
            text@ == self.message_text(),
    {
        let (stage, cause): (&str, &String) = match self {
            PreloadError::InvalidDirectory(c) => ("invalid directory", c),
            PreloadError::FailedToReadDirectory(c) => ("failed to read directory", c),
            PreloadError::FailedToInitialiseCOM(c) => ("failed to initialise COM", c),
            PreloadError::FailedToCreateProgressDialog(c) => ("failed to create progress dialog", c),
            PreloadError::FailedToCreateBindContext(c) => ("failed to create bind context", c),
            PreloadError::FailedToCreateThumbnailCache(c) => ("failed to create thumbnail cache", c),
            PreloadError::FailedToCreateShellItem(c) => ("failed to create shell item", c),
            PreloadError::FailedToShowProgressDialog(c) => ("failed to show progress dialog", c),
            PreloadError::FailedToUpdateProgressDialog(c) => ("failed to update progress dialog", c),
            PreloadError::FailedToGenerateThumbnail(c) => ("failed to generate thumbnail", c),
            PreloadError::FailedToHideProgressDialog(c) => ("failed to hide progress dialog", c),
        };
        let mut text = String::from_str(stage);
        text.append(" [");
        text.append(cause.as_str());
        text.append("]");
        text
    }
}

} // verus!
