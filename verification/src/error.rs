//! The ways in which an operation of the registry fails.

use vstd::prelude::*;

verus! {

/// A failure of one operation. None is fatal: each concerns one application.
#[derive(Debug, PartialEq, Eq)]
pub enum RegistryError {
    /// The list of definitions could not be stored; the text says why.
    Persistence(String),
    /// No definition has the id that was asked for.
    NotFound,
    /// The operating system did not start the program, or the process
    /// identifier it reported could not be read; the text says which.
    Launch(String),
    /// No running process is tracked for the application.
    NotRunning,
    /// The operating system did not end the process; the text says why.
    Stop(String),
    /// The platform cannot end a process by its name.
    Unsupported,
}

/// A `RegistryError` with its text as a sequence of characters.
pub enum ErrorView {
    Persistence(Seq<char>),
    NotFound,
    Launch(Seq<char>),
    NotRunning,
    Stop(Seq<char>),
    Unsupported,
}

impl View for RegistryError {
    type V = ErrorView;

    open spec fn view(&self) -> ErrorView {
        match self {
            RegistryError::Persistence(text) => ErrorView::Persistence(text@),
            RegistryError::NotFound => ErrorView::NotFound,
            RegistryError::Launch(text) => ErrorView::Launch(text@),
            RegistryError::NotRunning => ErrorView::NotRunning,
            RegistryError::Stop(text) => ErrorView::Stop(text@),
            RegistryError::Unsupported => ErrorView::Unsupported,
        }
    }
}

/// The text shown for an error.
pub open spec fn message_text(error: ErrorView) -> Seq<char> {
    match error {
        ErrorView::Persistence(text) => text,
        ErrorView::NotFound => "Application not found"@,
        ErrorView::Launch(text) => text,
        ErrorView::NotRunning => "Application not found or not running"@,
        ErrorView::Stop(text) => text,
        ErrorView::Unsupported => "Process name based termination not supported on this platform"@,
    }
}

impl Clone for RegistryError {
    fn clone(&self) -> (copy: Self)
        ensures
            copy@ == self@,
    {
        match self {
            RegistryError::Persistence(text) => RegistryError::Persistence(text.clone()),
            RegistryError::NotFound => RegistryError::NotFound,
            RegistryError::Launch(text) => RegistryError::Launch(text.clone()),
            RegistryError::NotRunning => RegistryError::NotRunning,
            RegistryError::Stop(text) => RegistryError::Stop(text.clone()),
            RegistryError::Unsupported => RegistryError::Unsupported,
        }
    }
}

impl RegistryError {
    /// The text to show for this error.
    pub fn message(&self) -> (text: String)
        ensures
            text@ == message_text(self@),
    {
        match self {
            RegistryError::Persistence(text) => text.clone(),
            RegistryError::NotFound => "Application not found".to_owned(),
            RegistryError::Launch(text) => text.clone(),
            RegistryError::NotRunning => "Application not found or not running".to_owned(),
            RegistryError::Stop(text) => text.clone(),
            RegistryError::Unsupported => {
                "Process name based termination not supported on this platform".to_owned()
            },
        }
    }
}

} // verus!
