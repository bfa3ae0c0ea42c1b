use vstd::prelude::*;
use vstd::string::StringExecFns;

verus! {

/// What went wrong, for the whole run or for one video.
#[derive(Clone, Copy, PartialEq, Eq, Structural, Debug)]
pub enum ErrorKind {
    /// No video identifier was given; nothing is attempted.
    NoInput,
    /// The identifier could not be turned into a video.
    Resolution,
    /// The video has no stream that holds both picture and sound.
    NoStreamAvailable,
    /// Fetching or writing the stream failed.
    Download,
}

/// The label that names an error's kind in a failure line.
pub open spec fn kind_prefix(kind: ErrorKind) -> Seq<char> {
    match kind {
        ErrorKind::NoInput => "No input: "@,
        ErrorKind::Resolution => "Could not resolve video: "@,
        ErrorKind::NoStreamAvailable => "No stream available: "@,
        ErrorKind::Download => "Download failed: "@,
    }
}

/// A video was resolved but offers no stream to download.
pub struct NotFoundVideoError {}

impl NotFoundVideoError {
    pub fn message(&self) -> (r: String)
        ensures
            r@ == "Video not found"@,
    {
        String::from_str("Video not found")
    }
}

/// An error of the run or of one video: its kind and a detail text.
pub struct BoxError {
    pub kind: ErrorKind,
    pub detail: String,
}

impl BoxError {
    pub fn new(kind: ErrorKind, detail: String) -> (r: BoxError)
        ensures
            r.kind == kind,
            r.detail == detail,
    {
        BoxError { kind, detail }
    }

    /// The error for a run that was given no identifier.
    pub fn no_input() -> (r: BoxError)
        ensures
            r.kind == ErrorKind::NoInput,
            r.detail@ == "No videos."@,
    {
        BoxError { kind: ErrorKind::NoInput, detail: String::from_str("No videos.") }
    }

    /// The error for a resolved video that has no stream.
    pub fn from_not_found(e: NotFoundVideoError) -> (r: BoxError)
        ensures
            r.kind == ErrorKind::NoStreamAvailable,
            r.detail@ == "Video not found"@,
    {
        BoxError { kind: ErrorKind::NoStreamAvailable, detail: e.message() }
    }

    /// The error's own description: the detail it was made with.
    pub fn message(&self) -> (r: String)
        ensures
            r@ == self.detail@,
    {
        self.detail.clone()
    }

    /// The label of this error's kind.
    pub fn kind_label(&self) -> (r: &'static str)
        ensures
            r@ == kind_prefix(self.kind),
    {
        match self.kind {
            ErrorKind::NoInput => "No input: ",
            ErrorKind::Resolution => "Could not resolve video: ",
            ErrorKind::NoStreamAvailable => "No stream available: ",
            ErrorKind::Download => "Download failed: ",
        }
    }
}

} // verus!
