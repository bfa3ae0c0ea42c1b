use vstd::prelude::*;
use vstd::string::StringExecFns;
use crate::error::{kind_prefix, BoxError, ErrorKind, NotFoundVideoError};
use crate::request::{DownloadRequest, Quality};

verus! {

/// How one video's download ended.
pub struct DownloadOutcome {
    pub identifier: String,
    /// The video's title, once it was resolved.
    pub title: Option<String>,
    /// `None` where the video was downloaded.
    pub error: Option<BoxError>,
}

/// The line printed for an outcome.
pub open spec fn report_line_of(o: DownloadOutcome) -> Seq<char> {
    match o.error {
        None => "Downloaded video: "@ + match o.title {
            Some(t) => t@,
            None => o.identifier@,
        },
        Some(e) => "Failed to download "@ + o.identifier@ + ": "@ + kind_prefix(e.kind) + e.detail@,
    }
}

impl DownloadOutcome {
    pub fn is_success(&self) -> (r: bool)
        ensures
            r == self.error.is_none(),
    {
        self.error.is_none()
    }

    /// The line to print for this outcome: the title on success, the
    /// identifier and the error on failure.
    pub fn report_line(&self) -> (r: String)
        ensures
            r@ == report_line_of(*self),
    {
        match &self.error {
            None => {
                let name: &str = match &self.title {
                    Some(t) => t.as_str(),
                    None => self.identifier.as_str(),
                };
                String::from_str("Downloaded video: ").concat(name)
            },
            Some(e) => {
                let line = String::from_str("Failed to download ").concat(
                    self.identifier.as_str(),
                ).concat(": ");
                line.concat(e.kind_label()).concat(e.detail.as_str())
            },
        }
    }
}

/// Where a download unit stands.
pub enum UnitPhase {
    /// Waiting for the identifier to be resolved.
    Resolving,
    /// Resolved to a video of this title; its stream is being fetched.
    Downloading { title: String },
    /// The outcome has been reported; nothing more happens.
    Done,
}

/// What the outside world tells a unit.
pub enum UnitEvent {
    ResolveFailed { reason: String },
    Resolved { title: String, stream_available: bool },
    DownloadFailed { reason: String },
    Downloaded,
}

/// What a unit asks the outside world to do next.
pub enum UnitAction {
    /// Resolve this identifier to a video.
    Resolve { identifier: String },
    /// Fetch the video's stream of this quality into this directory.
    Download { quality: Quality, output_dir: String },
    /// Count the unit as finished and print the outcome's line.
    Report { outcome: DownloadOutcome },
    /// The event does not fit the phase; nothing to do.
    Ignore,
}

/// The resolve, select, download sequence for one video.
pub struct DownloadUnit {
    pub request: DownloadRequest,
    pub phase: UnitPhase,
}

pub open spec fn failed(id: String, title: Option<String>, kind: ErrorKind, detail: String) -> DownloadOutcome {
    DownloadOutcome { identifier: id, title, error: Some(BoxError { kind, detail }) }
}

/// One step of a unit: from `pre`, on `ev`, to `post`, asking for `a`.
pub open spec fn stepped(pre: DownloadUnit, ev: UnitEvent, post: DownloadUnit, a: UnitAction) -> bool {
    &&& post.request == pre.request
    &&& match (pre.phase, ev) {
        (UnitPhase::Resolving, UnitEvent::ResolveFailed { reason }) => {
            &&& post.phase is Done
            &&& a == (UnitAction::Report {
                outcome: failed(pre.request.identifier, None, ErrorKind::Resolution, reason),
            })
        },
        (UnitPhase::Resolving, UnitEvent::Resolved { title, stream_available }) => if stream_available {
            &&& post.phase == (UnitPhase::Downloading { title })
            &&& a == (UnitAction::Download {
                quality: pre.request.quality,
                output_dir: pre.request.output_dir,
            })
        } else {
            &&& post.phase is Done
            &&& a matches UnitAction::Report { outcome }
            &&& outcome.identifier == pre.request.identifier
            &&& outcome.title == Some(title)
            &&& outcome.error matches Some(e)
            &&& e.kind == ErrorKind::NoStreamAvailable
            &&& e.detail@ == "Video not found"@
        },
        (UnitPhase::Downloading { title }, UnitEvent::DownloadFailed { reason }) => {
            &&& post.phase is Done
            &&& a == (UnitAction::Report {
                outcome: failed(pre.request.identifier, Some(title), ErrorKind::Download, reason),
            })
        },
        (UnitPhase::Downloading { title }, UnitEvent::Downloaded) => {
            &&& post.phase is Done
            &&& a == (UnitAction::Report {
                outcome: DownloadOutcome {
                    identifier: pre.request.identifier,
                    title: Some(title),
                    error: None,
                },
            })
        },
        _ => post.phase == pre.phase && a is Ignore,
    }
}

impl DownloadUnit {
    /// A unit for `request`, and its first action: resolve the identifier.
    pub fn start(request: DownloadRequest) -> (r: (DownloadUnit, UnitAction))
        ensures
            r.0.request == request,
            r.0.phase is Resolving,
            r.1 == (UnitAction::Resolve { identifier: request.identifier }),
    {
        let identifier = request.identifier.clone();
        (DownloadUnit { request, phase: UnitPhase::Resolving }, UnitAction::Resolve { identifier })
    }

    pub fn is_done(&self) -> (r: bool)
        ensures
            r == self.phase is Done,
    {
        match self.phase {
            UnitPhase::Done => true,
            _ => false,
        }
    }

    /// Moves the unit on by one event. Every path ends in exactly one
    /// `Report`; a unit that is done ignores further events.
    pub fn step(self, ev: UnitEvent) -> (r: (DownloadUnit, UnitAction))
        ensures
            stepped(self, ev, r.0, r.1),
    {
        let DownloadUnit { request, phase } = self;
        match (phase, ev) {
            (UnitPhase::Resolving, UnitEvent::ResolveFailed { reason }) => {
                let outcome = DownloadOutcome {
                    identifier: request.identifier.clone(),
                    title: None,
                    error: Some(BoxError::new(ErrorKind::Resolution, reason)),
                };
                (DownloadUnit { request, phase: UnitPhase::Done }, UnitAction::Report { outcome })
            },
            (UnitPhase::Resolving, UnitEvent::Resolved { title, stream_available }) => {
                if stream_available {
                    let action = UnitAction::Download {
                        quality: request.quality,
                        output_dir: request.output_dir.clone(),
                    };
                    (DownloadUnit { request, phase: UnitPhase::Downloading { title } }, action)
                } else {
                    let outcome = DownloadOutcome {
                        identifier: request.identifier.clone(),
                        title: Some(title),
                        error: Some(BoxError::from_not_found(NotFoundVideoError {})),
                    };
                    (
                        DownloadUnit { request, phase: UnitPhase::Done },
                        UnitAction::Report { outcome },
                    )
                }
            },
            (UnitPhase::Downloading { title }, UnitEvent::DownloadFailed { reason }) => {
                let outcome = DownloadOutcome {
                    identifier: request.identifier.clone(),
                    title: Some(title),
                    error: Some(BoxError::new(ErrorKind::Download, reason)),
                };
                (DownloadUnit { request, phase: UnitPhase::Done }, UnitAction::Report { outcome })
            },
            (UnitPhase::Downloading { title }, UnitEvent::Downloaded) => {
                let outcome = DownloadOutcome {
                    identifier: request.identifier.clone(),
                    title: Some(title),
                    error: None,
                };
                (DownloadUnit { request, phase: UnitPhase::Done }, UnitAction::Report { outcome })
            },
            (phase, _) => (DownloadUnit { request, phase }, UnitAction::Ignore),
        }
    }
}

/// How many of the outcomes are failures.
pub open spec fn failures_in(os: Seq<DownloadOutcome>) -> nat
    decreases os.len(),
{
    if os.len() == 0 {
        0
    } else {
        failures_in(os.drop_last()) + if os.last().error is Some {
            1nat
        } else {
            0nat
        }
    }
}

proof fn lemma_failures_bounded(os: Seq<DownloadOutcome>)
    ensures
        failures_in(os) <= os.len(),
    decreases os.len(),
{
    if os.len() > 0 {
        lemma_failures_bounded(os.drop_last());
    }
}

/// The number of failed downloads in a run, so that the run as a whole can
/// say whether every video came through.
pub fn count_failures(outcomes: &Vec<DownloadOutcome>) -> (r: usize)
    ensures
        r == failures_in(outcomes@),
{
    let mut n: usize = 0;
    let mut i: usize = 0;
    while i < outcomes.len()
        invariant
            i <= outcomes@.len(),
            n == failures_in(outcomes@.take(i as int)),
        decreases outcomes@.len() - i,
    {
        proof {
            assert(outcomes@.take(i as int + 1).drop_last() =~= outcomes@.take(i as int));
            lemma_failures_bounded(outcomes@.take(i as int));
        }
        if outcomes[i].error.is_some() {
            n = n + 1;
        }
        i = i + 1;
    }
    assert(outcomes@.take(outcomes@.len() as int) =~= outcomes@);
    n
}

} // verus!
