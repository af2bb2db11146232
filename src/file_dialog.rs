use vstd::prelude::*;

verus! {

/// A request from a window's script engine to replay the outcome of a file picker.
#[derive(Clone, Debug)]
pub struct FileDialogRequest {
    /// The element the events are addressed to.
    pub target: usize,
    /// The event name; `"change&input"` asks for both events.
    pub event: String,
    /// Whether the events bubble.
    pub bubbles: bool,
    /// The paths of the files chosen in the picker.
    pub files: Vec<String>,
}

/// One event to replay into a window's runtime.
#[derive(Clone, Debug)]
pub struct ReplayEvent {
    pub name: String,
    pub target: usize,
    pub bubbles: bool,
    /// The chosen file paths the upload form of the event is built over.
    pub files: Vec<String>,
}

/// The most recent native file hover or drop seen by a window.
#[derive(Clone, Debug)]
pub enum FileDropEvent {
    Hovered(Vec<String>),
    Dropped(Vec<String>),
    Cancelled,
}

/// The event names that a file-dialog request with event name `event` replays, in order.
pub open spec fn replay_names(event: Seq<char>) -> Seq<Seq<char>> {
    if event == "change&input"@ {
        seq!["input"@, "change"@]
    } else {
        seq![event]
    }
}

/// Whether `r` replays the names of `replay_names(req.event@)`, in that order, all
/// to the request's target, with its bubbling and an upload form over its files.
pub open spec fn replays_request(r: Seq<ReplayEvent>, req: FileDialogRequest) -> bool {
    &&& r.len() == replay_names(req.event@).len()
    &&& forall|i: int|
        #![trigger r[i]]
        0 <= i < r.len() ==> r[i].name@ == replay_names(req.event@)[i] && r[i].target
            == req.target && r[i].bubbles == req.bubbles && r[i].files@ == req.files@
}

impl FileDialogRequest {
    /// The events to replay for this request: `input` then `change` for a combined
    /// `"change&input"` request, else the one named event.
    pub fn replay_events(&self) -> (r: Vec<ReplayEvent>)
        ensures
            replays_request(r@, *self),
    {
        let combined: String = "change&input".to_owned();
        let mut r: Vec<ReplayEvent> = Vec::new();
        if self.event == combined {
            r.push(
                ReplayEvent {
                    name: "input".to_owned(),
                    target: self.target,
                    bubbles: self.bubbles,
                    files: self.files.clone(),
                },
            );
            r.push(
                ReplayEvent {
                    name: "change".to_owned(),
                    target: self.target,
                    bubbles: self.bubbles,
                    files: self.files.clone(),
                },
            );
        } else {
            r.push(
                ReplayEvent {
                    name: self.event.clone(),
                    target: self.target,
                    bubbles: self.bubbles,
                    files: self.files.clone(),
                },
            );
        }
        r
    }
}

/// The paths of a file hover or drop; none for a cancelled one.
pub open spec fn hover_paths(e: FileDropEvent) -> Seq<String> {
    match e {
        FileDropEvent::Hovered(p) => p@,
        FileDropEvent::Dropped(p) => p@,
        FileDropEvent::Cancelled => Seq::empty(),
    }
}

impl FileDropEvent {
    /// The native file paths that a drag event is rehydrated with.
    pub fn paths(&self) -> (r: Vec<String>)
        ensures
            r@ == hover_paths(*self),
    {
        match self {
            FileDropEvent::Hovered(p) => p.clone(),
            FileDropEvent::Dropped(p) => p.clone(),
            FileDropEvent::Cancelled => Vec::new(),
        }
    }
}

/// The paths of the most recent native hover or drop, if any.
pub open spec fn recent_paths(recent: Option<FileDropEvent>) -> Seq<String> {
    match recent {
        Some(e) => hover_paths(e),
        None => Seq::empty(),
    }
}

/// The paths a drag event carrying files is given: those of the most recent native
/// hover or drop, none if there was none.
pub fn drag_file_paths(recent: &Option<FileDropEvent>) -> (r: Vec<String>)
    ensures
        r@ == recent_paths(*recent),
{
    match recent {
        Some(e) => e.paths(),
        None => Vec::new(),
    }
}

/// A combined `"change&input"` request replays exactly two events, `input` then
/// `change`, both to the request's target.
pub proof fn lemma_combined_request_replays_input_then_change(
    r: Seq<ReplayEvent>,
    req: FileDialogRequest,
)
    requires
        replays_request(r, req),
        req.event@ == "change&input"@,
    ensures
        r.len() == 2,
        r[0].name@ == "input"@,
        r[1].name@ == "change"@,
        r[0].target == req.target && r[1].target == req.target,
        r[0].bubbles == req.bubbles && r[1].bubbles == req.bubbles,
        r[0].files@ == req.files@ && r[1].files@ == req.files@,
{
}

} // verus!
