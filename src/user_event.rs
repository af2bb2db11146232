use vstd::prelude::*;

use crate::file_dialog::{drag_file_paths, recent_paths, FileDropEvent};

verus! {

/// What kind of data a decoded user event carries.
#[derive(Clone, Copy, Debug, PartialEq, Eq, Structural)]
pub enum EventKind {
    /// A placeholder: the element was mounted.
    Mounted,
    /// A drag event; whether it says files are being dragged.
    Drag { carries_files: bool },
    /// Any other event data, replayed as it came.
    Plain,
}

/// A user event as decoded from a window's script engine.
#[derive(Clone, Debug)]
pub struct UserEvent {
    pub element: usize,
    pub name: String,
    pub bubbles: bool,
    pub kind: EventKind,
}

/// The data a user event is replayed with.
#[derive(Clone, Debug)]
pub enum EventPayload {
    /// A handle on element `element` of window `window`, with the window's native
    /// query and file-system capabilities.
    Element { element: usize, window: u64 },
    /// The drag's own data, with its files replaced by these native paths.
    DragFiles(Vec<String>),
    /// The decoded data, unchanged.
    Raw,
}

/// A user event ready to be replayed into a window's runtime.
#[derive(Clone, Debug)]
pub struct UserEventReplay {
    pub name: String,
    pub element: usize,
    pub bubbles: bool,
    pub payload: EventPayload,
}

/// Whether `p` is the payload for an event of kind `kind` on `element` of window
/// `window`, whose most recent native file hover or drop is `recent`: a mount
/// placeholder becomes an element handle, a drag carrying files gets the recent
/// native paths, anything else stays as decoded.
pub open spec fn payload_fits(
    p: EventPayload,
    kind: EventKind,
    recent: Option<FileDropEvent>,
    element: usize,
    window: u64,
) -> bool {
    match kind {
        EventKind::Mounted => p == EventPayload::Element { element, window },
        EventKind::Drag { carries_files: true } => match p {
            EventPayload::DragFiles(paths) => paths@ == recent_paths(recent),
            _ => false,
        },
        _ => p is Raw,
    }
}

/// Whether `r` replays `ev` in window `window` whose most recent native file hover
/// or drop is `recent`.
pub open spec fn replays_user_event(
    r: UserEventReplay,
    ev: UserEvent,
    recent: Option<FileDropEvent>,
    window: u64,
) -> bool {
    &&& r.name@ == ev.name@
    &&& r.element == ev.element
    &&& r.bubbles == ev.bubbles
    &&& payload_fits(r.payload, ev.kind, recent, ev.element, window)
}

impl UserEvent {
    /// Resolves the event's placeholder data for window `window`.
    pub fn resolve(self, recent: &Option<FileDropEvent>, window: u64) -> (r: UserEventReplay)
        ensures
            replays_user_event(r, self, *recent, window),
    {
        let payload = match self.kind {
            EventKind::Mounted => EventPayload::Element { element: self.element, window },
            EventKind::Drag { carries_files } => if carries_files {
                EventPayload::DragFiles(drag_file_paths(recent))
            } else {
                EventPayload::Raw
            },
            EventKind::Plain => EventPayload::Raw,
        };
        UserEventReplay { name: self.name, element: self.element, bubbles: self.bubbles, payload }
    }
}

} // verus!
