use vstd::prelude::*;

use crate::config::{ControlFlow, WindowCloseBehaviour};
use crate::file_dialog::{replays_request, FileDialogRequest, FileDropEvent, ReplayEvent};
use crate::user_event::{replays_user_event, UserEvent, UserEventReplay};
use crate::hot_reload::{HotReloadMsg, Template};
use crate::shortcut::{callbacks_of, ShortcutRegistry};
use crate::ipc::{is_known_method, IpcMessage, IpcMethod, UserWindowEvent};
use std::collections::HashMap;
use vstd::std_specs::iter::IteratorSpec;

verus! {

broadcast use vstd::std_specs::hash::group_hash_axioms;

/// A change in a window's life that the driver is told of.
#[derive(Clone, Copy, Debug, PartialEq, Eq, Structural)]
pub enum LifecycleEvent {
    /// The user or the platform asked for the window to close.
    CloseRequested(u64),
    /// The platform destroyed the window.
    Destroyed(u64),
}

/// The registry after `e`, and whether the process exit is signalled.
pub open spec fn lifecycle_step<W>(b: WindowCloseBehaviour, m: Map<u64, W>, e: LifecycleEvent) -> (
    Map<u64, W>,
    bool,
) {
    match e {
        LifecycleEvent::CloseRequested(id) => match b {
            WindowCloseBehaviour::LastWindowExitsApp => (m.remove(id), m.remove(id).is_empty()),
            WindowCloseBehaviour::LastWindowHides => (m, false),
            WindowCloseBehaviour::CloseWindow => (m.remove(id), false),
        },
        LifecycleEvent::Destroyed(id) => (
            m.remove(id),
            b == WindowCloseBehaviour::LastWindowExitsApp && m.remove(id).is_empty(),
        ),
    }
}

/// The registry and the exit signal after each event of `evs`, starting from `m`.
pub open spec fn lifecycle_trace<W>(b: WindowCloseBehaviour, m: Map<u64, W>, evs: Seq<LifecycleEvent>) -> Seq<
    (Map<u64, W>, bool),
>
    decreases evs.len(),
{
    if evs.len() == 0 {
        Seq::empty()
    } else {
        let first = lifecycle_step(b, m, evs[0]);
        seq![first] + lifecycle_trace(b, first.0, evs.drop_first())
    }
}

/// The registry after the pending windows `s` are activated in order into `m`.
pub open spec fn activate_all<W>(m: Map<u64, W>, s: Seq<(u64, W)>) -> Map<u64, W>
    decreases s.len(),
{
    if s.len() == 0 {
        m
    } else {
        activate_all(m, s.drop_last()).insert(s.last().0, s.last().1)
    }
}

/// Where a script message goes.
#[derive(Clone, Copy, Debug, PartialEq, Eq, Structural)]
pub enum IpcRoute {
    Initialize,
    UserEvent,
    Query,
    FileDialog,
    BrowserOpen,
    /// Dropped: the window is not registered, or the method is unknown.
    Ignore,
}

/// The route of a message with method name `name` for window `id` of registry `m`.
pub open spec fn route_of<W>(m: Map<u64, W>, name: Seq<char>, id: u64) -> IpcRoute {
    if !m.contains_key(id) || !is_known_method(name) {
        IpcRoute::Ignore
    } else if name == "file_dialog"@ {
        IpcRoute::FileDialog
    } else if name == "user_event"@ {
        IpcRoute::UserEvent
    } else if name == "query"@ {
        IpcRoute::Query
    } else if name == "browser_open"@ {
        IpcRoute::BrowserOpen
    } else {
        IpcRoute::Initialize
    }
}

/// What the windows' runtimes are asked to do for a live-reload message.
#[derive(Clone, Debug)]
pub enum ReloadAction {
    /// Replace the template in the runtime of each of these windows, then poll it.
    ReplaceTemplate { template: Template, windows: Vec<u64> },
    /// Have each of these windows reload its style sheets and assets.
    KickAssets { windows: Vec<u64> },
    /// Nothing for the windows; the driver exits.
    Exit,
}

/// Whether `r` is the action for live-reload message `msg` when the registered
/// windows are `windows`: an update reaches each of them exactly once.
pub open spec fn reload_fits(r: ReloadAction, msg: HotReloadMsg, windows: Set<u64>) -> bool {
    match msg {
        HotReloadMsg::UpdateTemplate(t) => match r {
            ReloadAction::ReplaceTemplate { template, windows: ids } => template == t
                && ids@.to_set() == windows && ids@.no_duplicates(),
            _ => false,
        },
        HotReloadMsg::UpdateAsset(_) => match r {
            ReloadAction::KickAssets { windows: ids } => ids@.to_set() == windows
                && ids@.no_duplicates(),
            _ => false,
        },
        HotReloadMsg::Shutdown => r is Exit,
    }
}

/// The driver: owns the window registry, the windows waiting to be activated,
/// the one-shot startup payload and the close policy. `P` is the startup payload,
/// `W` a window's render surface.
pub struct App<P, W> {
    unmounted: Option<P>,
    control_flow: ControlFlow,
    is_visible_before_start: bool,
    window_behavior: WindowCloseBehaviour,
    webviews: HashMap<u64, W>,
    pending_webviews: Vec<(u64, W)>,
    first_window_started: bool,
}

impl<P, W> App<P, W> {
    /// The registry: each registered window identity and its render surface.
    pub closed spec fn windows(&self) -> Map<u64, W> {
        self.webviews@
    }

    /// The windows built but not yet activated, oldest first.
    pub closed spec fn pending(&self) -> Seq<(u64, W)> {
        self.pending_webviews@
    }

    pub closed spec fn flow(&self) -> ControlFlow {
        self.control_flow
    }

    pub closed spec fn behaviour(&self) -> WindowCloseBehaviour {
        self.window_behavior
    }

    pub closed spec fn startup(&self) -> Option<P> {
        self.unmounted
    }

    /// Whether the first window, built from the startup payload, was registered.
    pub closed spec fn started(&self) -> bool {
        self.first_window_started
    }

    pub closed spec fn visible_before_start(&self) -> bool {
        self.is_visible_before_start
    }

    /// Whether `id` waits in the pending queue.
    pub open spec fn pending_has(&self, id: u64) -> bool {
        exists|i: int| 0 <= i < self.pending().len() && #[trigger] self.pending()[i].0 == id
    }

    /// No identity is pending twice, nor both pending and registered.
    pub open spec fn wf(&self) -> bool {
        &&& forall|i: int, j: int|
            0 <= i < j < self.pending().len() ==> #[trigger] self.pending()[i].0
                != #[trigger] self.pending()[j].0
        &&& forall|i: int|
            0 <= i < self.pending().len() ==> !self.windows().contains_key(
                #[trigger] self.pending()[i].0,
            )
    }

    /// A driver with no window, waiting for input, with the startup payload in hand.
    pub fn new(window_behavior: WindowCloseBehaviour, startup: P) -> (r: Self)
        ensures
            r.wf(),
            r.windows().is_empty(),
            r.pending().len() == 0,
            r.flow() == ControlFlow::Wait,
            r.behaviour() == window_behavior,
            r.startup() == Some(startup),
            r.visible_before_start(),
            !r.started(),
    {
        App {
            unmounted: Some(startup),
            control_flow: ControlFlow::Wait,
            is_visible_before_start: true,
            window_behavior,
            webviews: HashMap::new(),
            pending_webviews: Vec::new(),
            first_window_started: false,
        }
    }

    /// Starts the handling of a platform event: the loop waits for more input
    /// unless the event asks otherwise.
    pub fn tick(&mut self)
        ensures
            final(self).flow() == ControlFlow::Wait,
            final(self).windows() == old(self).windows(),
            final(self).pending() == old(self).pending(),
            final(self).startup() == old(self).startup(),
            final(self).behaviour() == old(self).behaviour(),
            final(self).visible_before_start() == old(self).visible_before_start(),
            final(self).started() == old(self).started(),
    {
        self.control_flow = ControlFlow::Wait;
    }

    /// Puts a newly built window in the pending queue, behind those already there.
    /// Refused, with nothing changed, when the identity is already registered or
    /// pending.
    pub fn queue_window(&mut self, id: u64, webview: W) -> (r: bool)
        requires
            old(self).wf(),
        ensures
            final(self).wf(),
            r == !(old(self).windows().contains_key(id) || old(self).pending_has(id)),
            final(self).pending() == if r {
                old(self).pending().push((id, webview))
            } else {
                old(self).pending()
            },
            final(self).windows() == old(self).windows(),
            final(self).flow() == old(self).flow(),
            final(self).startup() == old(self).startup(),
            final(self).behaviour() == old(self).behaviour(),
            final(self).visible_before_start() == old(self).visible_before_start(),
            final(self).started() == old(self).started(),
    {
        if self.webviews.contains_key(&id) {
            return false;
        }
        assert(self.wf());
        let mut i: usize = 0;
        while i < self.pending_webviews.len()
            invariant
                0 <= i <= self.pending_webviews@.len(),
                forall|k: int| 0 <= k < i ==> #[trigger] self.pending_webviews@[k].0 != id,
                *self == *old(self),
                self.wf(),
                !self.webviews@.contains_key(id),
            decreases self.pending_webviews@.len() - i,
        {
            if self.pending_webviews[i].0 == id {
                proof {
                    assert(old(self).pending()[i as int].0 == id);
                }
                return false;
            }
            i = i + 1;
        }
        let ghost before = self.pending_webviews@;
        self.pending_webviews.push((id, webview));
        proof {
            assert(self.pending_webviews@ == before.push((id, webview)));
            assert(!old(self).pending_has(id));
            assert(before == old(self).pending());
            assert(self.windows() == old(self).windows());
            assert forall|a: int, b: int|
                0 <= a < b < self.pending().len() implies #[trigger] self.pending()[a].0
                != #[trigger] self.pending()[b].0 by {
                assert(self.pending()[a] == old(self).pending()[a]);
                if b == before.len() {
                    assert(old(self).pending()[a].0 != id);
                } else {
                    assert(self.pending()[b] == old(self).pending()[b]);
                    assert(old(self).pending()[a].0 != old(self).pending()[b].0);
                }
            }
            assert forall|a: int|
                0 <= a < self.pending().len() implies !self.windows().contains_key(
                #[trigger] self.pending()[a].0,
            ) by {
                if a < before.len() {
                    assert(self.pending()[a] == old(self).pending()[a]);
                    assert(!old(self).windows().contains_key(old(self).pending()[a].0));
                }
            }
        }
        true
    }

    /// Activates the pending windows, oldest first: each is registered and a poll
    /// request for it is returned, in the same order, for the event queue. The
    /// pending queue is left empty.
    pub fn handle_new_window(&mut self) -> (r: Vec<UserWindowEvent>)
        requires
            old(self).wf(),
        ensures
            final(self).wf(),
            final(self).windows() == activate_all(old(self).windows(), old(self).pending()),
            final(self).pending().len() == 0,
            r@.len() == old(self).pending().len(),
            forall|i: int|
                0 <= i < r@.len() ==> #[trigger] r@[i] == UserWindowEvent::Poll(
                    old(self).pending()[i].0,
                ),
            final(self).flow() == old(self).flow(),
            final(self).startup() == old(self).startup(),
            final(self).behaviour() == old(self).behaviour(),
            final(self).visible_before_start() == old(self).visible_before_start(),
            final(self).started() == old(self).started(),
    {
        let mut pending: Vec<(u64, W)> = Vec::new();
        std::mem::swap(&mut pending, &mut self.pending_webviews);
        let ghost start = self.webviews@;
        let ghost all = pending@;
        let total: usize = pending.len();
        let mut r: Vec<UserWindowEvent> = Vec::new();
        let mut k: usize = 0;
        while pending.len() > 0
            invariant
                all.len() == total,
                k + pending@.len() == all.len(),
                pending@ == all.skip(k as int),
                self.webviews@ == activate_all(start, all.take(k as int)),
                self.pending_webviews@.len() == 0,
                self.control_flow == old(self).control_flow,
                self.unmounted == old(self).unmounted,
                self.window_behavior == old(self).window_behavior,
                self.is_visible_before_start == old(self).is_visible_before_start,
                self.first_window_started == old(self).first_window_started,
                r@.len() == k,
                forall|i: int| 0 <= i < k ==> #[trigger] r@[i] == UserWindowEvent::Poll(all[i].0),
            decreases pending@.len(),
        {
            let (id, webview) = pending.remove(0);
            assert(all.take(k + 1).drop_last() == all.take(k as int));
            assert(all[k as int] == (id, webview));
            self.webviews.insert(id, webview);
            r.push(UserWindowEvent::Poll(id));
            k = k + 1;
            assert(pending@ == all.skip(k as int));
        }
        assert(all.take(k as int) == all);
        r
    }

    /// Well-formedness survives a registry change that adds no pending identity.
    proof fn lemma_wf_kept(a: &Self, b: &Self)
        requires
            a.wf(),
            b.pending() == a.pending(),
            forall|k: u64| #[trigger]
                b.windows().contains_key(k) ==> a.windows().contains_key(k) || !a.pending_has(k),
        ensures
            b.wf(),
    {
        assert forall|i: int| 0 <= i < b.pending().len() implies !b.windows().contains_key(
            #[trigger] b.pending()[i].0,
        ) by {
            assert(a.pending()[i].0 == b.pending()[i].0);
            assert(!a.windows().contains_key(a.pending()[i].0));
        }
    }

    /// The pending queue, the startup payload, the close policy and the initial
    /// visibility are the same in `self` and `other`.
    pub open spec fn same_setup(&self, other: &Self) -> bool {
        &&& self.pending() == other.pending()
        &&& self.startup() == other.startup()
        &&& self.behaviour() == other.behaviour()
        &&& self.visible_before_start() == other.visible_before_start()
        &&& self.started() == other.started()
    }

    /// Applies the close policy to a close request for window `id`. Returns whether
    /// the window's native view is to be hidden (only under `LastWindowHides`, and
    /// only for a registered window); the registry and the exit signal follow
    /// `lifecycle_step`.
    pub fn handle_close_requested(&mut self, id: u64) -> (hide: bool)
        requires
            old(self).wf(),
        ensures
            final(self).wf(),
            final(self).same_setup(old(self)),
            final(self).windows() == lifecycle_step(
                old(self).behaviour(),
                old(self).windows(),
                LifecycleEvent::CloseRequested(id),
            ).0,
            final(self).flow() == if lifecycle_step(
                old(self).behaviour(),
                old(self).windows(),
                LifecycleEvent::CloseRequested(id),
            ).1 {
                ControlFlow::Exit
            } else {
                old(self).flow()
            },
            hide == (old(self).behaviour() == WindowCloseBehaviour::LastWindowHides
                && old(self).windows().contains_key(id)),
    {
        match self.window_behavior {
            WindowCloseBehaviour::LastWindowExitsApp => {
                self.webviews.remove(&id);
                if self.webviews.is_empty() {
                    self.control_flow = ControlFlow::Exit;
                }
                proof {
                    Self::lemma_wf_kept(old(self), self);
                }
                false
            },
            WindowCloseBehaviour::LastWindowHides => self.webviews.contains_key(&id),
            WindowCloseBehaviour::CloseWindow => {
                self.webviews.remove(&id);
                proof {
                    Self::lemma_wf_kept(old(self), self);
                }
                false
            },
        }
    }

    /// The platform destroyed window `id`: it leaves the registry, and the exit is
    /// signalled when that empties the registry under `LastWindowExitsApp`.
    pub fn window_destroyed(&mut self, id: u64)
        requires
            old(self).wf(),
        ensures
            final(self).wf(),
            final(self).same_setup(old(self)),
            final(self).windows() == lifecycle_step(
                old(self).behaviour(),
                old(self).windows(),
                LifecycleEvent::Destroyed(id),
            ).0,
            final(self).flow() == if lifecycle_step(
                old(self).behaviour(),
                old(self).windows(),
                LifecycleEvent::Destroyed(id),
            ).1 {
                ControlFlow::Exit
            } else {
                old(self).flow()
            },
    {
        self.webviews.remove(&id);
        if self.window_behavior == WindowCloseBehaviour::LastWindowExitsApp
            && self.webviews.is_empty() {
            self.control_flow = ControlFlow::Exit;
        }
        proof {
            Self::lemma_wf_kept(old(self), self);
        }
    }

    /// A window's script engine asked to close it: it leaves the registry, and the
    /// exit is signalled when the registry is then empty, whatever the close policy.
    pub fn handle_close_msg(&mut self, id: u64)
        requires
            old(self).wf(),
        ensures
            final(self).wf(),
            final(self).same_setup(old(self)),
            final(self).windows() == old(self).windows().remove(id),
            final(self).flow() == if old(self).windows().remove(id).is_empty() {
                ControlFlow::Exit
            } else {
                old(self).flow()
            },
    {
        self.webviews.remove(&id);
        if self.webviews.is_empty() {
            self.control_flow = ControlFlow::Exit;
        }
        proof {
            Self::lemma_wf_kept(old(self), self);
        }
    }

    /// Takes the one-shot startup payload. Taking it twice is a caller's error.
    pub fn take_startup_payload(&mut self) -> (r: P)
        requires
            old(self).startup() is Some,
        ensures
            Some(r) == old(self).startup(),
            final(self).startup() is None,
            final(self).windows() == old(self).windows(),
            final(self).pending() == old(self).pending(),
            final(self).flow() == old(self).flow(),
            final(self).behaviour() == old(self).behaviour(),
            final(self).visible_before_start() == old(self).visible_before_start(),
            final(self).started() == old(self).started(),
    {
        self.unmounted.take().unwrap()
    }

    /// Registers the first window, built from the startup payload once that was
    /// taken, and records the visibility it is to get once its content is loaded.
    /// Registering a first window twice, or before the payload is taken, or under an
    /// identity already in use, is a caller's error.
    pub fn handle_start_cause_init(&mut self, id: u64, webview: W, visible: bool)
        requires
            old(self).wf(),
            old(self).startup() is None,
            !old(self).started(),
            !old(self).windows().contains_key(id),
            !old(self).pending_has(id),
        ensures
            final(self).wf(),
            final(self).started(),
            final(self).startup() is None,
            final(self).windows() == old(self).windows().insert(id, webview),
            final(self).visible_before_start() == visible,
            final(self).pending() == old(self).pending(),
            final(self).flow() == old(self).flow(),
            final(self).behaviour() == old(self).behaviour(),
    {
        self.is_visible_before_start = visible;
        self.first_window_started = true;
        self.webviews.insert(id, webview);
        proof {
            Self::lemma_wf_kept(old(self), self);
        }
    }

    /// Where a message from window `id` goes: nowhere when the window is not
    /// registered (not yet activated, or already gone) or the method is unknown.
    pub fn route_ipc(&self, msg: &IpcMessage, id: u64) -> (r: IpcRoute)
        ensures
            r == route_of(self.windows(), msg.method_name(), id),
    {
        if !self.webviews.contains_key(&id) {
            return IpcRoute::Ignore;
        }
        match msg.method() {
            IpcMethod::FileDialog => IpcRoute::FileDialog,
            IpcMethod::UserEvent => IpcRoute::UserEvent,
            IpcMethod::Query => IpcRoute::Query,
            IpcMethod::BrowserOpen => IpcRoute::BrowserOpen,
            IpcMethod::Initialize => IpcRoute::Initialize,
            IpcMethod::Other(_) => IpcRoute::Ignore,
        }
    }

    /// The window's content has loaded: for a registered window, the visibility to
    /// give it and the poll request to queue.
    pub fn handle_initialize_msg(&self, id: u64) -> (r: Option<(bool, UserWindowEvent)>)
        ensures
            r == if self.windows().contains_key(id) {
                Some((self.visible_before_start(), UserWindowEvent::Poll(id)))
            } else {
                None
            },
    {
        if self.webviews.contains_key(&id) {
            Some((self.is_visible_before_start, UserWindowEvent::Poll(id)))
        } else {
            None
        }
    }

    /// A query result, if it decoded, is delivered to window `id` when that window
    /// is registered; the result to deliver is returned.
    pub fn handle_query_msg<Q>(&self, decoded: Option<Q>, id: u64) -> (r: Option<Q>)
        ensures
            r == if self.windows().contains_key(id) {
                decoded
            } else {
                None
            },
    {
        if self.webviews.contains_key(&id) {
            decoded
        } else {
            None
        }
    }

    /// A user event, if it decoded, is replayed into window `id` when that window is
    /// registered, its placeholder data resolved against `recent`, the window's most
    /// recent native file hover or drop. An event that did not decode replays nothing.
    pub fn handle_user_event_msg(
        &self,
        decoded: Option<UserEvent>,
        recent: &Option<FileDropEvent>,
        id: u64,
    ) -> (r: Option<UserEventReplay>)
        ensures
            match decoded {
                Some(ev) => if self.windows().contains_key(id) {
                    r is Some && replays_user_event(r->Some_0, ev, *recent, id)
                } else {
                    r is None
                },
                None => r is None,
            },
    {
        match decoded {
            Some(ev) => if self.webviews.contains_key(&id) {
                Some(ev.resolve(recent, id))
            } else {
                None
            },
            None => None,
        }
    }

    /// The events to replay into window `window` for a file-dialog request that
    /// decoded; none when it did not decode or the window is not registered.
    pub fn handle_file_dialog_msg(&self, request: Option<FileDialogRequest>, window: u64) -> (r:
        Vec<ReplayEvent>)
        ensures
            match request {
                Some(req) => if self.windows().contains_key(window) {
                    replays_request(r@, req)
                } else {
                    r@.len() == 0
                },
                None => r@.len() == 0,
            },
    {
        match request {
            Some(req) => if self.webviews.contains_key(&window) {
                req.replay_events()
            } else {
                Vec::new()
            },
            None => Vec::new(),
        }
    }

    /// A live-reload message: a template or an asset update is handed to each
    /// registered window, once, with the registry untouched; a shutdown signals the
    /// exit.
    pub fn handle_hot_reload_msg(&mut self, msg: HotReloadMsg) -> (r: ReloadAction)
        ensures
            final(self).windows() == old(self).windows(),
            final(self).same_setup(old(self)),
            reload_fits(r, msg, old(self).windows().dom()),
            final(self).flow() == if msg is Shutdown {
                ControlFlow::Exit
            } else {
                old(self).flow()
            },
    {
        match msg {
            HotReloadMsg::UpdateTemplate(t) => {
                let windows = self.window_ids();
                ReloadAction::ReplaceTemplate { template: t, windows }
            },
            HotReloadMsg::UpdateAsset(_) => {
                let windows = self.window_ids();
                ReloadAction::KickAssets { windows }
            },
            HotReloadMsg::Shutdown => {
                self.control_flow = ControlFlow::Exit;
                ReloadAction::Exit
            },
        }
    }

    /// The render surface to poll for window `id`; none for a window that is gone.
    /// Polling leaves the driver as it is.
    pub fn poll_vdom(&self, id: u64) -> (r: Option<&W>)
        ensures
            r == if self.windows().contains_key(id) {
                Some(&self.windows()[id])
            } else {
                None
            },
    {
        self.webviews.get(&id)
    }

    /// The render surface of window `id`, if registered.
    pub fn window(&self, id: u64) -> (r: Option<&W>)
        ensures
            r == if self.windows().contains_key(id) {
                Some(&self.windows()[id])
            } else {
                None
            },
    {
        self.webviews.get(&id)
    }

    /// A global hotkey fired: the callbacks registered for it in `registry`, to be
    /// invoked in order on the driver's thread.
    pub fn handle_global_hotkey<'a, C>(&self, registry: &'a ShortcutRegistry<C>, id: u32) -> (r:
        Option<&'a Vec<C>>)
        ensures
            match r {
                Some(l) => l@ == callbacks_of(registry.table(), id) && registry.table().contains_key(id),
                None => !registry.table().contains_key(id),
            },
    {
        registry.call_handlers(id)
    }

    /// The identities of the registered windows, each once, in no set order.
    pub fn window_ids(&self) -> (r: Vec<u64>)
        ensures
            r@.to_set() == self.windows().dom(),
            r@.no_duplicates(),
    {
        let ghost all = self.webviews.keys().remaining().unref();
        let mut r: Vec<u64> = Vec::new();
        for k in it: self.webviews.keys()
            invariant
                r@ == it.history().unref(),
                all == it.seq().unref(),
                all.to_set() == self.webviews@.dom(),
                all.no_duplicates(),
        {
            r.push(*k);
        }
        assert(r@ == all);
        r
    }

    /// Whether window `id` is registered.
    pub fn contains_window(&self, id: u64) -> (r: bool)
        ensures
            r == self.windows().contains_key(id),
    {
        self.webviews.contains_key(&id)
    }

    /// Whether window `id` waits in the pending queue.
    pub fn is_pending(&self, id: u64) -> (r: bool)
        ensures
            r == self.pending_has(id),
    {
        let mut i: usize = 0;
        while i < self.pending_webviews.len()
            invariant
                0 <= i <= self.pending_webviews@.len(),
                forall|k: int| 0 <= k < i ==> #[trigger] self.pending_webviews@[k].0 != id,
            decreases self.pending_webviews@.len() - i,
        {
            if self.pending_webviews[i].0 == id {
                proof {
                    assert(self.pending()[i as int].0 == id);
                }
                return true;
            }
            i = i + 1;
        }
        false
    }

    /// The number of registered windows.
    pub fn window_count(&self) -> (r: usize)
        ensures
            r == self.windows().len(),
    {
        self.webviews.len()
    }

    /// The number of windows waiting to be activated.
    pub fn pending_count(&self) -> (r: usize)
        ensures
            r == self.pending().len(),
    {
        self.pending_webviews.len()
    }

    pub fn control_flow(&self) -> (r: ControlFlow)
        ensures
            r == self.flow(),
    {
        self.control_flow
    }

    pub fn window_behavior(&self) -> (r: WindowCloseBehaviour)
        ensures
            r == self.behaviour(),
    {
        self.window_behavior
    }

    pub fn is_visible_before_start(&self) -> (r: bool)
        ensures
            r == self.visible_before_start(),
    {
        self.is_visible_before_start
    }

    /// Whether the first window was registered.
    pub fn is_started(&self) -> (r: bool)
        ensures
            r == self.started(),
    {
        self.first_window_started
    }

    /// Whether the startup payload is still to be taken.
    pub fn has_startup_payload(&self) -> (r: bool)
        ensures
            r == self.startup() is Some,
    {
        self.unmounted.is_some()
    }
}

/// Under `LastWindowExitsApp`, along any sequence of close requests and destroy
/// notifications, the exit is signalled after a transition exactly when the
/// registry is empty right after it.
pub proof fn lemma_exit_iff_registry_empty<W>(m: Map<u64, W>, evs: Seq<LifecycleEvent>)
    ensures
        lifecycle_trace(WindowCloseBehaviour::LastWindowExitsApp, m, evs).len() == evs.len(),
        forall|i: int|
            0 <= i < evs.len() ==> (#[trigger] lifecycle_trace(
                WindowCloseBehaviour::LastWindowExitsApp,
                m,
                evs,
            )[i]).1 == lifecycle_trace(WindowCloseBehaviour::LastWindowExitsApp, m, evs)[i].0.is_empty(),
    decreases evs.len(),
{
    let b = WindowCloseBehaviour::LastWindowExitsApp;
    if evs.len() > 0 {
        let first = lifecycle_step(b, m, evs[0]);
        lemma_exit_iff_registry_empty(first.0, evs.drop_first());
        let t = lifecycle_trace(b, m, evs);
        let rest = lifecycle_trace(b, first.0, evs.drop_first());
        assert(t == seq![first] + rest);
        assert forall|i: int| 0 <= i < evs.len() implies (#[trigger] t[i]).1 == t[i].0.is_empty() by {
            if i > 0 {
                assert(t[i] == rest[i - 1]);
            }
        }
    }
}

/// Activating the pending windows `s` registers each of their identities.
pub proof fn lemma_activation_registers<W>(m: Map<u64, W>, s: Seq<(u64, W)>, i: int)
    requires
        0 <= i < s.len(),
    ensures
        activate_all(m, s).contains_key(s[i].0),
    decreases s.len(),
{
    if i < s.len() - 1 {
        lemma_activation_registers(m, s.drop_last(), i);
        assert(s.drop_last()[i] == s[i]);
    }
}

/// A message from a window that waits in the pending queue is not serviced; once
/// the queue is drained into the registry, a message of a known method from it is.
pub proof fn lemma_ipc_waits_for_activation<W>(
    m: Map<u64, W>,
    pending: Seq<(u64, W)>,
    name: Seq<char>,
    i: int,
)
    requires
        0 <= i < pending.len(),
        !m.contains_key(pending[i].0),
    ensures
        route_of(m, name, pending[i].0) == IpcRoute::Ignore,
        activate_all(m, pending).contains_key(pending[i].0),
        is_known_method(name) ==> route_of(activate_all(m, pending), name, pending[i].0)
            != IpcRoute::Ignore,
{
    lemma_activation_registers(m, pending, i);
}

} // verus!
