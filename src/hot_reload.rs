use vstd::prelude::*;

verus! {

/// A UI template sent by the live-reload server: its identifier and its body.
#[derive(Clone, Debug)]
pub struct Template {
    pub name: String,
    pub body: String,
}

/// A message the live-reload server sends to the application.
#[derive(Clone, Debug)]
pub enum HotReloadMsg {
    /// A template has been updated.
    UpdateTemplate(Template),
    /// An asset, named by its path, has been updated.
    UpdateAsset(String),
    /// The program is being rebuilt and the application should shut down.
    Shutdown,
}

/// Where the live-reload connection stands.
#[derive(Clone, Copy, Debug, PartialEq, Eq, Structural)]
pub enum LinkState {
    /// One connection attempt is about to be made.
    Connecting,
    /// Connected; lines are being read.
    Reading,
    /// The connection failed, ended or broke; live reload is off for this run.
    Closed,
}

/// What the transport observed.
#[derive(Clone, Debug)]
pub enum LinkEvent {
    /// The connection attempt succeeded.
    Connected,
    /// The connection attempt failed (no listener at the socket path).
    ConnectFailed,
    /// A line was read; holds the message it decodes to, if it decodes.
    Line(Option<HotReloadMsg>),
    /// The read would have blocked.
    WouldBlock,
    /// The stream ended.
    EndOfStream,
    /// The read failed for another reason.
    ReadFailed,
}

/// What the transport does next.
#[derive(Clone, Debug)]
pub enum LinkAction {
    /// Hand the message to the driver, then read the next line.
    Forward(HotReloadMsg),
    /// Report a line that did not decode, then read the next line.
    Malformed,
    /// Read the next line.
    ReadNext,
    /// Stop the transport for good.
    Stop,
}

/// One step of the transport: its next state and its action.
pub open spec fn link_step(s: LinkState, e: LinkEvent) -> (LinkState, LinkAction) {
    match s {
        LinkState::Connecting => match e {
            LinkEvent::Connected => (LinkState::Reading, LinkAction::ReadNext),
            _ => (LinkState::Closed, LinkAction::Stop),
        },
        LinkState::Reading => match e {
            LinkEvent::Line(Some(m)) => (LinkState::Reading, LinkAction::Forward(m)),
            LinkEvent::Line(None) => (LinkState::Reading, LinkAction::Malformed),
            LinkEvent::WouldBlock => (LinkState::Reading, LinkAction::ReadNext),
            LinkEvent::Connected => (LinkState::Reading, LinkAction::ReadNext),
            _ => (LinkState::Closed, LinkAction::Stop),
        },
        LinkState::Closed => (LinkState::Closed, LinkAction::Stop),
    }
}

/// The state after the events `evs`, starting from `s`.
pub open spec fn link_run(s: LinkState, evs: Seq<LinkEvent>) -> LinkState
    decreases evs.len(),
{
    if evs.len() == 0 {
        s
    } else {
        link_run(link_step(s, evs[0]).0, evs.drop_first())
    }
}

/// The messages forwarded to the driver over the events `evs`, starting from `s`.
pub open spec fn link_forwards(s: LinkState, evs: Seq<LinkEvent>) -> Seq<HotReloadMsg>
    decreases evs.len(),
{
    if evs.len() == 0 {
        Seq::empty()
    } else {
        let (next, act) = link_step(s, evs[0]);
        let rest = link_forwards(next, evs.drop_first());
        match act {
            LinkAction::Forward(m) => seq![m] + rest,
            _ => rest,
        }
    }
}

impl LinkState {
    /// The transport's decision on one observed event. A failed connection attempt
    /// closes the link for good; an undecodable line is reported and skipped; end of
    /// stream or a read failure other than would-block closes it.
    pub fn step(self, e: LinkEvent) -> (r: (LinkState, LinkAction))
        ensures
            r == link_step(self, e),
    {
        match self {
            LinkState::Connecting => match e {
                LinkEvent::Connected => (LinkState::Reading, LinkAction::ReadNext),
                _ => (LinkState::Closed, LinkAction::Stop),
            },
            LinkState::Reading => match e {
                LinkEvent::Line(Some(m)) => (LinkState::Reading, LinkAction::Forward(m)),
                LinkEvent::Line(None) => (LinkState::Reading, LinkAction::Malformed),
                LinkEvent::WouldBlock => (LinkState::Reading, LinkAction::ReadNext),
                LinkEvent::Connected => (LinkState::Reading, LinkAction::ReadNext),
                _ => (LinkState::Closed, LinkAction::Stop),
            },
            LinkState::Closed => (LinkState::Closed, LinkAction::Stop),
        }
    }
}

/// A closed link stays closed and forwards nothing, whatever is observed after.
pub proof fn lemma_closed_link_is_silent(evs: Seq<LinkEvent>)
    ensures
        link_run(LinkState::Closed, evs) == LinkState::Closed,
        link_forwards(LinkState::Closed, evs) == Seq::<HotReloadMsg>::empty(),
    decreases evs.len(),
{
    if evs.len() > 0 {
        lemma_closed_link_is_silent(evs.drop_first());
    }
}

/// When the socket is absent at startup, no message is ever forwarded and the
/// link never goes back to connecting, whatever is observed after.
pub proof fn lemma_absent_socket_disables_reload(evs: Seq<LinkEvent>)
    ensures
        link_run(LinkState::Connecting, seq![LinkEvent::ConnectFailed] + evs) == LinkState::Closed,
        link_forwards(LinkState::Connecting, seq![LinkEvent::ConnectFailed] + evs)
            == Seq::<HotReloadMsg>::empty(),
{
    let all = seq![LinkEvent::ConnectFailed] + evs;
    assert(all.drop_first() == evs);
    lemma_closed_link_is_silent(evs);
}

} // verus!
