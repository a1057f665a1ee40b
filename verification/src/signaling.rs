//! Signaling: the messages, and what a connection does with what its client sends.

use vstd::prelude::*;

use crate::camera::{devices_view, CameraDevice, CameraDeviceView};
use crate::config::Config;
use crate::pipeline::{reconfigure_error_text, reconfigured, ReconfigureError, ReconfigureErrorView};
use crate::pipeline::{is_sound, ReconfigureRequest, SharedPipeline, SharedPipelineView};
use crate::text::opt_text;
use crate::video::{VideoConfig, VideoConfigView};

verus! {

/// A message between the server and a client.
#[derive(Debug, Clone, PartialEq)]
pub enum SignalingMessage {
    /// Client asks to be served.
    Start,
    /// Server offers a session.
    Offer { sdp: String },
    /// Client answers an offer.
    Answer { sdp: String },
    /// Either side names a way to reach it.
    IceCandidate { candidate: String, sdp_mline_index: u32 },
    /// Client asks for the current parameters.
    GetConfig,
    /// Server's reply to `GetConfig`, also sent after a `SetConfig` that was accepted.
    Config { config: VideoConfig },
    /// Client asks which cameras are connected and what each supports.
    GetDevices,
    /// Server's reply to `GetDevices`.
    Devices { devices: Vec<CameraDevice> },
    /// Client asks for new parameters.
    SetConfig { config: VideoConfig },
    /// Sent to all clients after the pipeline was replaced: drop the peer, reconnect.
    Reconfigured,
    /// Server reports an error.
    Error { message: String },
}

/// What a `SignalingMessage` holds.
pub enum SignalingMessageView {
    Start,
    Offer { sdp: Seq<char> },
    Answer { sdp: Seq<char> },
    IceCandidate { candidate: Seq<char>, sdp_mline_index: u32 },
    GetConfig,
    Config { config: VideoConfigView },
    GetDevices,
    Devices { devices: Seq<CameraDeviceView> },
    SetConfig { config: VideoConfigView },
    Reconfigured,
    Error { message: Seq<char> },
}

impl View for SignalingMessage {
    type V = SignalingMessageView;

    open spec fn view(&self) -> SignalingMessageView {
        match *self {
            SignalingMessage::Start => SignalingMessageView::Start,
            SignalingMessage::Offer { sdp } => SignalingMessageView::Offer { sdp: sdp@ },
            SignalingMessage::Answer { sdp } => SignalingMessageView::Answer { sdp: sdp@ },
            SignalingMessage::IceCandidate { candidate, sdp_mline_index } => {
                SignalingMessageView::IceCandidate { candidate: candidate@, sdp_mline_index }
            },
            SignalingMessage::GetConfig => SignalingMessageView::GetConfig,
            SignalingMessage::Config { config } => SignalingMessageView::Config {
                config: config@,
            },
            SignalingMessage::GetDevices => SignalingMessageView::GetDevices,
            SignalingMessage::Devices { devices } => SignalingMessageView::Devices {
                devices: devices_view(devices@),
            },
            SignalingMessage::SetConfig { config } => SignalingMessageView::SetConfig {
                config: config@,
            },
            SignalingMessage::Reconfigured => SignalingMessageView::Reconfigured,
            SignalingMessage::Error { message } => SignalingMessageView::Error {
                message: message@,
            },
        }
    }
}

/// What each of a run of messages holds.
pub open spec fn messages_view(s: Seq<SignalingMessage>) -> Seq<SignalingMessageView> {
    Seq::new(s.len(), |i: int| s[i]@)
}

/// What happens on a connection.
#[derive(Debug)]
pub enum SessionEvent {
    /// The client sent this message.
    Message(SignalingMessage),
    /// The client sent a text that is no message.
    Malformed,
    /// The client sent a frame that is neither text nor the end of the connection.
    OtherFrame,
    /// The client closed the connection, or it broke.
    Closed,
    /// The branch that was to be attached is attached.
    Attached,
    /// The branch that was to be attached could not be.
    AttachFailed,
    /// The pipeline was replaced, as asked for.
    Replaced,
    /// The pipeline was left as it is, since it ran with what was asked for.
    Unchanged,
    /// The pipeline could not be reconfigured.
    ReconfigureFailed(ReconfigureError),
    /// The pipeline was replaced at the request of some client, this one or another.
    Announced,
}

/// What a `SessionEvent` holds.
pub enum SessionEventView {
    Message(SignalingMessageView),
    Malformed,
    OtherFrame,
    Closed,
    Attached,
    AttachFailed,
    Replaced,
    Unchanged,
    ReconfigureFailed(ReconfigureErrorView),
    Announced,
}

impl View for SessionEvent {
    type V = SessionEventView;

    open spec fn view(&self) -> SessionEventView {
        match *self {
            SessionEvent::Message(m) => SessionEventView::Message(m@),
            SessionEvent::Malformed => SessionEventView::Malformed,
            SessionEvent::OtherFrame => SessionEventView::OtherFrame,
            SessionEvent::Closed => SessionEventView::Closed,
            SessionEvent::Attached => SessionEventView::Attached,
            SessionEvent::AttachFailed => SessionEventView::AttachFailed,
            SessionEvent::Replaced => SessionEventView::Replaced,
            SessionEvent::Unchanged => SessionEventView::Unchanged,
            SessionEvent::ReconfigureFailed(e) => SessionEventView::ReconfigureFailed(e@),
            SessionEvent::Announced => SessionEventView::Announced,
        }
    }
}

/// Why something that the client sent has no effect.
#[derive(Debug, Clone, Copy, PartialEq, Eq, Structural)]
pub enum Ignored {
    /// The text is no message.
    Malformed,
    /// An answer, but no peer to give it to.
    AnswerBeforeStart,
    /// A candidate, but no peer to give it to.
    CandidateBeforeStart,
    /// An offer: the server is the one that offers.
    UnexpectedOffer,
    /// A message that only the server sends.
    ServerOnly,
}

/// What is to be done on a connection.
#[derive(Debug, PartialEq)]
pub enum SessionAction {
    /// Attach a branch for this client, which then takes the place of the one that
    /// it may have, and report how that went.
    Attach { stun_server: String, emulator_lan_ip: Option<String> },
    /// Give the client's answer to its peer.
    ApplyAnswer { sdp: String },
    /// Give the client's candidate to its peer.
    AddCandidate { candidate: String, sdp_mline_index: u32 },
    /// Send this to the client.
    Send(SignalingMessage),
    /// Reconfigure the pipeline, and report how that went.
    Reconfigure(VideoConfig),
    /// Drop the client's peer, if it has one.
    DropPeer,
    /// Tell every client, this one too, to reconnect.
    Broadcast,
    /// Note that what the client sent has no effect.
    Ignore(Ignored),
    /// End the connection.
    Stop,
}

/// What a `SessionAction` holds.
pub enum SessionActionView {
    Attach { stun_server: Seq<char>, emulator_lan_ip: Option<Seq<char>> },
    ApplyAnswer { sdp: Seq<char> },
    AddCandidate { candidate: Seq<char>, sdp_mline_index: u32 },
    Send(SignalingMessageView),
    Reconfigure(VideoConfigView),
    DropPeer,
    Broadcast,
    Ignore(Ignored),
    Stop,
}

impl View for SessionAction {
    type V = SessionActionView;

    open spec fn view(&self) -> SessionActionView {
        match *self {
            SessionAction::Attach { stun_server, emulator_lan_ip } => SessionActionView::Attach {
                stun_server: stun_server@,
                emulator_lan_ip: opt_text(emulator_lan_ip),
            },
            SessionAction::ApplyAnswer { sdp } => SessionActionView::ApplyAnswer { sdp: sdp@ },
            SessionAction::AddCandidate { candidate, sdp_mline_index } => {
                SessionActionView::AddCandidate { candidate: candidate@, sdp_mline_index }
            },
            SessionAction::Send(m) => SessionActionView::Send(m@),
            SessionAction::Reconfigure(c) => SessionActionView::Reconfigure(c@),
            SessionAction::DropPeer => SessionActionView::DropPeer,
            SessionAction::Broadcast => SessionActionView::Broadcast,
            SessionAction::Ignore(why) => SessionActionView::Ignore(why),
            SessionAction::Stop => SessionActionView::Stop,
        }
    }
}

/// What each of a run of actions holds.
pub open spec fn actions_view(s: Seq<SessionAction>) -> Seq<SessionActionView> {
    Seq::new(s.len(), |i: int| s[i]@)
}

/// What the server's configuration says of every peer.
pub struct PeerSettings {
    pub stun_server: Seq<char>,
    pub emulator_lan_ip: Option<Seq<char>>,
}

/// What the server's configuration says of every peer.
pub open spec fn peer_settings(config: Config) -> PeerSettings {
    PeerSettings {
        stun_server: config.stun_server@,
        emulator_lan_ip: opt_text(config.emulator_lan_ip),
    }
}

/// Whether the connection has a peer after an event.
pub open spec fn attached_after(attached: bool, event: SessionEventView) -> bool {
    match event {
        SessionEventView::Attached => true,
        SessionEventView::Replaced | SessionEventView::Closed => false,
        _ => attached,
    }
}

/// What is to be done with a message of the client.
pub open spec fn message_actions(
    attached: bool,
    message: SignalingMessageView,
    pipeline: SharedPipelineView,
    settings: PeerSettings,
) -> Seq<SessionActionView> {
    match message {
        SignalingMessageView::Start => seq![
            SessionActionView::Attach {
                stun_server: settings.stun_server,
                emulator_lan_ip: settings.emulator_lan_ip,
            },
        ],
        SignalingMessageView::Answer { sdp } => if attached {
            seq![SessionActionView::ApplyAnswer { sdp }]
        } else {
            seq![SessionActionView::Ignore(Ignored::AnswerBeforeStart)]
        },
        SignalingMessageView::IceCandidate { candidate, sdp_mline_index } => if attached {
            seq![SessionActionView::AddCandidate { candidate, sdp_mline_index }]
        } else {
            seq![SessionActionView::Ignore(Ignored::CandidateBeforeStart)]
        },
        SignalingMessageView::GetConfig => seq![
            SessionActionView::Send(SignalingMessageView::Config { config: pipeline.config }),
        ],
        SignalingMessageView::GetDevices => seq![
            SessionActionView::Send(SignalingMessageView::Devices { devices: pipeline.devices }),
        ],
        SignalingMessageView::SetConfig { config } => seq![SessionActionView::Reconfigure(config)],
        SignalingMessageView::Offer { .. } => seq![
            SessionActionView::Ignore(Ignored::UnexpectedOffer),
        ],
        _ => seq![SessionActionView::Ignore(Ignored::ServerOnly)],
    }
}

/// What is to be done on an event, in order.
pub open spec fn event_actions(
    attached: bool,
    event: SessionEventView,
    pipeline: SharedPipelineView,
    settings: PeerSettings,
) -> Seq<SessionActionView> {
    match event {
        SessionEventView::Message(m) => message_actions(attached, m, pipeline, settings),
        SessionEventView::Malformed => seq![SessionActionView::Ignore(Ignored::Malformed)],
        SessionEventView::Closed => seq![SessionActionView::DropPeer, SessionActionView::Stop],
        SessionEventView::Replaced => seq![
            SessionActionView::DropPeer,
            SessionActionView::Send(SignalingMessageView::Config { config: pipeline.config }),
            SessionActionView::Broadcast,
        ],
        SessionEventView::Unchanged => seq![
            SessionActionView::Send(SignalingMessageView::Config { config: pipeline.config }),
        ],
        SessionEventView::ReconfigureFailed(e) => seq![
            SessionActionView::Send(
                SignalingMessageView::Error {
                    message: "Reconfigure failed: "@ + reconfigure_error_text(e),
                },
            ),
        ],
        SessionEventView::Announced => seq![
            SessionActionView::Send(SignalingMessageView::Reconfigured),
        ],
        SessionEventView::OtherFrame | SessionEventView::Attached
        | SessionEventView::AttachFailed => Seq::empty(),
    }
}

/// One connection: whether its client has a peer.
pub struct Session {
    attached: bool,
}

impl View for Session {
    type V = bool;

    closed spec fn view(&self) -> bool {
        self.attached
    }
}

fn message_action(
    attached: bool,
    message: SignalingMessage,
    pipeline: &SharedPipeline,
    config: &Config,
) -> (r: SessionAction)
    ensures
        message_actions(attached, message@, pipeline@, peer_settings(*config)) == seq![r@],
{
    match message {
        SignalingMessage::Start => SessionAction::Attach {
            stun_server: config.stun_server.clone(),
            emulator_lan_ip: config.emulator_lan_ip.clone(),
        },
        SignalingMessage::Answer { sdp } => if attached {
            SessionAction::ApplyAnswer { sdp }
        } else {
            SessionAction::Ignore(Ignored::AnswerBeforeStart)
        },
        SignalingMessage::IceCandidate { candidate, sdp_mline_index } => if attached {
            SessionAction::AddCandidate { candidate, sdp_mline_index }
        } else {
            SessionAction::Ignore(Ignored::CandidateBeforeStart)
        },
        SignalingMessage::GetConfig => SessionAction::Send(
            SignalingMessage::Config { config: pipeline.config() },
        ),
        SignalingMessage::GetDevices => SessionAction::Send(
            SignalingMessage::Devices { devices: pipeline.devices() },
        ),
        SignalingMessage::SetConfig { config } => SessionAction::Reconfigure(config),
        SignalingMessage::Offer { .. } => SessionAction::Ignore(Ignored::UnexpectedOffer),
        _ => SessionAction::Ignore(Ignored::ServerOnly),
    }
}

impl Session {
    /// A connection whose client has no peer yet.
    pub fn new() -> (r: Session)
        ensures
            r@ == false,
    {
        Session { attached: false }
    }

    /// Whether the client has a peer.
    pub fn has_peer(&self) -> (r: bool)
        ensures
            r == self@,
    {
        self.attached
    }

    /// What is to be done on an event, in order.
    pub fn on_event(
        &mut self,
        event: SessionEvent,
        pipeline: &SharedPipeline,
        config: &Config,
    ) -> (r: Vec<SessionAction>)
        ensures
            final(self)@ == attached_after(old(self)@, event@),
            actions_view(r@) == event_actions(
                old(self)@,
                event@,
                pipeline@,
                peer_settings(*config),
            ),
    {
        let mut out: Vec<SessionAction> = Vec::new();
        match event {
            SessionEvent::Message(m) => {
                out.push(message_action(self.attached, m, pipeline, config));
            },
            SessionEvent::Malformed => {
                out.push(SessionAction::Ignore(Ignored::Malformed));
            },
            SessionEvent::Closed => {
                self.attached = false;
                out.push(SessionAction::DropPeer);
                out.push(SessionAction::Stop);
            },
            SessionEvent::Attached => {
                self.attached = true;
            },
            SessionEvent::Replaced => {
                self.attached = false;
                out.push(SessionAction::DropPeer);
                out.push(
                    SessionAction::Send(SignalingMessage::Config { config: pipeline.config() }),
                );
                out.push(SessionAction::Broadcast);
            },
            SessionEvent::Unchanged => {
                out.push(
                    SessionAction::Send(SignalingMessage::Config { config: pipeline.config() }),
                );
            },
            SessionEvent::ReconfigureFailed(e) => {
                let mut message = "Reconfigure failed: ".to_owned();
                message.append(e.message().as_str());
                out.push(SessionAction::Send(SignalingMessage::Error { message }));
            },
            SessionEvent::Announced => {
                out.push(SessionAction::Send(SignalingMessage::Reconfigured));
            },
            SessionEvent::OtherFrame | SessionEvent::AttachFailed => {},
        }
        out
    }
}

/// Whether the connection has a peer after a run of events from its start.
pub open spec fn attached_after_all(events: Seq<SessionEventView>) -> bool
    decreases events.len(),
{
    if events.len() == 0 {
        false
    } else {
        attached_after(attached_after_all(events.drop_last()), events.last())
    }
}

/// Whether event `i` attached a peer that no later event took away.
pub open spec fn is_standing_attachment(events: Seq<SessionEventView>, i: int) -> bool {
    &&& 0 <= i < events.len()
    &&& events[i] == SessionEventView::Attached
    &&& forall|j: int|
        i < j < events.len() ==> #[trigger] events[j] != SessionEventView::Replaced && events[j]
            != SessionEventView::Closed
}

/// A connection has a peer if and only if one was attached and neither has the
/// pipeline been replaced at this client's request since, nor the connection ended.
pub proof fn law_peer_stands_until_replaced_or_closed(events: Seq<SessionEventView>)
    ensures
        attached_after_all(events) <==> exists|i: int| is_standing_attachment(events, i),
    decreases events.len(),
{
    if events.len() > 0 {
        let init = events.drop_last();
        let last = events.len() - 1;
        law_peer_stands_until_replaced_or_closed(init);
        assert forall|j: int| 0 <= j < last implies #[trigger] events[j] == init[j] by {}
        if events[last] == SessionEventView::Attached {
            assert(is_standing_attachment(events, last));
        } else if events[last] == SessionEventView::Replaced || events[last]
            == SessionEventView::Closed {
            assert forall|i: int| !is_standing_attachment(events, i) by {}
        } else {
            if attached_after_all(init) {
                let i = choose|i: int| is_standing_attachment(init, i);
                assert(is_standing_attachment(events, i));
            }
            if exists|i: int| is_standing_attachment(events, i) {
                let i = choose|i: int| is_standing_attachment(events, i);
                assert(is_standing_attachment(init, i));
            }
        }
    }
}

/// Whether an action hands something to the client's peer.
pub open spec fn reaches_peer(action: SessionActionView) -> bool {
    action is ApplyAnswer || action is AddCandidate
}

/// Nothing that the client sends reaches a peer before one is attached.
pub proof fn law_nothing_reaches_a_peer_before_start(
    events: Seq<SessionEventView>,
    event: SessionEventView,
    pipeline: SharedPipelineView,
    settings: PeerSettings,
    k: int,
)
    requires
        ({
            let actions = event_actions(attached_after_all(events), event, pipeline, settings);
            0 <= k < actions.len() && reaches_peer(actions[k])
        }),
    ensures
        exists|i: int| is_standing_attachment(events, i),
{
    law_peer_stands_until_replaced_or_closed(events);
}

/// Whatever an event is, every client is told to reconnect only where the pipeline
/// was replaced, and a peer is dropped only there or where the connection ended.
pub proof fn law_peers_are_disturbed_only_by_a_replacement(
    attached: bool,
    event: SessionEventView,
    pipeline: SharedPipelineView,
    settings: PeerSettings,
)
    ensures
        ({
            let actions = event_actions(attached, event, pipeline, settings);
            &&& actions.contains(SessionActionView::Broadcast) <==> event is Replaced
            &&& actions.contains(SessionActionView::DropPeer) <==> event is Replaced
                || event is Closed
            &&& attached && !attached_after(attached, event) ==> actions.contains(
                SessionActionView::DropPeer,
            )
        }),
{
}

/// Every client of a pipeline that was replaced is told to reconnect, and told
/// nothing else.
pub proof fn law_announcement_reaches_the_client(
    attached: bool,
    pipeline: SharedPipelineView,
    settings: PeerSettings,
)
    ensures
        event_actions(attached, SessionEventView::Announced, pipeline, settings) == seq![
            SessionActionView::Send(SignalingMessageView::Reconfigured),
        ],
        attached_after(attached, SessionEventView::Announced) == attached,
{
}

/// The event that reports how a reconfiguration went.
pub open spec fn reconfigure_event(answer: Result<bool, ReconfigureErrorView>) -> SessionEventView {
    match answer {
        Ok(true) => SessionEventView::Replaced,
        Ok(false) => SessionEventView::Unchanged,
        Err(e) => SessionEventView::ReconfigureFailed(e),
    }
}

/// The event that reports how a reconfiguration went.
pub fn on_reconfigured(answer: Result<bool, ReconfigureError>) -> (r: SessionEvent)
    ensures
        r@ == reconfigure_event(
            match answer {
                Ok(replaced) => Ok::<bool, ReconfigureErrorView>(replaced),
                Err(e) => Err::<bool, ReconfigureErrorView>(e@),
            },
        ),
{
    match answer {
        Ok(true) => SessionEvent::Replaced,
        Ok(false) => SessionEvent::Unchanged,
        Err(e) => SessionEvent::ReconfigureFailed(e),
    }
}

/// A request for new parameters that is refused, or that fails in building or
/// starting the replacement, is answered with the reason; the pipeline and the
/// client's peer stay as they are.
pub proof fn law_failed_set_config_is_answered(
    attached: bool,
    pipeline: SharedPipelineView,
    settings: PeerSettings,
    request: ReconfigureRequest,
)
    requires
        reconfigured(pipeline, request).1 is Err,
    ensures
        ({
            let (after, answer) = reconfigured(pipeline, request);
            let event = reconfigure_event(answer);
            &&& after == pipeline
            &&& attached_after(attached, event) == attached
            &&& event_actions(attached, event, after, settings) == seq![
                SessionActionView::Send(
                    SignalingMessageView::Error {
                        message: "Reconfigure failed: "@ + reconfigure_error_text(answer->Err_0),
                    },
                ),
            ]
        }),
{
}

/// A request for the current parameters is answered with them; the pipeline and the
/// client's peer stay as they are, and no client is told to reconnect.
pub proof fn law_unchanged_set_config_is_answered(
    attached: bool,
    pipeline: SharedPipelineView,
    settings: PeerSettings,
    request: ReconfigureRequest,
)
    requires
        is_sound(pipeline),
        request.config == pipeline.config,
    ensures
        ({
            let (after, answer) = reconfigured(pipeline, request);
            let event = reconfigure_event(answer);
            &&& after == pipeline
            &&& attached_after(attached, event) == attached
            &&& event_actions(attached, event, after, settings) == seq![
                SessionActionView::Send(
                    SignalingMessageView::Config { config: pipeline.config },
                ),
            ]
        }),
{
}

/// After a replacement the client's peer is dropped, the client is sent the new
/// parameters, and then every client is told to reconnect.
pub proof fn law_replacing_set_config_is_announced(
    attached: bool,
    pipeline: SharedPipelineView,
    settings: PeerSettings,
    request: ReconfigureRequest,
)
    requires
        reconfigured(pipeline, request).1 == Ok::<bool, ReconfigureErrorView>(true),
    ensures
        ({
            let (after, answer) = reconfigured(pipeline, request);
            let event = reconfigure_event(answer);
            &&& after.config == request.config
            &&& !attached_after(attached, event)
            &&& event_actions(attached, event, after, settings) == seq![
                SessionActionView::DropPeer,
                SessionActionView::Send(SignalingMessageView::Config { config: request.config }),
                SessionActionView::Broadcast,
            ]
        }),
{
}

/// What a connection gets that waits for an announcement.
#[derive(Debug, Clone, Copy, PartialEq, Eq, Structural)]
pub enum Received {
    Announcement,
    /// The connection fell behind: announcements were dropped before it got them.
    FellBehind,
    /// There will be no more announcements.
    Ended,
}

/// The event that what was received stands for. Announcements that were dropped
/// count as one.
pub open spec fn received_event(received: Received) -> Option<SessionEventView> {
    match received {
        Received::Announcement | Received::FellBehind => Some(SessionEventView::Announced),
        Received::Ended => None,
    }
}

/// The event that what was received stands for.
pub fn on_received(received: Received) -> (r: Option<SessionEvent>)
    ensures
        match r {
            Some(event) => received_event(received) == Some(event@),
            None => received_event(received) is None,
        },
{
    match received {
        Received::Announcement | Received::FellBehind => Some(SessionEvent::Announced),
        Received::Ended => None,
    }
}

/// The announcements that wait for one client: those that are kept, and whether
/// older ones were dropped since it last received something.
pub struct Waiting {
    pub kept: nat,
    pub dropped: bool,
}

impl Waiting {
    /// Whether nothing waits.
    pub open spec fn is_empty(self) -> bool {
        self.kept == 0 && !self.dropped
    }

    /// One announcement more, of which at most `capacity` are kept.
    pub open spec fn announce(self, capacity: nat) -> Waiting {
        if self.kept < capacity {
            Waiting { kept: self.kept + 1, ..self }
        } else {
            Waiting { dropped: true, ..self }
        }
    }

    /// What the client receives, where something waits, and what then still waits.
    pub open spec fn receive(self) -> (Received, Waiting) {
        if self.dropped {
            (Received::FellBehind, Waiting { dropped: false, ..self })
        } else {
            (Received::Announcement, Waiting { kept: (self.kept - 1) as nat, ..self })
        }
    }
}

/// Something that happens in the server while a certain client is connected.
pub enum ServerStep {
    /// The connection of any client handles an event.
    Handle { attached: bool, event: SessionEventView, pipeline: SharedPipelineView },
    /// The connection of the certain client looks for an announcement.
    Receive { attached: bool, pipeline: SharedPipelineView },
}

/// The announcements that wait for the client after `steps`, counted from when it
/// connected.
pub open spec fn waiting_after(
    steps: Seq<ServerStep>,
    capacity: nat,
    settings: PeerSettings,
) -> Waiting
    decreases steps.len(),
{
    if steps.len() == 0 {
        Waiting { kept: 0, dropped: false }
    } else {
        let before = waiting_after(steps.drop_last(), capacity, settings);
        match steps.last() {
            ServerStep::Handle { attached, event, pipeline } => if event_actions(
                attached,
                event,
                pipeline,
                settings,
            ).contains(SessionActionView::Broadcast) {
                before.announce(capacity)
            } else {
                before
            },
            ServerStep::Receive { .. } => if before.is_empty() {
                before
            } else {
                before.receive().1
            },
        }
    }
}

/// Whether step `k` has the client sent `Reconfigured` for what it receives.
pub open spec fn tells_client(
    steps: Seq<ServerStep>,
    capacity: nat,
    settings: PeerSettings,
    k: int,
) -> bool {
    let before = waiting_after(steps.take(k), capacity, settings);
    &&& 0 <= k < steps.len()
    &&& !before.is_empty()
    &&& steps[k] matches ServerStep::Receive { attached, pipeline }
    &&& received_event(before.receive().0) matches Some(event)
    &&& event_actions(attached, event, pipeline, settings) == seq![
        SessionActionView::Send(SignalingMessageView::Reconfigured),
    ]
}

proof fn lemma_announcement_waits(
    steps: Seq<ServerStep>,
    capacity: nat,
    settings: PeerSettings,
    i: int,
    n: int,
)
    requires
        capacity > 0,
        0 <= i < n <= steps.len(),
        steps[i] matches ServerStep::Handle { event, .. } && event is Replaced,
    ensures
        (exists|k: int| i < k < n && #[trigger] tells_client(steps, capacity, settings, k))
            || !waiting_after(steps.take(n), capacity, settings).is_empty(),
    decreases n,
{
    assert(steps.take(n).drop_last() =~= steps.take(n - 1));
    if let ServerStep::Handle { attached, event, pipeline } = steps[n - 1] {
        law_peers_are_disturbed_only_by_a_replacement(attached, event, pipeline, settings);
    }
    if i < n - 1 {
        lemma_announcement_waits(steps, capacity, settings, i, n - 1);
        if !waiting_after(steps.take(n - 1), capacity, settings).is_empty()
            && steps[n - 1] is Receive {
            assert(tells_client(steps, capacity, settings, n - 1));
        }
    }
}

/// However many replacements there are and however fast they come, whichever client
/// asked for them, and however few announcements are kept: a client that is connected
/// is sent `Reconfigured` after each replacement, and so after the last, no later
/// than when its connection next looks for an announcement. Until then an
/// announcement waits for it.
pub proof fn law_every_replacement_reaches_the_client(
    steps: Seq<ServerStep>,
    capacity: nat,
    settings: PeerSettings,
    i: int,
    j: int,
)
    requires
        capacity > 0,
        0 <= i < j < steps.len(),
        steps[i] matches ServerStep::Handle { event, .. } && event is Replaced,
    ensures
        steps[j] is Receive ==> exists|k: int|
            i < k <= j && #[trigger] tells_client(steps, capacity, settings, k),
        (exists|k: int| i < k < j && #[trigger] tells_client(steps, capacity, settings, k))
            || !waiting_after(steps.take(j), capacity, settings).is_empty(),
{
    lemma_announcement_waits(steps, capacity, settings, i, j);
    if steps[j] is Receive && !waiting_after(steps.take(j), capacity, settings).is_empty() {
        assert(tells_client(steps, capacity, settings, j));
    }
}

/// Whatever the state of the connection, with a peer or without, a client that asks
/// to be served gets a branch: the one thing that is done is to attach it, with the
/// STUN server and the LAN address of the configuration. So a client whose peer was
/// orphaned by a replacement starts again on the connection that it has.
pub proof fn law_start_always_attaches(
    attached: bool,
    pipeline: SharedPipelineView,
    settings: PeerSettings,
)
    ensures
        ({
            let event = SessionEventView::Message(SignalingMessageView::Start);
            event_actions(attached, event, pipeline, settings) == seq![
                SessionActionView::Attach {
                    stun_server: settings.stun_server,
                    emulator_lan_ip: settings.emulator_lan_ip,
                },
            ]
        }),
{
}

/// Once a peer is attached, every answer and every candidate of the client reaches
/// it, unchanged, and nothing else is done.
pub proof fn law_negotiation_reaches_the_peer(
    sdp: Seq<char>,
    candidate: Seq<char>,
    sdp_mline_index: u32,
    pipeline: SharedPipelineView,
    settings: PeerSettings,
)
    ensures
        event_actions(
            true,
            SessionEventView::Message(SignalingMessageView::Answer { sdp }),
            pipeline,
            settings,
        ) == seq![SessionActionView::ApplyAnswer { sdp }],
        event_actions(
            true,
            SessionEventView::Message(
                SignalingMessageView::IceCandidate { candidate, sdp_mline_index },
            ),
            pipeline,
            settings,
        ) == seq![SessionActionView::AddCandidate { candidate, sdp_mline_index }],
{
}

/// Without a peer, an answer and a candidate have no effect, and the reason is noted.
pub proof fn law_negotiation_without_a_peer_is_noted(
    sdp: Seq<char>,
    candidate: Seq<char>,
    sdp_mline_index: u32,
    pipeline: SharedPipelineView,
    settings: PeerSettings,
)
    ensures
        event_actions(
            false,
            SessionEventView::Message(SignalingMessageView::Answer { sdp }),
            pipeline,
            settings,
        ) == seq![SessionActionView::Ignore(Ignored::AnswerBeforeStart)],
        event_actions(
            false,
            SessionEventView::Message(
                SignalingMessageView::IceCandidate { candidate, sdp_mline_index },
            ),
            pipeline,
            settings,
        ) == seq![SessionActionView::Ignore(Ignored::CandidateBeforeStart)],
{
}

/// Every question is answered, with a peer or without: one for the parameters with
/// those that the pipeline runs with, one for the cameras with all of them.
pub proof fn law_questions_are_answered(
    attached: bool,
    pipeline: SharedPipelineView,
    settings: PeerSettings,
)
    ensures
        event_actions(
            attached,
            SessionEventView::Message(SignalingMessageView::GetConfig),
            pipeline,
            settings,
        ) == seq![
            SessionActionView::Send(SignalingMessageView::Config { config: pipeline.config }),
        ],
        event_actions(
            attached,
            SessionEventView::Message(SignalingMessageView::GetDevices),
            pipeline,
            settings,
        ) == seq![
            SessionActionView::Send(SignalingMessageView::Devices { devices: pipeline.devices }),
        ],
{
}

/// Every request for new parameters is tried, as it was made, with a peer or without.
pub proof fn law_every_request_is_tried(
    attached: bool,
    config: VideoConfigView,
    pipeline: SharedPipelineView,
    settings: PeerSettings,
)
    ensures
        event_actions(
            attached,
            SessionEventView::Message(SignalingMessageView::SetConfig { config }),
            pipeline,
            settings,
        ) == seq![SessionActionView::Reconfigure(config)],
{
}

/// Whether a message is one that a client may send.
pub open spec fn is_client_message(message: SignalingMessageView) -> bool {
    ||| message is Start
    ||| message is Answer
    ||| message is IceCandidate
    ||| message is GetConfig
    ||| message is GetDevices
    ||| message is SetConfig
}

/// A message has an effect if and only if it is one that a client may send, and, if it
/// is an answer or a candidate, there is a peer. One that has none is noted, as the
/// only thing that is done, an offer apart from what only the server sends.
pub proof fn law_messages_have_an_effect_or_are_noted(
    attached: bool,
    message: SignalingMessageView,
    pipeline: SharedPipelineView,
    settings: PeerSettings,
)
    ensures
        ({
            let actions = event_actions(
                attached,
                SessionEventView::Message(message),
                pipeline,
                settings,
            );
            &&& actions.len() == 1
            &&& actions[0] is Ignore <==> {
                ||| !is_client_message(message)
                ||| !attached && (message is Answer || message is IceCandidate)
            }
            &&& message is Offer ==> actions[0] == SessionActionView::Ignore(
                Ignored::UnexpectedOffer,
            )
            &&& message is Config || message is Devices || message is Reconfigured
                || message is Error ==> actions[0] == SessionActionView::Ignore(
                Ignored::ServerOnly,
            )
        }),
{
}

/// No message, and no frame that is none, changes whether there is a peer: only an
/// attachment, a replacement and the end of the connection do.
pub proof fn law_only_three_events_change_the_peer(attached: bool, event: SessionEventView)
    ensures
        attached_after(attached, event) == (event is Attached || (attached
            && !(event is Replaced) && !(event is Closed))),
{
}

/// A connection ends exactly when the client closes it or it breaks; its peer is
/// dropped first. A text that is no message is noted, and a frame that is neither has
/// no effect; both leave the connection open.
pub proof fn law_connection_ends_when_closed(
    attached: bool,
    event: SessionEventView,
    pipeline: SharedPipelineView,
    settings: PeerSettings,
)
    ensures
        event_actions(attached, event, pipeline, settings).contains(SessionActionView::Stop)
            <==> event is Closed,
        event is Closed ==> event_actions(attached, event, pipeline, settings) == seq![
            SessionActionView::DropPeer,
            SessionActionView::Stop,
        ],
        event is Malformed ==> event_actions(attached, event, pipeline, settings) == seq![
            SessionActionView::Ignore(Ignored::Malformed),
        ],
        event is OtherFrame || event is Attached || event is AttachFailed ==> event_actions(
            attached,
            event,
            pipeline,
            settings,
        ).len() == 0,
{
    let actions = event_actions(attached, event, pipeline, settings);
    if event is Closed {
        assert(actions[1] == SessionActionView::Stop);
    }
}

/// Of each announcement, and of one or more that were dropped, the client is told,
/// and of the end of announcements it is not.
pub proof fn law_heard_and_missed_announcements_count(received: Received)
    ensures
        received_event(received) == (if received is Ended {
            None::<SessionEventView>
        } else {
            Some(SessionEventView::Announced)
        }),
{
}

/// What a peer is attached with is what the configuration says.
pub proof fn law_peer_settings_are_configured(config: Config)
    ensures
        peer_settings(config).stun_server == config.stun_server@,
        match config.emulator_lan_ip {
            Some(ip) => peer_settings(config).emulator_lan_ip == Some(ip@),
            None => peer_settings(config).emulator_lan_ip is None,
        },
{
}

} // verus!
