//! The ingestion client's decisions.
//!
//! The client owns one connection to the event feed at a time. Opening the
//! socket, reading it, sleeping and calling the subscription API are the
//! caller's work; what to do next is decided here. The caller reports what
//! happened (an attempt succeeded or failed, a frame arrived, the feed fell
//! silent) together with the time on its own monotonic clock, in
//! milliseconds, and carries out the action that it gets back.

use crate::decoder::{decoded, new_twitch_event, spec_new_twitch_event, DecodeError};
use crate::messages::{opt_chars, NewTwitchEventMessage, NewTwitchEventMessageView};
use crate::wire::{
    read_frame, spec_read_frame, ConnectSession, Frame, FrameError, WireNotification,
};
use vstd::prelude::*;

verus! {

/// Silence after which a connection counts as dead, unless configured
/// otherwise.
pub const KEEPALIVE_TIMEOUT_MS: u64 = 40_000;

/// Pause after a failed connection attempt, unless configured otherwise.
pub const RECONNECT_BACKOFF_MS: u64 = 1_000;

/// Where the client stands with its connection.
#[derive(Clone, Copy, Debug, PartialEq, Eq, Structural)]
pub enum ClientState {
    /// No connection, and none asked for yet.
    Disconnected,
    /// A connection attempt is under way.
    Connecting,
    /// Connected; the feed has not yet announced a session.
    AwaitingHandshake,
    /// The session is known and its subscriptions are being requested.
    Subscribing,
    /// Notifications are flowing.
    Streaming,
    /// The connection was lost or an attempt failed; the next step is a
    /// new attempt.
    Reconnecting,
}

/// The client's timing.
#[derive(Clone, Copy, Debug, PartialEq, Eq, Structural)]
pub struct ClientConfig {
    /// Silence, in milliseconds, after which the connection counts as dead.
    pub keepalive_timeout_ms: u64,
    /// Pause, in milliseconds, after a failed connection attempt.
    pub reconnect_backoff_ms: u64,
}

impl ClientConfig {
    /// The timing that the feed's own keepalive interval calls for.
    pub fn standard() -> (config: ClientConfig)
        ensures
            config.keepalive_timeout_ms == KEEPALIVE_TIMEOUT_MS,
            config.reconnect_backoff_ms == RECONNECT_BACKOFF_MS,
    {
        ClientConfig {
            keepalive_timeout_ms: KEEPALIVE_TIMEOUT_MS,
            reconnect_backoff_ms: RECONNECT_BACKOFF_MS,
        }
    }
}

/// A kind of channel activity that the client asks the feed to report.
#[derive(Clone, Copy, Debug, PartialEq, Eq, Structural)]
pub enum MonitoredKind {
    Follow,
    Subscribe,
    Resubscribe,
    Raid,
    SubscriptionGift,
    Cheer,
}

/// One request to the feed's management API: report activity of `kind` on
/// the channel of `broadcaster_user_id` to the session `session_id`.
#[derive(Debug, PartialEq, Eq)]
pub struct SubscriptionRequest {
    pub kind: MonitoredKind,
    pub session_id: String,
    pub broadcaster_user_id: String,
}

pub struct SubscriptionRequestView {
    pub kind: MonitoredKind,
    pub session_id: Seq<char>,
    pub broadcaster_user_id: Seq<char>,
}

impl View for SubscriptionRequest {
    type V = SubscriptionRequestView;

    open spec fn view(&self) -> SubscriptionRequestView {
        SubscriptionRequestView {
            kind: self.kind,
            session_id: self.session_id@,
            broadcaster_user_id: self.broadcaster_user_id@,
        }
    }
}

/// The kinds of activity that are monitored: every kind that is a channel
/// event, in the order in which they are asked for.
pub open spec fn monitored_kinds() -> Seq<MonitoredKind> {
    seq![
        MonitoredKind::Follow,
        MonitoredKind::Subscribe,
        MonitoredKind::Resubscribe,
        MonitoredKind::Raid,
        MonitoredKind::SubscriptionGift,
        MonitoredKind::Cheer,
    ]
}

/// The requests that a handshake calls for: one for each monitored kind,
/// each for the channel of `broadcaster` and scoped to `session`.
pub open spec fn spec_requests(session: Seq<char>, broadcaster: Seq<char>) -> Seq<
    SubscriptionRequestView,
> {
    Seq::new(
        monitored_kinds().len(),
        |i: int|
            SubscriptionRequestView {
                kind: monitored_kinds()[i],
                session_id: session,
                broadcaster_user_id: broadcaster,
            },
    )
}

/// The views of `requests`, in order.
pub open spec fn request_views(requests: Seq<SubscriptionRequest>) -> Seq<
    SubscriptionRequestView,
> {
    Seq::new(requests.len(), |i: int| requests[i]@)
}

/// The subscription requests for the session `session_id` on the channel
/// of `broadcaster_user_id`.
pub fn subscription_requests(session_id: &str, broadcaster_user_id: &str) -> (requests: Vec<
    SubscriptionRequest,
>)
    ensures
        request_views(requests@) == spec_requests(session_id@, broadcaster_user_id@),
{
    let mut requests: Vec<SubscriptionRequest> = Vec::new();
    requests.push(subscription_request(MonitoredKind::Follow, session_id, broadcaster_user_id));
    requests.push(subscription_request(MonitoredKind::Subscribe, session_id, broadcaster_user_id));
    requests.push(
        subscription_request(MonitoredKind::Resubscribe, session_id, broadcaster_user_id),
    );
    requests.push(subscription_request(MonitoredKind::Raid, session_id, broadcaster_user_id));
    requests.push(
        subscription_request(MonitoredKind::SubscriptionGift, session_id, broadcaster_user_id),
    );
    requests.push(subscription_request(MonitoredKind::Cheer, session_id, broadcaster_user_id));
    assert(request_views(requests@) =~= spec_requests(session_id@, broadcaster_user_id@));
    requests
}

fn subscription_request(kind: MonitoredKind, session_id: &str, broadcaster_user_id: &str) -> (request:
    SubscriptionRequest)
    ensures
        request@ == (SubscriptionRequestView {
            kind,
            session_id: session_id@,
            broadcaster_user_id: broadcaster_user_id@,
        }),
{
    SubscriptionRequest {
        kind,
        session_id: session_id.to_owned(),
        broadcaster_user_id: broadcaster_user_id.to_owned(),
    }
}

/// A message as the socket delivers it.
#[derive(Debug, PartialEq, Eq)]
pub enum SocketMessage {
    /// A text message: a frame of the feed, if it can be read.
    Text(String),
    /// The feed closes the connection.
    Close,
    /// Any other message: a sign of life and nothing more.
    Other,
}

/// What the caller is to do next.
#[derive(Debug, PartialEq, Eq)]
pub enum ClientAction {
    /// Issue these requests, one for each monitored kind. A request that
    /// fails is logged and does not stop the stream.
    Subscribe(Vec<SubscriptionRequest>),
    /// Hand the decoded event to whoever consumes events.
    Forward(NewTwitchEventMessage),
    /// Drop the connection and call `connect` for a new one.
    Reconnect,
    /// Wait this many milliseconds, then call `connect` again.
    Retry(u64),
    /// Nothing to do: wait for the next frame or for the keepalive deadline.
    Continue,
}

pub enum ClientActionView {
    Subscribe(Seq<SubscriptionRequestView>),
    Forward(NewTwitchEventMessageView),
    Reconnect,
    Retry(u64),
    Continue,
}

impl View for ClientAction {
    type V = ClientActionView;

    open spec fn view(&self) -> ClientActionView {
        match *self {
            ClientAction::Subscribe(requests) => ClientActionView::Subscribe(
                request_views(requests@),
            ),
            ClientAction::Forward(message) => ClientActionView::Forward(message@),
            ClientAction::Reconnect => ClientActionView::Reconnect,
            ClientAction::Retry(ms) => ClientActionView::Retry(ms),
            ClientAction::Continue => ClientActionView::Continue,
        }
    }
}

/// Why the client could not act on what it was given.
#[derive(Debug, PartialEq, Eq)]
pub enum ClientError {
    /// A text that has to be an absolute URL is none.
    InvalidUrl,
    /// A text frame is not a well-formed frame of the feed.
    MalformedFrame,
    /// A notification was not decoded; the stream goes on without it.
    Decode(DecodeError),
}

/// The outcome of a step, with the action replaced by its view.
pub open spec fn outcome_view(outcome: Result<ClientAction, ClientError>) -> Result<
    ClientActionView,
    ClientError,
> {
    match outcome {
        Ok(action) => Ok(action@),
        Err(error) => Err(error),
    }
}

/// What `Url::parse` of the `url` crate makes of `text`: the serialization
/// of the URL that it reads, or `None` where it reads none.
pub uninterp spec fn parsed_url(text: Seq<char>) -> Option<Seq<char>>;

/// Parses `text` as an absolute URL with `Url::parse` of the `url` crate and
/// gives the URL's serialization; `None` where the crate reports an error.
#[verifier::external_body]
fn parse_url(text: &str) -> (url: Option<String>)
    ensures
        opt_chars(url) == parsed_url(text@),
{
    match url::Url::parse(text) {
        Ok(url) => Some(url.into()),
        Err(_) => None,
    }
}

/// What happens to a client, as the caller reports it.
pub enum ClientInput {
    /// The caller is about to open a connection.
    Connect,
    /// The attempt succeeded, at this time.
    Connected(u64),
    /// The attempt failed, or the transport reported a fault.
    Failure,
    /// The subscription requests have been issued.
    Subscribed,
    /// A frame arrived, at this time.
    Frame(u64, Frame),
    /// A text arrived, at this time, that is no frame the client can act on.
    Unreadable(u64),
    /// The keepalive deadline passed without a frame; it is now this time.
    Silence(u64),
}

/// The client's state as plain values.
pub struct ClientModel {
    pub user_id: Seq<char>,
    pub session_id: Option<Seq<char>>,
    pub connect_url: Seq<char>,
    pub state: ClientState,
    pub last_frame_at: u64,
    pub config: ClientConfig,
}

impl ClientModel {
    /// Whether a connection is established.
    pub open spec fn connected(self) -> bool {
        self.state == ClientState::AwaitingHandshake || self.state == ClientState::Subscribing
            || self.state == ClientState::Streaming
    }

    /// Whether, at time `now`, the feed has been silent for the keepalive
    /// timeout or longer on an established connection.
    pub open spec fn silent_too_long(self, now: u64) -> bool {
        self.connected() && now - self.last_frame_at >= self.config.keepalive_timeout_ms
    }

    /// The client after a frame of any kind, readable or not, arrived at
    /// time `now`: on an established connection the watchdog starts anew.
    pub open spec fn heard(self, now: u64) -> ClientModel {
        if self.connected() {
            ClientModel { last_frame_at: now, ..self }
        } else {
            self
        }
    }

    /// The client after the handshake `session`. The session identifier is
    /// kept in any case. A reconnect URL replaces the connect URL if it is
    /// valid; if it is not, nothing else changes. The first handshake on a
    /// connection moves the client on to subscribing.
    pub open spec fn handshake(self, session: ConnectSession) -> ClientModel {
        let noted = ClientModel { session_id: Some(session.id@), ..self };
        let next = if self.state == ClientState::AwaitingHandshake {
            ClientState::Subscribing
        } else {
            self.state
        };
        match session.reconnect_url {
            None => ClientModel { state: next, ..noted },
            Some(url) => match parsed_url(url@) {
                None => noted,
                Some(target) => ClientModel { connect_url: target, state: next, ..noted },
            },
        }
    }

    /// What the handshake `session` asks of the caller.
    pub open spec fn handshake_outcome(self, session: ConnectSession) -> Result<
        ClientActionView,
        ClientError,
    > {
        if session.reconnect_url matches Some(url) && parsed_url(url@) is None {
            Err(ClientError::InvalidUrl)
        } else if self.state == ClientState::AwaitingHandshake {
            Ok(ClientActionView::Subscribe(spec_requests(session.id@, self.user_id)))
        } else {
            Ok(ClientActionView::Continue)
        }
    }

    /// The client after `input`.
    pub open spec fn step(self, input: ClientInput) -> ClientModel {
        match input {
            ClientInput::Connect => ClientModel { state: ClientState::Connecting, ..self },
            ClientInput::Connected(now) => if self.state == ClientState::Connecting {
                ClientModel { state: ClientState::AwaitingHandshake, last_frame_at: now, ..self }
            } else {
                self
            },
            ClientInput::Failure => if self.state == ClientState::Connecting || self.connected() {
                ClientModel { state: ClientState::Reconnecting, ..self }
            } else {
                self
            },
            ClientInput::Subscribed => if self.state == ClientState::Subscribing {
                ClientModel { state: ClientState::Streaming, ..self }
            } else {
                self
            },
            ClientInput::Frame(now, frame) => if self.connected() {
                match frame {
                    Frame::Welcome(session) => self.heard(now).handshake(session),
                    Frame::Reconnect(session) => self.heard(now).handshake(session),
                    _ => self.heard(now),
                }
            } else {
                self
            },
            ClientInput::Unreadable(now) => self.heard(now),
            ClientInput::Silence(now) => if self.silent_too_long(now) {
                ClientModel { state: ClientState::Reconnecting, ..self }
            } else {
                self
            },
        }
    }

    /// The client after each of `inputs`, in order.
    pub open spec fn run(self, inputs: Seq<ClientInput>) -> ClientModel
        decreases inputs.len(),
    {
        if inputs.len() == 0 {
            self
        } else {
            self.run(inputs.drop_last()).step(inputs.last())
        }
    }

    /// What a failure asks of the caller: after a failed attempt, a pause
    /// and another attempt; after a fault on an established connection, a
    /// new connection at once.
    pub open spec fn failure_action(self) -> ClientActionView {
        if self.state == ClientState::Connecting {
            ClientActionView::Retry(self.config.reconnect_backoff_ms)
        } else if self.connected() {
            ClientActionView::Reconnect
        } else {
            ClientActionView::Continue
        }
    }

    /// What silence at time `now` asks of the caller.
    pub open spec fn silence_action(self, now: u64) -> ClientActionView {
        if self.silent_too_long(now) {
            ClientActionView::Reconnect
        } else {
            ClientActionView::Continue
        }
    }

    /// What the socket message `message` asks of the caller: a text is
    /// acted on as the frame that it holds and refused where it holds none,
    /// a close is a failure of the connection, and any other message asks
    /// for what a keepalive frame asks for.
    pub open spec fn socket_outcome(self, message: SocketMessage) -> Result<
        ClientActionView,
        ClientError,
    > {
        match message {
            SocketMessage::Text(text) => match spec_read_frame(text@) {
                Ok(frame) => self.frame_outcome(frame),
                Err(FrameError::Malformed) => Err(ClientError::MalformedFrame),
                Err(FrameError::UnknownShape(tag)) => Err(
                    ClientError::Decode(DecodeError::UnsupportedEventKind(tag)),
                ),
            },
            SocketMessage::Close => Ok(self.failure_action()),
            SocketMessage::Other => self.frame_outcome(Frame::Keepalive),
        }
    }

    /// What the frame `frame` asks of the caller.
    pub open spec fn frame_outcome(self, frame: Frame) -> Result<ClientActionView, ClientError> {
        if !self.connected() {
            Ok(ClientActionView::Continue)
        } else {
            match frame {
                Frame::Welcome(session) => self.handshake_outcome(session),
                Frame::Reconnect(session) => self.handshake_outcome(session),
                Frame::Notification(notification) => notification_outcome(notification),
                Frame::Revocation => Ok(ClientActionView::Continue),
                Frame::Keepalive => Ok(ClientActionView::Continue),
            }
        }
    }
}

/// What a notification asks of the caller: to forward the event that it
/// decodes to, under the notification's own identifier and timestamp.
pub open spec fn notification_outcome(notification: WireNotification) -> Result<
    ClientActionView,
    ClientError,
> {
    match spec_new_twitch_event(notification.event) {
        Ok(event) => Ok(
            ClientActionView::Forward(
                NewTwitchEventMessageView {
                    event,
                    message_id: notification.message_id@,
                    message_at: notification.message_at@,
                },
            ),
        ),
        Err(error) => Err(ClientError::Decode(error)),
    }
}

/// What a socket message that arrived at time `now` reports to the client.
pub open spec fn socket_input(now: u64, message: SocketMessage) -> ClientInput {
    match message {
        SocketMessage::Text(text) => match spec_read_frame(text@) {
            Ok(frame) => ClientInput::Frame(now, frame),
            Err(_) => ClientInput::Unreadable(now),
        },
        SocketMessage::Close => ClientInput::Failure,
        SocketMessage::Other => ClientInput::Frame(now, Frame::Keepalive),
    }
}

/// Whether `input` is a handshake frame that names a reconnect URL.
pub open spec fn names_url(input: ClientInput) -> bool {
    match input {
        ClientInput::Frame(_, Frame::Welcome(session)) => session.reconnect_url is Some,
        ClientInput::Frame(_, Frame::Reconnect(session)) => session.reconnect_url is Some,
        _ => false,
    }
}

/// The ingestion client: the session it holds and where it stands with its
/// connection.
pub struct WebsocketClient {
    user_id: String,
    session_id: Option<String>,
    connect_url: String,
    state: ClientState,
    last_frame_at: u64,
    config: ClientConfig,
}

impl View for WebsocketClient {
    type V = ClientModel;

    closed spec fn view(&self) -> ClientModel {
        ClientModel {
            user_id: self.user_id@,
            session_id: opt_chars(self.session_id),
            connect_url: self.connect_url@,
            state: self.state,
            last_frame_at: self.last_frame_at,
            config: self.config,
        }
    }
}

impl WebsocketClient {
    /// A client for the channel of the broadcaster `user_id` that will
    /// connect to `connect_url`. The text has to be an absolute URL; the
    /// client keeps it in serialized form.
    pub fn new(connect_url: &str, user_id: &str, config: ClientConfig) -> (client: Result<
        WebsocketClient,
        ClientError,
    >)
        ensures
            match client {
                Ok(client) => parsed_url(connect_url@) == Some(client@.connect_url)
                    && client@.user_id == user_id@ && client@.session_id is None
                    && client@.state == ClientState::Disconnected
                    && client@.last_frame_at == 0 && client@.config == config,
                Err(error) => parsed_url(connect_url@) is None && error == ClientError::InvalidUrl,
            },
    {
        match parse_url(connect_url) {
            None => Err(ClientError::InvalidUrl),
            Some(url) => Ok(
                WebsocketClient {
                    user_id: user_id.to_owned(),
                    session_id: None,
                    connect_url: url,
                    state: ClientState::Disconnected,
                    last_frame_at: 0,
                    config,
                },
            ),
        }
    }

    /// Where the client stands with its connection.
    pub fn state(&self) -> (state: ClientState)
        ensures
            state == self@.state,
    {
        self.state
    }

    /// The broadcaster whose channel is monitored.
    pub fn user_id(&self) -> (id: &str)
        ensures
            id@ == self@.user_id,
    {
        self.user_id.as_str()
    }

    /// The session announced by the last handshake, if there was one.
    pub fn session_id(&self) -> (id: &Option<String>)
        ensures
            opt_chars(*id) == self@.session_id,
    {
        &self.session_id
    }

    /// The URL that the next connection attempt goes to.
    pub fn connect_url(&self) -> (url: &str)
        ensures
            url@ == self@.connect_url,
    {
        self.connect_url.as_str()
    }

    /// The time at which the connection counts as dead if no frame arrives
    /// before; `None` while no connection is established. The time is
    /// capped at the largest that the clock can show.
    pub fn keepalive_deadline(&self) -> (deadline: Option<u64>)
        ensures
            deadline == if self@.connected() {
                Some(
                    if self@.last_frame_at + self@.config.keepalive_timeout_ms <= u64::MAX {
                        (self@.last_frame_at + self@.config.keepalive_timeout_ms) as u64
                    } else {
                        u64::MAX
                    },
                )
            } else {
                None
            },
    {
        if self.is_connected() {
            if self.last_frame_at <= u64::MAX - self.config.keepalive_timeout_ms {
                Some(self.last_frame_at + self.config.keepalive_timeout_ms)
            } else {
                Some(u64::MAX)
            }
        } else {
            None
        }
    }

    fn is_connected(&self) -> (connected: bool)
        ensures
            connected == self@.connected(),
    {
        match self.state {
            ClientState::AwaitingHandshake | ClientState::Subscribing | ClientState::Streaming => {
                true
            },
            _ => false,
        }
    }

    /// Starts a connection attempt: gives the URL to connect to, and counts
    /// the attempt as under way until `connected` or `process_failure`
    /// reports how it ended.
    pub fn connect(&mut self) -> (url: String)
        ensures
            url@ == old(self)@.connect_url,
            final(self)@ == old(self)@.step(ClientInput::Connect),
    {
        self.state = ClientState::Connecting;
        self.connect_url.clone()
    }

    /// The attempt succeeded at time `now`: the client waits for the
    /// handshake, and the keepalive watchdog starts.
    pub fn connected(&mut self, now: u64)
        ensures
            final(self)@ == old(self)@.step(ClientInput::Connected(now)),
    {
        if self.state == ClientState::Connecting {
            self.state = ClientState::AwaitingHandshake;
            self.last_frame_at = now;
        }
    }

    /// The subscription requests have been issued, whether or not each of
    /// them succeeded: notifications flow from here on.
    pub fn subscribed(&mut self)
        ensures
            final(self)@ == old(self)@.step(ClientInput::Subscribed),
    {
        if self.state == ClientState::Subscribing {
            self.state = ClientState::Streaming;
        }
    }

    /// A connection attempt failed, or the transport reported a reset, a
    /// protocol error or any other fault. The fault is never passed on:
    /// the answer is always another attempt.
    pub fn process_failure(&mut self) -> (action: ClientAction)
        ensures
            action@ == old(self)@.failure_action(),
            final(self)@ == old(self)@.step(ClientInput::Failure),
    {
        if self.state == ClientState::Connecting {
            self.state = ClientState::Reconnecting;
            ClientAction::Retry(self.config.reconnect_backoff_ms)
        } else if self.is_connected() {
            self.state = ClientState::Reconnecting;
            ClientAction::Reconnect
        } else {
            ClientAction::Continue
        }
    }

    /// The keepalive deadline passed and it is now `now`. If no frame has
    /// arrived for the keepalive timeout, the connection is given up for
    /// dead. A caller for which a frame and the deadline are ready at once
    /// reports the frame first.
    pub fn process_silence(&mut self, now: u64) -> (action: ClientAction)
        ensures
            action@ == old(self)@.silence_action(now),
            final(self)@ == old(self)@.step(ClientInput::Silence(now)),
    {
        if self.is_connected() && now >= self.last_frame_at && now - self.last_frame_at
            >= self.config.keepalive_timeout_ms {
            self.state = ClientState::Reconnecting;
            ClientAction::Reconnect
        } else {
            ClientAction::Continue
        }
    }

    /// Takes note of a handshake: the session identifier, and the URL for
    /// later connections if the handshake names one. The first handshake on
    /// a connection asks for the subscriptions: one request for each
    /// monitored kind, for the client's channel and scoped to the session.
    pub fn process_welcome_message(&mut self, data: ConnectSession) -> (outcome: Result<
        ClientAction,
        ClientError,
    >)
        ensures
            final(self)@ == old(self)@.handshake(data),
            outcome_view(outcome) == old(self)@.handshake_outcome(data),
    {
        self.session_id = Some(data.id.clone());
        match &data.reconnect_url {
            None => {},
            Some(url) => match parse_url(url.as_str()) {
                None => {
                    return Err(ClientError::InvalidUrl);
                },
                Some(target) => {
                    self.connect_url = target;
                },
            },
        }
        if self.state == ClientState::AwaitingHandshake {
            self.state = ClientState::Subscribing;
            Ok(
                ClientAction::Subscribe(
                    subscription_requests(data.id.as_str(), self.user_id.as_str()),
                ),
            )
        } else {
            Ok(ClientAction::Continue)
        }
    }

    /// Decodes a notification and wraps the event with the notification's
    /// identifier and timestamp. A notification that does not decode is
    /// reported and changes nothing.
    pub fn process_notification(&self, notification: WireNotification) -> (outcome: Result<
        ClientAction,
        ClientError,
    >)
        ensures
            outcome_view(outcome) == notification_outcome(notification),
    {
        match new_twitch_event(&notification.event) {
            Ok(event) => Ok(
                ClientAction::Forward(
                    NewTwitchEventMessage {
                        event,
                        message_id: notification.message_id,
                        message_at: notification.message_at,
                    },
                ),
            ),
            Err(error) => Err(ClientError::Decode(error)),
        }
    }

    /// Acts on a frame that arrived at time `now`. Frames are only expected
    /// on an established connection; at any other time they are ignored.
    pub fn process_frame(&mut self, now: u64, frame: Frame) -> (outcome: Result<
        ClientAction,
        ClientError,
    >)
        ensures
            final(self)@ == old(self)@.step(ClientInput::Frame(now, frame)),
            outcome_view(outcome) == old(self)@.frame_outcome(frame),
    {
        if !self.is_connected() {
            return Ok(ClientAction::Continue);
        }
        self.last_frame_at = now;
        match frame {
            Frame::Welcome(session) => self.process_welcome_message(session),
            Frame::Reconnect(session) => self.process_welcome_message(session),
            Frame::Notification(notification) => self.process_notification(notification),
            Frame::Revocation => Ok(ClientAction::Continue),
            Frame::Keepalive => Ok(ClientAction::Continue),
        }
    }

    /// Acts on a text frame that arrived at time `now`: on the frame that
    /// the text holds, as `process_frame` does. A text that holds no frame
    /// still shows that the feed is alive, and is refused: as malformed, or,
    /// where it is of a kind and version for which no payload shape is
    /// known, as the decoder refuses an unsupported notification.
    pub fn process_message(&mut self, now: u64, text: &str) -> (outcome: Result<
        ClientAction,
        ClientError,
    >)
        ensures
            final(self)@ == old(self)@.step(
                match spec_read_frame(text@) {
                    Ok(frame) => ClientInput::Frame(now, frame),
                    Err(_) => ClientInput::Unreadable(now),
                },
            ),
            outcome_view(outcome) == match spec_read_frame(text@) {
                Ok(frame) => old(self)@.frame_outcome(frame),
                Err(FrameError::Malformed) => Err(ClientError::MalformedFrame),
                Err(FrameError::UnknownShape(tag)) => Err(
                    ClientError::Decode(DecodeError::UnsupportedEventKind(tag)),
                ),
            },
    {
        match read_frame(text) {
            Ok(frame) => self.process_frame(now, frame),
            Err(error) => {
                if self.is_connected() {
                    self.last_frame_at = now;
                }
                match error {
                    FrameError::Malformed => Err(ClientError::MalformedFrame),
                    FrameError::UnknownShape(tag) => Err(
                        ClientError::Decode(DecodeError::UnsupportedEventKind(tag)),
                    ),
                }
            },
        }
    }

    /// Acts on a message of the socket that arrived at time `now`.
    pub fn process_socket_message(&mut self, now: u64, message: &SocketMessage) -> (outcome:
        Result<ClientAction, ClientError>)
        ensures
            final(self)@ == old(self)@.step(socket_input(now, *message)),
            outcome_view(outcome) == old(self)@.socket_outcome(*message),
    {
        match message {
            SocketMessage::Text(text) => self.process_message(now, text.as_str()),
            SocketMessage::Close => Ok(self.process_failure()),
            SocketMessage::Other => self.process_frame(now, Frame::Keepalive),
        }
    }
}

/// Silence for the keepalive timeout or longer on an established
/// connection asks for a new connection exactly once: the client gives the
/// connection up, and silence asks for nothing more, at whatever later
/// time, until a connection is established again.
pub proof fn lemma_silence_reconnects_once(client: ClientModel, now: u64, later: u64)
    requires
        client.silent_too_long(now),
    ensures
        client.silence_action(now) == ClientActionView::Reconnect,
        client.step(ClientInput::Silence(now)).state == ClientState::Reconnecting,
        client.step(ClientInput::Silence(now)).silence_action(later) == ClientActionView::Continue,
        client.step(ClientInput::Silence(now)).step(ClientInput::Silence(later)) == client.step(
            ClientInput::Silence(now),
        ),
{
}

/// A frame of any kind, a keepalive frame among them, resets the watchdog:
/// when less than the keepalive timeout has passed since the frame arrived,
/// silence asks for nothing and the connection stays as it is.
pub proof fn lemma_frame_resets_watchdog(client: ClientModel, at: u64, frame: Frame, now: u64)
    requires
        client.connected(),
        now - at < client.config.keepalive_timeout_ms,
    ensures
        client.step(ClientInput::Frame(at, frame)).connected(),
        client.step(ClientInput::Frame(at, frame)).last_frame_at == at,
        client.step(ClientInput::Frame(at, frame)).silence_action(now)
            == ClientActionView::Continue,
        client.step(ClientInput::Frame(at, frame)).step(ClientInput::Silence(now)) == client.step(
            ClientInput::Frame(at, frame),
        ),
{
}

/// Nothing but a handshake that names a URL changes where the client
/// connects to.
pub proof fn lemma_connect_url_is_kept(client: ClientModel, inputs: Seq<ClientInput>)
    requires
        forall|i: int| 0 <= i < inputs.len() ==> !names_url(#[trigger] inputs[i]),
    ensures
        client.run(inputs).connect_url == client.connect_url,
    decreases inputs.len(),
{
    if inputs.len() > 0 {
        let earlier = inputs.drop_last();
        assert forall|i: int| 0 <= i < earlier.len() implies !names_url(#[trigger] earlier[i]) by {
            assert(earlier[i] == inputs[i]);
        }
        lemma_connect_url_is_kept(client, earlier);
        assert(!names_url(inputs[inputs.len() - 1]));
    }
}

/// A handshake frame that arrives on an established connection and names a
/// valid URL makes that URL the target of every later connection attempt,
/// whatever else happens, until another handshake names a URL.
pub proof fn lemma_reconnect_url_is_followed(
    client: ClientModel,
    now: u64,
    session: ConnectSession,
    inputs: Seq<ClientInput>,
)
    requires
        client.connected(),
        session.reconnect_url is Some,
        parsed_url(session.reconnect_url->Some_0@) is Some,
        forall|i: int| 0 <= i < inputs.len() ==> !names_url(#[trigger] inputs[i]),
    ensures
        client.step(ClientInput::Frame(now, Frame::Reconnect(session))).run(inputs).connect_url
            == parsed_url(session.reconnect_url->Some_0@)->Some_0,
        client.step(ClientInput::Frame(now, Frame::Welcome(session))).run(inputs).connect_url
            == parsed_url(session.reconnect_url->Some_0@)->Some_0,
{
    lemma_connect_url_is_kept(
        client.step(ClientInput::Frame(now, Frame::Reconnect(session))),
        inputs,
    );
    lemma_connect_url_is_kept(client.step(ClientInput::Frame(now, Frame::Welcome(session))), inputs);
}

} // verus!
