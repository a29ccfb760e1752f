//! The rules of the receive loops: one loop per channel, what a loop does
//! with each frame, and when a subscription starts a loop, keeps the one
//! that runs, or replaces it.

use vstd::prelude::*;
use vstd::string::StringExecFns;
use crate::codes::{Environment, TrId};
use crate::control::{control_of, text_of, ControlFrame};
use crate::error::Error;
use crate::stream::exec::Exec;
use crate::stream::my_exec::MyExec;
use crate::stream::ordb::Ordb;
use crate::stream::Header;
use crate::subscribe::{ResponseView, SubscribeResponse};
use crate::text::bytes_of;

verus! {

/// The three streaming channels.
#[derive(Clone, Copy, Debug, PartialEq, Eq, Structural)]
pub enum Channel {
    /// Trade ticks.
    Exec,
    /// Order-book depth.
    Ordb,
    /// Personal fills.
    MyExec,
}

impl Channel {
    /// The channel that a transaction id stands for; the ids of the REST
    /// calls and of the heartbeat stand for none.
    pub open spec fn of(tr_id: TrId) -> Option<Channel> {
        match tr_id {
            TrId::RealtimeExec => Some(Channel::Exec),
            TrId::RealtimeOrdb => Some(Channel::Ordb),
            TrId::RealRealtimeMyExec | TrId::VirtualRealtimeMyExec => Some(Channel::MyExec),
            _ => None,
        }
    }

    /// The channel that a transaction id stands for.
    pub fn from_tr_id(tr_id: TrId) -> (r: Option<Channel>)
        ensures
            r == Channel::of(tr_id),
    {
        match tr_id {
            TrId::RealtimeExec => Some(Channel::Exec),
            TrId::RealtimeOrdb => Some(Channel::Ordb),
            TrId::RealRealtimeMyExec | TrId::VirtualRealtimeMyExec => Some(Channel::MyExec),
            _ => None,
        }
    }

    /// The market-data channel that a transaction id stands for; any other id
    /// is the wrong one for an operation on market data.
    pub open spec fn market_of(tr_id: TrId) -> Result<Channel, Error> {
        match tr_id {
            TrId::RealtimeExec => Ok(Channel::Exec),
            TrId::RealtimeOrdb => Ok(Channel::Ordb),
            _ => Err(Error::WrongTrId(tr_id)),
        }
    }

    /// Checks that a transaction id stands for a market-data channel.
    pub fn market(tr_id: TrId) -> (r: Result<Channel, Error>)
        ensures
            r == Channel::market_of(tr_id),
    {
        match tr_id {
            TrId::RealtimeExec => Ok(Channel::Exec),
            TrId::RealtimeOrdb => Ok(Channel::Ordb),
            _ => Err(Error::WrongTrId(tr_id)),
        }
    }

    /// Checks that a transaction id stands for the personal-fill channel.
    pub fn personal(tr_id: TrId) -> (r: Result<Channel, Error>)
        ensures
            r == match tr_id {
                TrId::RealRealtimeMyExec | TrId::VirtualRealtimeMyExec => Ok::<Channel, Error>(
                    Channel::MyExec,
                ),
                _ => Err::<Channel, Error>(Error::WrongTrId(tr_id)),
            },
    {
        match tr_id {
            TrId::RealRealtimeMyExec | TrId::VirtualRealtimeMyExec => Ok(Channel::MyExec),
            _ => Err(Error::WrongTrId(tr_id)),
        }
    }

    /// The transaction id under which the channel is subscribed to.
    pub fn tr_id(&self, environment: Environment) -> (r: TrId)
        ensures
            Channel::of(r) == Some(*self),
            r == match self {
                Channel::Exec => TrId::RealtimeExec,
                Channel::Ordb => TrId::RealtimeOrdb,
                Channel::MyExec => match environment {
                    Environment::Real => TrId::RealRealtimeMyExec,
                    Environment::Virtual => TrId::VirtualRealtimeMyExec,
                },
            },
    {
        match self {
            Channel::Exec => TrId::RealtimeExec,
            Channel::Ordb => TrId::RealtimeOrdb,
            Channel::MyExec => environment.my_exec_channel(),
        }
    }
}

/// The address of the streaming service in an environment.
pub open spec fn endpoint_text(environment: Environment) -> Seq<char> {
    match environment {
        Environment::Real => "ws://ops.koreainvestment.com:21000"@,
        Environment::Virtual => "ws://ops.koreainvestment.com:31000"@,
    }
}

/// The address of the streaming service in an environment.
pub fn endpoint(environment: Environment) -> (r: &'static str)
    ensures
        r@ == endpoint_text(environment),
{
    match environment {
        Environment::Real => "ws://ops.koreainvestment.com:21000",
        Environment::Virtual => "ws://ops.koreainvestment.com:31000",
    }
}

/// The address to connect to for a channel.
pub fn channel_url(environment: Environment, tr_id: TrId) -> (r: String)
    ensures
        r@ == endpoint_text(environment) + "/tryitout/"@ + tr_id.code_text(),
{
    let mut url: String = endpoint(environment).to_owned();
    url.append("/tryitout/");
    url.append(tr_id.code());
    url
}

/// A decoded message of any channel.
#[derive(Clone, Debug)]
pub enum Message {
    Exec(Exec),
    Ordb(Ordb),
    MyExec(MyExec),
}

impl Message {
    /// The header of the message.
    pub open spec fn header_of(self) -> Header {
        match self {
            Message::Exec(m) => m.header,
            Message::Ordb(m) => m.header,
            Message::MyExec(m) => m.header,
        }
    }

    /// Whether the message has a body.
    pub open spec fn carries_body(self) -> bool {
        match self {
            Message::Exec(m) => m.body is Some,
            Message::Ordb(m) => m.body is Some,
            Message::MyExec(m) => m.body is Some,
        }
    }

    /// The header of the message.
    pub fn header(&self) -> (r: Header)
        ensures
            r == self.header_of(),
    {
        match self {
            Message::Exec(m) => m.header,
            Message::Ordb(m) => m.header,
            Message::MyExec(m) => m.header,
        }
    }

    /// Whether the message has a body.
    pub fn has_body(&self) -> (r: bool)
        ensures
            r == self.carries_body(),
    {
        match self {
            Message::Exec(m) => m.body.is_some(),
            Message::Ordb(m) => m.body.is_some(),
            Message::MyExec(m) => m.body.is_some(),
        }
    }
}

/// What a receive loop does with a frame.
#[derive(Clone, Debug)]
pub enum Delivery {
    /// A keep-alive: send this text, which is the frame as it came, back on
    /// the connection; nothing goes to the consumer.
    Echo(String),
    /// A decoded body: put it on the queue of the channel.
    Forward(Message),
    /// A frame that could not be decoded: put the error on the queue and go
    /// on with the next frame.
    Report(Error),
    /// A control frame that is no keep-alive: nothing to do.
    Skip,
}

/// The mathematical content of a [`Delivery`].
pub enum DeliveryView {
    Echo(Seq<char>),
    Forward(Message),
    Report(Error),
    Skip,
}

impl View for Delivery {
    type V = DeliveryView;

    open spec fn view(&self) -> DeliveryView {
        match self {
            Delivery::Echo(text) => DeliveryView::Echo(text@),
            Delivery::Forward(m) => DeliveryView::Forward(*m),
            Delivery::Report(e) => DeliveryView::Report(*e),
            Delivery::Skip => DeliveryView::Skip,
        }
    }
}

impl Delivery {
    /// The action for a frame, given its text and what decoding it gave.
    pub open spec fn of(frame: Seq<char>, parsed: Result<Message, Error>) -> DeliveryView {
        match parsed {
            Err(e) => DeliveryView::Report(e),
            Ok(m) => if m.header_of().tr_id == TrId::PingPong {
                DeliveryView::Echo(frame)
            } else if m.carries_body() {
                DeliveryView::Forward(m)
            } else {
                DeliveryView::Skip
            },
        }
    }

    /// Decides what to do with a frame from what decoding it gave.
    pub fn decide(frame: &str, parsed: Result<Message, Error>) -> (r: Delivery)
        ensures
            r@ == Delivery::of(frame@, parsed),
    {
        match parsed {
            Err(e) => Delivery::Report(e),
            Ok(m) => {
                if m.header().is_keep_alive() {
                    Delivery::Echo(frame.to_owned())
                } else if m.has_body() {
                    Delivery::Forward(m)
                } else {
                    Delivery::Skip
                }
            },
        }
    }

    /// A keep-alive is echoed with the very text of its frame, whatever else
    /// the frame holds, and what is forwarded to the consumer is never a
    /// keep-alive and always has a body. An error is reported and ends
    /// nothing.
    pub proof fn lemma_keep_alive_never_forwarded(frame: Seq<char>, parsed: Result<Message, Error>)
        ensures
            (parsed is Ok && parsed->Ok_0.header_of().tr_id == TrId::PingPong) <==> Delivery::of(
                frame,
                parsed,
            ) == DeliveryView::Echo(frame),
            Delivery::of(frame, parsed) is Echo ==> Delivery::of(frame, parsed)
                == DeliveryView::Echo(frame),
            Delivery::of(frame, parsed) matches DeliveryView::Forward(m) ==> parsed == Ok::<
                Message,
                Error,
            >(m) && m.header_of().tr_id != TrId::PingPong && m.carries_body(),
            parsed is Err <==> Delivery::of(frame, parsed) is Report,
    {
    }
}

/// Whether the receive loop of a channel runs.
#[derive(Clone, Copy, Debug, PartialEq, Eq, Structural)]
pub enum LoopState {
    /// No loop was started yet.
    Idle,
    /// A loop runs.
    Running,
    /// The loop ended: it was cancelled, or its connection failed.
    Stopped,
}

/// What a subscription means for the receive loop of its channel.
#[derive(Clone, Copy, Debug, PartialEq, Eq, Structural)]
pub enum Spawn {
    /// Start a loop and hand its queue to the caller.
    Start,
    /// A loop runs already: no new receiver; the caller keeps the queue it
    /// has.
    Reuse,
    /// Cancel the loop that runs, then start a new one and hand its queue to
    /// the caller.
    Restart,
}

/// The state of the three receive loops and the key material of the
/// personal-fill channel.
#[derive(Clone, Debug)]
pub struct Dispatch {
    pub exec_loop: LoopState,
    pub ordb_loop: LoopState,
    pub my_exec_loop: LoopState,
    pub iv: Option<String>,
    pub key: Option<String>,
}

/// The mathematical content of a [`Dispatch`].
pub struct DispatchView {
    pub exec_loop: LoopState,
    pub ordb_loop: LoopState,
    pub my_exec_loop: LoopState,
    pub iv: Option<Seq<char>>,
    pub key: Option<Seq<char>>,
}

impl View for Dispatch {
    type V = DispatchView;

    open spec fn view(&self) -> DispatchView {
        DispatchView {
            exec_loop: self.exec_loop,
            ordb_loop: self.ordb_loop,
            my_exec_loop: self.my_exec_loop,
            iv: text_of(self.iv),
            key: text_of(self.key),
        }
    }
}

impl DispatchView {
    /// The state of the loop of a channel.
    pub open spec fn state(self, channel: Channel) -> LoopState {
        match channel {
            Channel::Exec => self.exec_loop,
            Channel::Ordb => self.ordb_loop,
            Channel::MyExec => self.my_exec_loop,
        }
    }

    /// The same state but for the loop of one channel.
    pub open spec fn with_state(self, channel: Channel, state: LoopState) -> DispatchView {
        match channel {
            Channel::Exec => DispatchView { exec_loop: state, ..self },
            Channel::Ordb => DispatchView { ordb_loop: state, ..self },
            Channel::MyExec => DispatchView { my_exec_loop: state, ..self },
        }
    }

    /// What an acknowledged subscription does to the loops.
    ///
    /// An id that is no streaming channel is the wrong id, and a rejected
    /// subscription starts nothing. On a market-data channel a loop that
    /// runs is kept; otherwise one is started. On the personal-fill channel
    /// the key material of the acknowledgement replaces what was there, and
    /// a loop that runs is cancelled before the new one starts; an
    /// acknowledgement without key material is invalid.
    pub open spec fn subscribed(self, tr_id: TrId, response: ResponseView) -> (
        DispatchView,
        Result<Spawn, Error>,
    ) {
        match Channel::of(tr_id) {
            None => (self, Err(Error::WrongTrId(tr_id))),
            Some(channel) => if !response.success {
                (self, Err(Error::SubscriptionRejected))
            } else if channel == Channel::MyExec {
                if response.iv is None || response.key is None {
                    (self, Err(Error::InvalidData))
                } else {
                    (
                        DispatchView {
                            my_exec_loop: LoopState::Running,
                            iv: response.iv,
                            key: response.key,
                            ..self
                        },
                        Ok(
                            if self.my_exec_loop == LoopState::Running {
                                Spawn::Restart
                            } else {
                                Spawn::Start
                            },
                        ),
                    )
                }
            } else if self.state(channel) == LoopState::Running {
                (self, Ok(Spawn::Reuse))
            } else {
                (self.with_state(channel, LoopState::Running), Ok(Spawn::Start))
            },
        }
    }

    /// Subscribing again to a market-data channel whose loop runs starts no
    /// second loop and changes nothing.
    pub proof fn lemma_no_second_loop(
        self,
        tr_id: TrId,
        first: ResponseView,
        second: ResponseView,
    )
        requires
            Channel::of(tr_id) == Some(Channel::Exec) || Channel::of(tr_id) == Some(Channel::Ordb),
            first.success,
            second.success,
        ensures
            self.subscribed(tr_id, first).1 is Ok,
            self.subscribed(tr_id, first).0.subscribed(tr_id, second) == (
                self.subscribed(tr_id, first).0,
                Ok::<Spawn, Error>(Spawn::Reuse),
            ),
    {
    }

    /// Subscribing again to the personal-fill channel replaces the key
    /// material by that of the new acknowledgement, whatever was there, and
    /// cancels the loop that ran under the old one.
    pub proof fn lemma_resubscribe_replaces_key(self, tr_id: TrId, response: ResponseView)
        requires
            Channel::of(tr_id) == Some(Channel::MyExec),
            response.success,
            response.iv is Some,
            response.key is Some,
        ensures
            self.subscribed(tr_id, response).0.iv == response.iv,
            self.subscribed(tr_id, response).0.key == response.key,
            self.subscribed(tr_id, response).0.my_exec_loop == LoopState::Running,
            self.my_exec_loop == LoopState::Running ==> self.subscribed(tr_id, response).1 == Ok::<
                Spawn,
                Error,
            >(Spawn::Restart),
            self.my_exec_loop != LoopState::Running ==> self.subscribed(tr_id, response).1 == Ok::<
                Spawn,
                Error,
            >(Spawn::Start),
    {
    }
}

/// The bytes of an optional text; none for a missing one.
pub open spec fn material(text: Option<Seq<char>>) -> Seq<u8> {
    match text {
        Some(t) => bytes_of(t),
        None => Seq::<u8>::empty(),
    }
}

impl Dispatch {
    /// No loop runs and no key material is known.
    pub fn new() -> (r: Dispatch)
        ensures
            r@ == (DispatchView {
                exec_loop: LoopState::Idle,
                ordb_loop: LoopState::Idle,
                my_exec_loop: LoopState::Idle,
                iv: None,
                key: None,
            }),
    {
        Dispatch {
            exec_loop: LoopState::Idle,
            ordb_loop: LoopState::Idle,
            my_exec_loop: LoopState::Idle,
            iv: None,
            key: None,
        }
    }

    /// The state of the loop of a channel.
    pub fn state(&self, channel: Channel) -> (r: LoopState)
        ensures
            r == self@.state(channel),
    {
        match channel {
            Channel::Exec => self.exec_loop,
            Channel::Ordb => self.ordb_loop,
            Channel::MyExec => self.my_exec_loop,
        }
    }

    fn set_state(&mut self, channel: Channel, state: LoopState)
        ensures
            final(self)@ == old(self)@.with_state(channel, state),
    {
        match channel {
            Channel::Exec => {
                self.exec_loop = state;
            },
            Channel::Ordb => {
                self.ordb_loop = state;
            },
            Channel::MyExec => {
                self.my_exec_loop = state;
            },
        }
    }

    /// Takes the acknowledgement of a subscription and says what becomes of
    /// the receive loop of the channel.
    pub fn on_subscribed(&mut self, tr_id: TrId, response: &SubscribeResponse) -> (r: Result<
        Spawn,
        Error,
    >)
        ensures
            (final(self)@, r) == old(self)@.subscribed(tr_id, response@),
    {
        let channel = match Channel::from_tr_id(tr_id) {
            Some(channel) => channel,
            None => {
                return Err(Error::WrongTrId(tr_id));
            },
        };
        if !response.success {
            return Err(Error::SubscriptionRejected);
        }
        match channel {
            Channel::MyExec => {
                let (iv, key) = match (&response.iv, &response.key) {
                    (Some(iv), Some(key)) => (iv.clone(), key.clone()),
                    _ => {
                        return Err(Error::InvalidData);
                    },
                };
                let spawn = if self.my_exec_loop == LoopState::Running {
                    Spawn::Restart
                } else {
                    Spawn::Start
                };
                self.my_exec_loop = LoopState::Running;
                self.iv = Some(iv);
                self.key = Some(key);
                Ok(spawn)
            },
            _ => {
                if self.state(channel) == LoopState::Running {
                    Ok(Spawn::Reuse)
                } else {
                    self.set_state(channel, LoopState::Running);
                    Ok(Spawn::Start)
                }
            },
        }
    }

    /// Records that the loop of a channel has ended: it was cancelled, or its
    /// connection failed. The next subscription starts a new one.
    pub fn on_stopped(&mut self, channel: Channel)
        ensures
            final(self)@ == old(self)@.with_state(channel, LoopState::Stopped),
    {
        self.set_state(channel, LoopState::Stopped);
    }

    /// Records that the connection of a channel has failed, which ends its
    /// loop, and returns the error to put on the queue.
    pub fn on_transport_error(&mut self, channel: Channel) -> (r: Error)
        ensures
            r == Error::WebSocket,
            final(self)@ == old(self)@.with_state(channel, LoopState::Stopped),
    {
        self.set_state(channel, LoopState::Stopped);
        Error::WebSocket
    }

    /// Cancels the loop of a channel. Returns whether one was running, and
    /// so has to be stopped.
    pub fn cancel(&mut self, channel: Channel) -> (r: bool)
        ensures
            r == (old(self)@.state(channel) == LoopState::Running),
            r ==> final(self)@ == old(self)@.with_state(channel, LoopState::Stopped),
            !r ==> final(self)@ == old(self)@,
    {
        if self.state(channel) == LoopState::Running {
            self.set_state(channel, LoopState::Stopped);
            true
        } else {
            false
        }
    }

    /// Whether `parsed` is what decoding `frame` on `channel` gives, with the
    /// key material `iv` and `key` and the business date `date`.
    pub open spec fn decoded_as(
        channel: Channel,
        frame: Seq<char>,
        iv: Seq<u8>,
        key: Seq<u8>,
        date: Seq<u8>,
        parsed: Result<Message, Error>,
    ) -> bool {
        match channel {
            Channel::Exec => match parsed {
                Ok(Message::Exec(m)) => Exec::parses(frame, Ok(m)),
                Ok(_) => false,
                Err(e) => Exec::parses(frame, Err(e)),
            },
            Channel::Ordb => match parsed {
                Ok(Message::Ordb(m)) => Ordb::parses(frame, date, Ok(m)),
                Ok(_) => false,
                Err(e) => Ordb::parses(frame, date, Err(e)),
            },
            Channel::MyExec => match parsed {
                Ok(Message::MyExec(m)) => MyExec::parses(frame, iv, key, date, Ok(m)),
                Ok(_) => false,
                Err(e) => MyExec::parses(frame, iv, key, date, Err(e)),
            },
        }
    }

    /// Decodes a frame that arrived on `channel` on the business date
    /// `date`. Personal fills are decrypted with the key material of the
    /// last acknowledgement.
    pub fn decode(&self, channel: Channel, frame: &str, date: &str) -> (r: Result<Message, Error>)
        ensures
            Dispatch::decoded_as(
                channel,
                frame@,
                material(self@.iv),
                material(self@.key),
                bytes_of(date@),
                r,
            ),
    {
        match channel {
            Channel::Exec => match Exec::parse(frame.to_owned()) {
                Ok(m) => Ok(Message::Exec(m)),
                Err(e) => Err(e),
            },
            Channel::Ordb => match Ordb::parse_on(frame, date) {
                Ok(m) => Ok(Message::Ordb(m)),
                Err(e) => Err(e),
            },
            Channel::MyExec => {
                let iv: &str = match &self.iv {
                    Some(iv) => iv.as_str(),
                    None => "",
                };
                let key: &str = match &self.key {
                    Some(key) => key.as_str(),
                    None => "",
                };
                proof {
                    reveal_strlit("");
                    assert(bytes_of(""@) =~= Seq::<u8>::empty()) by {
                        crate::text::lemma_ascii_bytes(""@);
                    }
                }
                match MyExec::parse_on(frame, iv, key, date) {
                    Ok(m) => Ok(Message::MyExec(m)),
                    Err(e) => Err(e),
                }
            },
        }
    }

    /// Whether `action` is what the receive loop of `channel` does with
    /// `frame`. A control frame is never decoded as data: a keep-alive is
    /// echoed with its own text and any other is passed over. A data frame is
    /// decoded, and what decoding gives decides.
    pub open spec fn delivers(
        channel: Channel,
        frame: Seq<char>,
        iv: Seq<u8>,
        key: Seq<u8>,
        date: Seq<u8>,
        action: DeliveryView,
    ) -> bool {
        match control_of(frame) {
            Some(view) => if ControlFrame::keep_alive(view) {
                action == DeliveryView::Echo(frame)
            } else {
                action == DeliveryView::Skip
            },
            None => exists|parsed: Result<Message, Error>|
                Dispatch::decoded_as(channel, frame, iv, key, date, parsed) && action
                    == Delivery::of(frame, parsed),
        }
    }

    /// One step of the receive loop of `channel`: says what to do with the
    /// frame that arrived. The state of the loops does not change.
    pub fn receive(&self, channel: Channel, frame: &str, date: &str) -> (r: Delivery)
        ensures
            Dispatch::delivers(
                channel,
                frame@,
                material(self@.iv),
                material(self@.key),
                bytes_of(date@),
                r@,
            ),
    {
        match ControlFrame::read(frame) {
            Some(control) => {
                if control.is_keep_alive() {
                    Delivery::Echo(control.raw)
                } else {
                    Delivery::Skip
                }
            },
            None => {
                let parsed = self.decode(channel, frame, date);
                let r = Delivery::decide(frame, parsed);
                assert(Dispatch::decoded_as(
                    channel,
                    frame@,
                    material(self@.iv),
                    material(self@.key),
                    bytes_of(date@),
                    parsed,
                ) && r@ == Delivery::of(frame@, parsed));
                r
            },
        }
    }

    /// A keep-alive that arrives in the loop is echoed with its own text,
    /// whatever the channel and the key material, and so never reaches the
    /// consumer.
    pub proof fn lemma_keep_alive_is_echoed(
        channel: Channel,
        frame: Seq<char>,
        iv: Seq<u8>,
        key: Seq<u8>,
        date: Seq<u8>,
        action: DeliveryView,
    )
        requires
            control_of(frame) is Some,
            ControlFrame::keep_alive(control_of(frame)->Some_0),
            Dispatch::delivers(channel, frame, iv, key, date, action),
        ensures
            action == DeliveryView::Echo(frame),
    {
    }
}

} // verus!
