//! Subscribing to a channel: the envelope that asks for it, the
//! acknowledgement that answers, and the handshake between the two.

use vstd::prelude::*;
use vstd::string::StringExecFns;
use crate::codes::{CustomerType, TrId, TrType};
use crate::control::{control_of, json_quote, json_quoted, text_of, ControlFrame, ControlView};
use crate::error::Error;
use crate::text::same_text;

verus! {

/// The message of an acknowledgement that grants the subscription.
pub open spec fn success_text() -> Seq<char> {
    "SUBSCRIBE SUCCESS"@
}

/// The content type that the envelope declares.
pub open spec fn content_type_text() -> Seq<char> {
    "text/plain"@
}

/// The header of a subscription envelope.
#[derive(Clone, Debug)]
pub struct Header {
    pub appkey: String,
    pub appsecret: String,
    /// The approval key that the REST side issued for streaming.
    pub personalseckey: String,
    pub custtype: CustomerType,
    pub tr_type: TrType,
    pub content_type: String,
}

/// The body of a subscription envelope.
#[derive(Clone, Debug)]
pub struct Body {
    pub input: BodyInner,
}

/// What is subscribed to: the channel, and the instrument code or customer
/// id on it.
#[derive(Clone, Debug)]
pub struct BodyInner {
    pub tr_id: TrId,
    pub tr_key: String,
}

/// The envelope that asks the service for a subscription.
#[derive(Clone, Debug)]
pub struct SubscribeRequest {
    pub header: Header,
    pub body: Body,
}

/// The text of an envelope, given the JSON literals of some of its values:
/// the key, the secret, the approval key, the content type and the target,
/// each already between quotes.
pub open spec fn envelope_text(
    appkey: Seq<char>,
    appsecret: Seq<char>,
    personalseckey: Seq<char>,
    custtype: CustomerType,
    tr_type: TrType,
    content_type: Seq<char>,
    tr_id: TrId,
    tr_key: Seq<char>,
) -> Seq<char> {
    "{\"header\":{\"appkey\":"@ + appkey + ",\"appsecret\":"@ + appsecret
        + ",\"personalseckey\":"@ + personalseckey + ",\"custtype\":\""@ + custtype.code_text()
        + "\",\"tr_type\":\""@ + tr_type.code_text() + "\",\"Content-Type\":"@ + content_type
        + "},\"body\":{\"input\":{\"tr_id\":\""@ + tr_id.code_text() + "\",\"tr_key\":"@ + tr_key
        + "}}}"@
}

/// Puts an envelope together from the JSON literals of its free texts.
pub fn assemble_envelope(
    appkey: &str,
    appsecret: &str,
    personalseckey: &str,
    custtype: CustomerType,
    tr_type: TrType,
    content_type: &str,
    tr_id: TrId,
    tr_key: &str,
) -> (r: String)
    ensures
        r@ == envelope_text(
            appkey@,
            appsecret@,
            personalseckey@,
            custtype,
            tr_type,
            content_type@,
            tr_id,
            tr_key@,
        ),
{
    let mut out: String = "{\"header\":{\"appkey\":".to_owned();
    out.append(appkey);
    out.append(",\"appsecret\":");
    out.append(appsecret);
    out.append(",\"personalseckey\":");
    out.append(personalseckey);
    out.append(",\"custtype\":\"");
    out.append(custtype.code());
    out.append("\",\"tr_type\":\"");
    out.append(tr_type.code());
    out.append("\",\"Content-Type\":");
    out.append(content_type);
    out.append("},\"body\":{\"input\":{\"tr_id\":\"");
    out.append(tr_id.code());
    out.append("\",\"tr_key\":");
    out.append(tr_key);
    out.append("}}}");
    out
}

impl SubscribeRequest {
    /// A request to register for `tr_id` with the target `tr_key`.
    pub fn new(
        appkey: String,
        appsecret: String,
        personalseckey: String,
        custtype: CustomerType,
        tr_key: String,
        tr_id: TrId,
    ) -> (r: SubscribeRequest)
        ensures
            r.header.appkey == appkey,
            r.header.appsecret == appsecret,
            r.header.personalseckey == personalseckey,
            r.header.custtype == custtype,
            r.header.tr_type == TrType::Register,
            r.header.content_type@ == content_type_text(),
            r.body.input.tr_id == tr_id,
            r.body.input.tr_key == tr_key,
    {
        SubscribeRequest {
            header: Header {
                appkey,
                appsecret,
                personalseckey,
                custtype,
                tr_type: TrType::Register,
                content_type: "text/plain".to_owned(),
            },
            body: Body { input: BodyInner { tr_id, tr_key } },
        }
    }

    pub fn header(&self) -> (r: &Header)
        ensures
            *r == self.header,
    {
        &self.header
    }

    pub fn body(&self) -> (r: &Body)
        ensures
            *r == self.body,
    {
        &self.body
    }

    /// The envelope as the service reads it.
    pub open spec fn json_text(self) -> Seq<char> {
        envelope_text(
            json_quoted(self.header.appkey@),
            json_quoted(self.header.appsecret@),
            json_quoted(self.header.personalseckey@),
            self.header.custtype,
            self.header.tr_type,
            json_quoted(self.header.content_type@),
            self.body.input.tr_id,
            json_quoted(self.body.input.tr_key@),
        )
    }

    /// The envelope as JSON text.
    pub fn get_json_string(&self) -> (r: String)
        ensures
            r@ == self.json_text(),
    {
        let appkey = json_quote(self.header.appkey.as_str());
        let appsecret = json_quote(self.header.appsecret.as_str());
        let personalseckey = json_quote(self.header.personalseckey.as_str());
        let content_type = json_quote(self.header.content_type.as_str());
        let tr_key = json_quote(self.body.input.tr_key.as_str());
        assemble_envelope(
            appkey.as_str(),
            appsecret.as_str(),
            personalseckey.as_str(),
            self.header.custtype,
            self.header.tr_type,
            content_type.as_str(),
            self.body.input.tr_id,
            tr_key.as_str(),
        )
    }
}

impl Header {
    pub fn appkey(&self) -> (r: &str)
        ensures
            r@ == self.appkey@,
    {
        self.appkey.as_str()
    }

    pub fn appsecret(&self) -> (r: &str)
        ensures
            r@ == self.appsecret@,
    {
        self.appsecret.as_str()
    }

    pub fn personalseckey(&self) -> (r: &str)
        ensures
            r@ == self.personalseckey@,
    {
        self.personalseckey.as_str()
    }

    pub fn custtype(&self) -> (r: &CustomerType)
        ensures
            *r == self.custtype,
    {
        &self.custtype
    }

    pub fn tr_type(&self) -> (r: &TrType)
        ensures
            *r == self.tr_type,
    {
        &self.tr_type
    }
}

impl Body {
    pub fn tr_id(&self) -> (r: &TrId)
        ensures
            *r == self.input.tr_id,
    {
        &self.input.tr_id
    }

    pub fn tr_key(&self) -> (r: &str)
        ensures
            r@ == self.input.tr_key@,
    {
        self.input.tr_key.as_str()
    }
}

/// What the service answered to a subscription.
#[derive(Clone, Debug)]
pub struct SubscribeResponse {
    pub success: bool,
    pub msg: String,
    /// The initialisation vector for the personal-fill channel.
    pub iv: Option<String>,
    /// The key for the personal-fill channel.
    pub key: Option<String>,
}

/// The mathematical content of a [`SubscribeResponse`].
pub struct ResponseView {
    pub success: bool,
    pub msg: Seq<char>,
    pub iv: Option<Seq<char>>,
    pub key: Option<Seq<char>>,
}

impl View for SubscribeResponse {
    type V = ResponseView;

    open spec fn view(&self) -> ResponseView {
        ResponseView {
            success: self.success,
            msg: self.msg@,
            iv: text_of(self.iv),
            key: text_of(self.key),
        }
    }
}

impl SubscribeResponse {
    pub fn new(success: bool, msg: String, iv: Option<String>, key: Option<String>) -> (r:
        SubscribeResponse)
        ensures
            r.success == success,
            r.msg == msg,
            r.iv == iv,
            r.key == key,
    {
        SubscribeResponse { success, msg, iv, key }
    }

    /// What an acknowledgement says: success where its message is the
    /// success text, the message as it came, and the key material where the
    /// acknowledgement carries any.
    pub open spec fn of_ack(
        msg: Seq<char>,
        iv: Option<Seq<char>>,
        key: Option<Seq<char>>,
    ) -> ResponseView {
        ResponseView { success: msg == success_text(), msg, iv, key }
    }

    /// Reads the outcome of a subscription from the fields of its
    /// acknowledgement.
    pub fn from_ack(msg: String, iv: Option<String>, key: Option<String>) -> (r: SubscribeResponse)
        ensures
            r@ == SubscribeResponse::of_ack(msg@, text_of(iv), text_of(key)),
            r.msg == msg,
            r.iv == iv,
            r.key == key,
    {
        let success = same_text(msg.as_str(), "SUBSCRIBE SUCCESS");
        SubscribeResponse { success, msg, iv, key }
    }

    pub fn success(&self) -> (r: &bool)
        ensures
            *r == self.success,
    {
        &self.success
    }

    pub fn msg(&self) -> (r: &String)
        ensures
            *r == self.msg,
    {
        &self.msg
    }

    pub fn iv(&self) -> (r: &Option<String>)
        ensures
            *r == self.iv,
    {
        &self.iv
    }

    pub fn key(&self) -> (r: &Option<String>)
        ensures
            *r == self.key,
    {
        &self.key
    }

    pub fn set_success(&mut self, success: bool)
        ensures
            final(self).success == success,
            final(self).msg == old(self).msg,
            final(self).iv == old(self).iv,
            final(self).key == old(self).key,
    {
        self.success = success;
    }

    pub fn set_msg(&mut self, msg: String)
        ensures
            final(self).msg == msg,
            final(self).success == old(self).success,
            final(self).iv == old(self).iv,
            final(self).key == old(self).key,
    {
        self.msg = msg;
    }

    pub fn set_iv(&mut self, iv: Option<String>)
        ensures
            final(self).iv == iv,
            final(self).success == old(self).success,
            final(self).msg == old(self).msg,
            final(self).key == old(self).key,
    {
        self.iv = iv;
    }

    pub fn set_key(&mut self, key: Option<String>)
        ensures
            final(self).key == key,
            final(self).success == old(self).success,
            final(self).msg == old(self).msg,
            final(self).iv == old(self).iv,
    {
        self.key = key;
    }
}

/// The outcome of a subscription, behind accessors.
#[derive(Clone, Debug)]
pub struct SubscribeResult {
    success: bool,
    msg: String,
    iv: Option<String>,
    key: Option<String>,
}

impl View for SubscribeResult {
    type V = ResponseView;

    closed spec fn view(&self) -> ResponseView {
        ResponseView {
            success: self.success,
            msg: self.msg@,
            iv: text_of(self.iv),
            key: text_of(self.key),
        }
    }
}

impl SubscribeResult {
    pub fn new(success: bool, msg: String, iv: Option<String>, key: Option<String>) -> (r:
        SubscribeResult)
        ensures
            r@ == (ResponseView { success, msg: msg@, iv: text_of(iv), key: text_of(key) }),
    {
        SubscribeResult { success, msg, iv, key }
    }

    pub fn success(&self) -> (r: bool)
        ensures
            r == self@.success,
    {
        self.success
    }

    pub fn msg(&self) -> (r: &str)
        ensures
            r@ == self@.msg,
    {
        self.msg.as_str()
    }

    pub fn iv(&self) -> (r: &Option<String>)
        ensures
            text_of(*r) == self@.iv,
    {
        &self.iv
    }

    pub fn key(&self) -> (r: &Option<String>)
        ensures
            text_of(*r) == self@.key,
    {
        &self.key
    }

    pub fn set_success(&mut self, success: bool)
        ensures
            final(self)@ == (ResponseView { success, ..old(self)@ }),
    {
        self.success = success;
    }

    pub fn set_msg(&mut self, msg: String)
        ensures
            final(self)@ == (ResponseView { msg: msg@, ..old(self)@ }),
    {
        self.msg = msg;
    }

    pub fn set_iv(&mut self, iv: Option<String>)
        ensures
            final(self)@ == (ResponseView { iv: text_of(iv), ..old(self)@ }),
    {
        self.iv = iv;
    }

    pub fn set_key(&mut self, key: Option<String>)
        ensures
            final(self)@ == (ResponseView { key: text_of(key), ..old(self)@ }),
    {
        self.key = key;
    }
}

/// Where a subscription stands.
#[derive(Clone, Copy, Debug, PartialEq, Eq, Structural)]
pub enum Phase {
    /// Nothing was asked for yet, or the last handshake broke off.
    Unsubscribed,
    /// The envelope is out and the acknowledgement is awaited.
    AckPending,
    /// The service granted the subscription.
    Subscribed,
    /// The service turned the subscription down.
    Rejected,
}

/// What the caller of the handshake does after a frame.
#[derive(Clone, Debug)]
pub enum AckStep {
    /// The frame is a keep-alive: send its text back and read on.
    Echo(String),
    /// The frame says nothing on the subscription: read on.
    Wait,
    /// The frame is the acknowledgement: the handshake is over.
    Finish(SubscribeResponse),
    /// The frame is no control frame: the handshake has failed.
    Fail(Error),
    /// No acknowledgement is awaited: the frame is not for the handshake.
    Idle,
}

/// The mathematical content of an [`AckStep`].
pub enum StepView {
    Echo(Seq<char>),
    Wait,
    Finish(ResponseView),
    Fail(Error),
    Idle,
}

impl View for AckStep {
    type V = StepView;

    open spec fn view(&self) -> StepView {
        match self {
            AckStep::Echo(text) => StepView::Echo(text@),
            AckStep::Wait => StepView::Wait,
            AckStep::Finish(response) => StepView::Finish(response@),
            AckStep::Fail(e) => StepView::Fail(*e),
            AckStep::Idle => StepView::Idle,
        }
    }
}

/// The handshake of one subscription:
/// `Unsubscribed → AckPending → Subscribed | Rejected`, and from either end
/// state a new request starts it over.
#[derive(Clone, Copy, Debug, PartialEq, Eq, Structural)]
pub struct Handshake {
    pub phase: Phase,
}

impl Handshake {
    pub fn new() -> (r: Handshake)
        ensures
            r.phase == Phase::Unsubscribed,
    {
        Handshake { phase: Phase::Unsubscribed }
    }

    pub fn phase(&self) -> (r: Phase)
        ensures
            r == self.phase,
    {
        self.phase
    }

    /// Starts the handshake, from any phase, and returns the envelope to
    /// send.
    pub fn begin(&mut self, request: &SubscribeRequest) -> (r: String)
        ensures
            final(self).phase == Phase::AckPending,
            r@ == request.json_text(),
    {
        self.phase = Phase::AckPending;
        request.get_json_string()
    }

    /// What a frame means to a handshake that awaits its acknowledgement,
    /// and the phase it leaves the handshake in. `control` is the frame as a
    /// control frame, or `None` where it is none.
    pub open spec fn next(control: Option<ControlView>) -> (Phase, StepView) {
        match control {
            None => (Phase::Unsubscribed, StepView::Fail(Error::JsonError)),
            Some(view) => if ControlFrame::keep_alive(view) {
                (Phase::AckPending, StepView::Echo(view.raw))
            } else if view.msg1 is Some {
                let response = SubscribeResponse::of_ack(view.msg1->Some_0, view.iv, view.key);
                if response.success {
                    (Phase::Subscribed, StepView::Finish(response))
                } else {
                    (Phase::Rejected, StepView::Finish(response))
                }
            } else {
                (Phase::AckPending, StepView::Wait)
            },
        }
    }

    /// Takes the next frame as a control frame, or `None` where it is not
    /// one. Outside the wait for an acknowledgement nothing changes.
    pub fn on_control(&mut self, control: Option<ControlFrame>) -> (r: AckStep)
        ensures
            old(self).phase != Phase::AckPending ==> r@ == StepView::Idle && *final(self) == *old(
                self,
            ),
            old(self).phase == Phase::AckPending ==> (final(self).phase, r@) == Handshake::next(
                match control {
                    Some(frame) => Some(frame@),
                    None => None,
                },
            ),
    {
        if self.phase != Phase::AckPending {
            return AckStep::Idle;
        }
        match control {
            None => {
                self.phase = Phase::Unsubscribed;
                AckStep::Fail(Error::JsonError)
            },
            Some(frame) => {
                if frame.is_keep_alive() {
                    AckStep::Echo(frame.raw)
                } else {
                    match frame.msg1 {
                        Some(msg) => {
                            let response = SubscribeResponse::from_ack(msg, frame.iv, frame.key);
                            if response.success {
                                self.phase = Phase::Subscribed;
                            } else {
                                self.phase = Phase::Rejected;
                            }
                            AckStep::Finish(response)
                        },
                        None => AckStep::Wait,
                    }
                }
            },
        }
    }

    /// A keep-alive that arrives during the wait is answered with its own
    /// text, and the wait goes on.
    pub proof fn lemma_keep_alive_is_echoed(text: Seq<char>)
        requires
            control_of(text) is Some,
            ControlFrame::keep_alive(control_of(text)->Some_0),
        ensures
            Handshake::next(control_of(text)) == (Phase::AckPending, StepView::Echo(text)),
    {
    }

    /// Takes the next frame that arrived on the connection.
    pub fn on_frame(&mut self, frame: &str) -> (r: AckStep)
        ensures
            old(self).phase != Phase::AckPending ==> r@ == StepView::Idle && *final(self) == *old(
                self,
            ),
            old(self).phase == Phase::AckPending ==> (final(self).phase, r@) == Handshake::next(
                control_of(frame@),
            ),
    {
        if self.phase != Phase::AckPending {
            return AckStep::Idle;
        }
        self.on_control(ControlFrame::read(frame))
    }
}

} // verus!
