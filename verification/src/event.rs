//! What the mail transfer agent sends at a stage of a transaction, and what
//! the engine answers.

use stalwart_mta_hook_types::{Request, Stage as WireStage};
use vstd::prelude::*;

verus! {

/// The stage of the SMTP transaction at which a decision is asked for.
#[derive(Clone, Copy, Debug, PartialEq, Eq, Structural)]
pub enum Stage {
    Connect,
    Ehlo,
    Mail,
    Rcpt,
    Data,
    Auth,
}

/// The envelope of a message: the sender and the recipients, in the order
/// in which the client named them.
#[derive(Debug, Clone, PartialEq, Eq)]
pub struct Envelope {
    pub from: String,
    pub to: Vec<String>,
}

/// The value of an [`Envelope`].
pub struct EnvelopeView {
    pub from: Seq<char>,
    pub to: Seq<Seq<char>>,
}

impl View for Envelope {
    type V = EnvelopeView;

    open spec fn view(&self) -> EnvelopeView {
        EnvelopeView { from: self.from@, to: self.to.deep_view() }
    }
}

impl DeepView for Envelope {
    type V = EnvelopeView;

    open spec fn deep_view(&self) -> EnvelopeView {
        self@
    }
}

/// What is known of a message at the data stage: its size in bytes and its
/// headers as pairs of name and value, in the order of the message.
#[derive(Debug, Clone, PartialEq, Eq)]
pub struct Message {
    pub size: u64,
    pub headers: Vec<(String, String)>,
}

/// The value of a [`Message`].
pub struct MessageView {
    pub size: u64,
    pub headers: Seq<(Seq<char>, Seq<char>)>,
}

impl View for Message {
    type V = MessageView;

    open spec fn view(&self) -> MessageView {
        MessageView { size: self.size, headers: self.headers.deep_view() }
    }
}

impl DeepView for Message {
    type V = MessageView;

    open spec fn deep_view(&self) -> MessageView {
        self@
    }
}

/// One request for a decision. It carries everything that the evaluator of
/// its stage reads: the engine remembers nothing from one request to the
/// next.
#[derive(Debug, Clone, PartialEq, Eq)]
pub struct TransactionEvent {
    pub stage: Stage,
    pub client_ip: String,
    pub helo: Option<String>,
    pub queue_id: Option<String>,
    pub envelope: Option<Envelope>,
    pub message: Option<Message>,
}

/// The value of a [`TransactionEvent`].
pub struct TransactionEventView {
    pub stage: Stage,
    pub client_ip: Seq<char>,
    pub helo: Option<Seq<char>>,
    pub queue_id: Option<Seq<char>>,
    pub envelope: Option<EnvelopeView>,
    pub message: Option<MessageView>,
}

impl View for TransactionEvent {
    type V = TransactionEventView;

    open spec fn view(&self) -> TransactionEventView {
        TransactionEventView {
            stage: self.stage,
            client_ip: self.client_ip@,
            helo: self.helo.deep_view(),
            queue_id: self.queue_id.deep_view(),
            envelope: self.envelope.deep_view(),
            message: self.message.deep_view(),
        }
    }
}

impl DeepView for TransactionEvent {
    type V = TransactionEventView;

    open spec fn deep_view(&self) -> TransactionEventView {
        self@
    }
}

impl TransactionEventView {
    /// The sender of the envelope; `unknown` where the event has no
    /// envelope.
    pub open spec fn sender(self) -> Seq<char> {
        match self.envelope {
            Some(envelope) => envelope.from,
            None => "unknown"@,
        }
    }

    /// The recipients of the envelope; none where the event has no envelope.
    pub open spec fn recipients(self) -> Seq<Seq<char>> {
        match self.envelope {
            Some(envelope) => envelope.to,
            None => Seq::empty(),
        }
    }

    /// The size of the message; zero where the event has no message.
    pub open spec fn message_size(self) -> u64 {
        match self.message {
            Some(message) => message.size,
            None => 0,
        }
    }

    /// The headers of the message; none where the event has no message.
    pub open spec fn headers(self) -> Seq<(Seq<char>, Seq<char>)> {
        match self.message {
            Some(message) => message.headers,
            None => Seq::empty(),
        }
    }
}

/// A header that the mail transfer agent is asked to add to the message.
#[derive(Debug, Clone, PartialEq, Eq)]
pub struct Modification {
    pub header: String,
    pub value: String,
}

/// The value of a [`Modification`].
pub struct ModificationView {
    pub header: Seq<char>,
    pub value: Seq<char>,
}

impl View for Modification {
    type V = ModificationView;

    open spec fn view(&self) -> ModificationView {
        ModificationView { header: self.header@, value: self.value@ }
    }
}

impl DeepView for Modification {
    type V = ModificationView;

    open spec fn deep_view(&self) -> ModificationView {
        self@
    }
}

/// The answer to one request.
///
/// A rejection carries the SMTP reply code where the stage fixes one; the
/// connect stage fixes none and leaves the choice to the mail transfer
/// agent.
#[derive(Debug, Clone, PartialEq, Eq)]
pub enum Decision {
    Accept { modifications: Vec<Modification> },
    Reject { code: Option<u16>, message: String },
    Quarantine,
}

/// The value of a [`Decision`].
pub enum DecisionView {
    Accept { modifications: Seq<ModificationView> },
    Reject { code: Option<u16>, message: Seq<char> },
    Quarantine,
}

impl View for Decision {
    type V = DecisionView;

    open spec fn view(&self) -> DecisionView {
        match self {
            Decision::Accept { modifications } => DecisionView::Accept {
                modifications: modifications.deep_view(),
            },
            Decision::Reject { code, message } => DecisionView::Reject {
                code: *code,
                message: message@,
            },
            Decision::Quarantine => DecisionView::Quarantine,
        }
    }
}

impl DeepView for Decision {
    type V = DecisionView;

    open spec fn deep_view(&self) -> DecisionView {
        self@
    }
}

impl DecisionView {
    /// Acceptance that asks for no change to the message.
    pub open spec fn accept() -> DecisionView {
        DecisionView::Accept { modifications: Seq::empty() }
    }

    /// Rejection with the reply `code message`.
    pub open spec fn reject(code: u16, message: Seq<char>) -> DecisionView {
        DecisionView::Reject { code: Some(code), message }
    }
}

impl Decision {
    /// Acceptance that asks for no change to the message.
    pub fn accept() -> (decision: Decision)
        ensures
            decision@ == DecisionView::accept(),
    {
        let decision = Decision::Accept { modifications: Vec::new() };
        proof {
            assert(decision@->Accept_modifications =~= Seq::empty());
        }
        decision
    }

    /// Rejection with the reply `code message`.
    pub fn reject(code: u16, message: String) -> (decision: Decision)
        ensures
            decision@ == DecisionView::reject(code, message@),
    {
        Decision::Reject { code: Some(code), message }
    }

    /// Tells whether the decision lets the transaction go on.
    pub fn is_accept(&self) -> (accepted: bool)
        ensures
            accepted == (self@ is Accept),
    {
        match self {
            Decision::Accept { .. } => true,
            _ => false,
        }
    }
}

/// What reading a request from its JSON text gives: the event, or `None`
/// where the text is not a well-formed request.
pub uninterp spec fn parsed_event(text: Seq<char>) -> Option<TransactionEventView>;

/// Reads a request with `serde_json::from_str` into the request type of
/// `stalwart_mta_hook_types` and moves its fields, one for one, into a
/// [`TransactionEvent`]. The contract names the outcome, which depends on
/// the text alone; `None` stands for every error of the parser.
#[verifier::external_body]
pub(crate) fn parse_event(text: &str) -> (event: Option<TransactionEvent>)
    ensures
        event.deep_view() == parsed_event(text@),
{
    let r: Request = serde_json::from_str(text).ok()?;
    let stage = match r.context.stage {
        WireStage::Connect => Stage::Connect,
        WireStage::Ehlo => Stage::Ehlo,
        WireStage::Auth => Stage::Auth,
        WireStage::Mail => Stage::Mail,
        WireStage::Rcpt => Stage::Rcpt,
        WireStage::Data => Stage::Data,
    };
    Some(TransactionEvent {
        stage, client_ip: r.context.client.ip, helo: r.context.client.helo,
        queue_id: r.context.queue.map(|q| q.id),
        envelope: r.envelope.map(|e| Envelope { from: e.from.address, to: e.to.into_iter().map(|a| a.address).collect() }),
        message: r.message.map(|m| Message { size: m.size as u64, headers: m.headers }),
    })
}

} // verus!
