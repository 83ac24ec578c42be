//! Runtime inspector protocol messages and deferred-response delivery.

use vstd::prelude::*;

verus! {

/// A JSON value of the inspector protocol.
#[verifier::external_type_specification]
#[verifier::external_body]
pub struct ExJsonValue(serde_json::Value);

/// The sending half of a one-shot channel.
#[verifier::external_type_specification]
#[verifier::external_body]
#[verifier::reject_recursive_types(T)]
pub struct ExOneshotSender<T>(tokio::sync::oneshot::Sender<T>);

/// The receiving half of a one-shot channel.
#[verifier::external_type_specification]
#[verifier::external_body]
#[verifier::reject_recursive_types(T)]
pub struct ExOneshotReceiver<T>(tokio::sync::oneshot::Receiver<T>);

/// The error of a one-shot receiver whose sender was dropped.
#[verifier::external_type_specification]
#[verifier::external_body]
pub struct ExOneshotRecvError(tokio::sync::oneshot::error::RecvError);

/// Creates a one-shot channel; calls `tokio::sync::oneshot::channel`.
#[verifier::external_body]
pub(crate) fn oneshot_channel<T>() -> (tokio::sync::oneshot::Sender<T>, tokio::sync::oneshot::Receiver<T>) {
    tokio::sync::oneshot::channel()
}

/// Hands `value` to the receiving half of a one-shot channel.
///
/// Calls `tokio::sync::oneshot::Sender::send`.  Whether the value is
/// delivered depends on whether the receiver is still alive, so nothing is
/// claimed of the result.
#[verifier::external_body]
fn oneshot_send<T>(tx: tokio::sync::oneshot::Sender<T>, value: T) -> bool {
    tx.send(value).is_ok()
}

/// One runtime inspector protocol message, as the inspector produced it.
#[derive(Debug, PartialEq)]
pub struct RendererRuntimeInspectorMessage {
    value: serde_json::Value,
}

impl RendererRuntimeInspectorMessage {
    /// The protocol value this message carries.
    pub closed spec fn spec_value(&self) -> serde_json::Value {
        self.value
    }

    /// The message that carries `value`.
    pub closed spec fn of_value(value: serde_json::Value) -> Self {
        RendererRuntimeInspectorMessage { value }
    }

    /// Wraps a protocol value produced by the inspector.
    pub fn from_v8_inspector_message(value: serde_json::Value) -> (message: Self)
        ensures
            message == Self::of_value(value),
            message.spec_value() == value,
    {
        RendererRuntimeInspectorMessage { value }
    }

    /// The protocol value this message carries.
    pub fn value(&self) -> (value: &serde_json::Value)
        ensures
            *value == self.spec_value(),
    {
        &self.value
    }

    /// The protocol value this message carries.
    pub fn into_value(self) -> (value: serde_json::Value)
        ensures
            value == self.spec_value(),
    {
        self.value
    }
}

/// The protocol output that answers one command.
#[derive(Debug, PartialEq)]
pub struct RendererRuntimeInspectorOutput {
    call_id: i32,
    message: RendererRuntimeInspectorMessage,
}

impl RendererRuntimeInspectorOutput {
    /// The call id this output answers.
    pub closed spec fn spec_call_id(&self) -> i32 {
        self.call_id
    }

    /// The response message.
    pub closed spec fn spec_message(&self) -> RendererRuntimeInspectorMessage {
        self.message
    }

    /// The output answering `call_id` with `message`.
    pub fn new(call_id: i32, message: RendererRuntimeInspectorMessage) -> (output: Self)
        ensures
            output.spec_call_id() == call_id,
            output.spec_message() == message,
    {
        RendererRuntimeInspectorOutput { call_id, message }
    }

    /// The protocol response to the command `call_id`, if this output
    /// answers it.
    pub fn protocol_response(&self, call_id: i64) -> (response: Option<&serde_json::Value>)
        ensures
            match response {
                Some(v) => call_id == self.spec_call_id() && *v == self.spec_message().spec_value(),
                None => call_id != self.spec_call_id(),
            },
    {
        if call_id == self.call_id as i64 {
            Some(self.message.value())
        } else {
            None
        }
    }

    /// The protocol response to the command `call_id`, if this output
    /// answers it.
    pub fn into_protocol_response(self, call_id: i64) -> (response: Option<serde_json::Value>)
        ensures
            match response {
                Some(v) => call_id == self.spec_call_id() && v == self.spec_message().spec_value(),
                None => call_id != self.spec_call_id(),
            },
    {
        if call_id == self.call_id as i64 {
            Some(self.message.into_value())
        } else {
            None
        }
    }
}

/// The deferred response to one protocol command.
#[derive(Debug)]
pub struct RendererRuntimeInspectorResponse {
    pub call_id: i32,
    pub output: RendererRuntimeInspectorOutput,
}

/// The callback that delivers the deferred response of one protocol command.
#[derive(Debug)]
pub struct RendererRuntimeInspectorResponseSender {
    call_id: i32,
    tx: tokio::sync::oneshot::Sender<RendererRuntimeInspectorResponse>,
}

impl RendererRuntimeInspectorResponseSender {
    /// The protocol call id this callback answers.
    pub closed spec fn spec_call_id(&self) -> i32 {
        self.call_id
    }

    /// A callback answering `call_id` through `tx`.
    pub fn new(call_id: i32, tx: tokio::sync::oneshot::Sender<RendererRuntimeInspectorResponse>) -> (sender: Self)
        ensures
            sender.spec_call_id() == call_id,
    {
        RendererRuntimeInspectorResponseSender { call_id, tx }
    }

    /// The protocol call id this callback answers.
    pub fn call_id(&self) -> (call_id: i32)
        ensures
            call_id == self.spec_call_id(),
    {
        self.call_id
    }

    /// The response this callback delivers for `value`: its own call id, and
    /// an output that answers that call id with `value`.
    pub fn response_for(&self, value: serde_json::Value) -> (response: RendererRuntimeInspectorResponse)
        ensures
            response.call_id == self.spec_call_id(),
            response.output.spec_call_id() == self.spec_call_id(),
            response.output.spec_message() == RendererRuntimeInspectorMessage::of_value(value),
    {
        RendererRuntimeInspectorResponse {
            call_id: self.call_id,
            output: RendererRuntimeInspectorOutput::new(
                self.call_id,
                RendererRuntimeInspectorMessage::from_v8_inspector_message(value),
            ),
        }
    }

    /// Delivers `value` as the response to this callback's call id (the
    /// response of `response_for`); returns whether the receiver was still
    /// there to take it.
    pub fn send(self, value: serde_json::Value) -> bool {
        let response = self.response_for(value);
        oneshot_send(self.tx, response)
    }
}

} // verus!
