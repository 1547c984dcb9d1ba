//! The outbound chat-completion request, built with async-openai's types and
//! encoded as JSON with serde_json.
use vstd::prelude::*;
use crate::edit::EditError;
use async_openai::types::{
    ChatCompletionRequestMessage, ChatCompletionRequestUserMessageArgs,
    CreateChatCompletionRequest, CreateChatCompletionRequestArgs,
};

verus! {

#[verifier::external_type_specification]
#[verifier::external_body]
pub struct ExCreateChatCompletionRequest(CreateChatCompletionRequest);

/// The JSON text of the request for `model` with one user message holding
/// `instruction`.
pub uninterp spec fn request_body_of(model: Seq<char>, instruction: Seq<char>) -> Seq<char>;

/// A request ready to send, with the JSON body that it encodes to.
pub struct PreparedRequest {
    pub request: CreateChatCompletionRequest,
    pub body: String,
}

/// Relies on async-openai's `ChatCompletionRequestUserMessageArgs` and
/// `CreateChatCompletionRequestArgs` builders, and on `serde_json::to_string`:
/// the request for `model` with one user message holding `instruction`, and
/// its JSON text. Both request types carry a struct-level builder default and
/// no validator, so the derived `build` has no error path; the request holds
/// no map with other than string keys, so encoding it cannot fail. The text
/// depends on the arguments alone.
#[verifier::external_body]
fn encoded_request(model: &str, instruction: String) -> (r: Option<(CreateChatCompletionRequest, String)>)
    ensures
        r is Some,
        r->Some_0.1@ == request_body_of(model@, instruction@),
{
    let message = ChatCompletionRequestUserMessageArgs::default().content(instruction).build().ok()?;
    let request = CreateChatCompletionRequestArgs::default()
        .model(model)
        .messages(vec![ChatCompletionRequestMessage::from(message)])
        .build()
        .ok()?;
    let body = serde_json::to_string(&request).ok()?;
    Some((request, body))
}

/// Builds the request for `model` with one user message holding
/// `instruction`, and its JSON body. This always succeeds.
pub fn prepare_request(model: &str, instruction: String) -> (r: Result<PreparedRequest, EditError>)
    ensures
        r is Ok,
        r->Ok_0.body@ == request_body_of(model@, instruction@),
{
    match encoded_request(model, instruction) {
        Some((request, body)) => Ok(PreparedRequest { request, body }),
        None => Err(EditError::RequestInvalid),
    }
}

} // verus!
