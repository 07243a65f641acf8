//! The completion client: it builds the exact request body sent to the
//! external text-completion service and interprets the service's JSON
//! response, updating the conversation transcript.
//!
//! The HTTP transfer itself happens outside the library; callers hand the
//! raw response text (or the fact that the transfer failed) back to
//! `apply_response`.

use vstd::prelude::*;
use vstd::string::*;
use crate::context::{ContextManager, ContextError, initial_context};
use crate::text::{json_escaped, json_escape, extracted_reply, extract_reply};

verus! {

/// The cue appended to the transcript to ask the model for the AI's turn.
pub open spec fn ai_cue() -> Seq<char> {
    "\nAI:"@
}

/// The marker appended to a reply to seed the next human turn.
pub open spec fn human_turn_marker() -> Seq<char> {
    "\nHuman: "@
}

/// Sentinel reply when the response had no usable `choices`.
pub open spec fn no_response_text() -> Seq<char> {
    "The AI returned no response."@
}

/// Sentinel reply when the request could not be sent at all.
pub open spec fn transport_error_text() -> Seq<char> {
    "Request building error!"@
}

/// The JSON body of a completion request: the given prompt, then the fixed
/// generation parameters (at most 150 tokens, nucleus sampling 1.0,
/// temperature 0.8, one completion, no streaming, echo on, stop at a
/// newline, frequency penalty 0.3).
pub open spec fn request_body_spec(prompt: Seq<char>) -> Seq<char> {
    "{\"prompt\":\""@ + json_escaped(prompt)
        + "\",\"max_tokens\":150,\"top_p\":1.0,\"temperature\":0.8,\"n\":1,\"stream\":false,\"echo\":true,\"stop\":\"\\n\",\"frequency_penalty\":0.3}"@
}

/// Builds the completion request body for the given prompt.
pub fn build_request_body(prompt: &str) -> (body: String)
    ensures
        body@ == request_body_spec(prompt@),
{
    let mut body = String::from_str("{\"prompt\":\"");
    let escaped = json_escape(prompt);
    body.append(escaped.as_str());
    body.append(
        "\",\"max_tokens\":150,\"top_p\":1.0,\"temperature\":0.8,\"n\":1,\"stream\":false,\"echo\":true,\"stop\":\"\\n\",\"frequency_penalty\":0.3}",
    );
    proof {
        assert(body@ =~= request_body_spec(prompt@));
    }
    body
}

/// The fixed completions endpoint of the external service, scoped to the
/// davinci engine.
pub fn completion_endpoint() -> (url: String)
    ensures
        url@ == "https://api.openai.com/v1/engines/davinci/completions"@,
{
    String::from_str("https://api.openai.com/v1/engines/davinci/completions")
}

/// Which of the shapes the client distinguishes a response body has.
/// The code is a function of the body text alone: 0 for text that is not
/// a JSON object, 1 for an object without a `choices` field, 2 for
/// `choices` equal to `null`, 3 for `choices` of any shape other than
/// `null` or a list, 4 for a list without a first element whose `text`
/// field is a string, and 5 for a list whose first element carries text.
pub uninterp spec fn upstream_shape(body: Seq<char>) -> nat;

/// The `text` of the first choice of a response body whose shape code is
/// 5; a function of the body text alone.
pub uninterp spec fn upstream_first_text(body: Seq<char>) -> Seq<char>;

/// What the `choices` field of a completion response turned out to hold.
pub enum UpstreamChoices {
    /// The response was not well-formed JSON, or not a JSON object.
    Unparseable,
    /// The response object has no `choices` field.
    Missing,
    /// `choices` is JSON `null`.
    Null,
    /// `choices` is neither `null` nor a list.
    OtherShape,
    /// `choices` is a list, but without a first element whose `text` field
    /// is a string.
    MalformedEntry,
    /// The `text` of the first choice.
    FirstText(String),
}

/// Sorts a raw response body into the shapes the client distinguishes.
///
/// Relies on serde_json -- `from_str`, `Map::get`, `Value::as_str` -- for
/// the one deterministic question the client asks of the text: what its
/// `choices` field holds. Parsing a given text is a function of the text
/// alone, so the outcome bears the two names above, and each shape of the
/// result is claimed if and only if the text has the matching code. None
/// of these serde_json calls panics, and anything that is not a JSON
/// object -- which the conversation endpoint never sends -- counts as
/// unparseable.
#[verifier::external_body]
fn classify_response(body: &str) -> (r: UpstreamChoices)
    ensures
        r is Unparseable <==> upstream_shape(body@) == 0,
        r is Missing <==> upstream_shape(body@) == 1,
        r is Null <==> upstream_shape(body@) == 2,
        r is OtherShape <==> upstream_shape(body@) == 3,
        r is MalformedEntry <==> upstream_shape(body@) == 4,
        r is FirstText <==> upstream_shape(body@) == 5,
        r matches UpstreamChoices::FirstText(t) ==> t@ == upstream_first_text(body@),
{
    let parsed: Result<serde_json::Value, serde_json::Error> = serde_json::from_str(body);
    match parsed {
        Ok(serde_json::Value::Object(fields)) => match fields.get("choices") {
            None => UpstreamChoices::Missing,
            Some(serde_json::Value::Null) => UpstreamChoices::Null,
            Some(serde_json::Value::Array(items)) => {
                match items.first().and_then(|c| c.get("text")).and_then(|t| t.as_str()) {
                    Some(text) => UpstreamChoices::FirstText(text.to_string()),
                    None => UpstreamChoices::MalformedEntry,
                }
            },
            Some(_) => UpstreamChoices::OtherShape,
        },
        _ => UpstreamChoices::Unparseable,
    }
}

/// Failure of a chat turn that is surfaced as an error rather than masked
/// by a sentinel reply.
#[derive(Debug, PartialEq, Eq)]
pub enum UpstreamError {
    /// The response body could not be parsed, or its first choice carried
    /// no text.
    MalformedResponse,
}

/// The completion client: the conversation transcripts together with the
/// credential for the external service.
pub struct OpenAI {
    pub context_manager: ContextManager,
    pub api_key: String,
}

impl OpenAI {
    pub fn new(api_key: String) -> (r: Self)
        ensures
            r.context_manager.wf(),
            r.context_manager@ == Map::<Seq<char>, Seq<char>>::empty(),
            r.api_key == api_key,
    {
        Self { context_manager: ContextManager::new(), api_key }
    }

    /// Seeds a fresh transcript for the token, overwriting any prior one.
    pub fn create_context(&mut self, user_token: String)
        requires
            old(self).context_manager.wf(),
        ensures
            final(self).context_manager.wf(),
            final(self).api_key == old(self).api_key,
            final(self).context_manager@ == old(self).context_manager@.insert(
                user_token@,
                initial_context(),
            ),
    {
        self.context_manager.crate_new_context(user_token);
    }

    /// First half of a chat turn: appends the user's prompt to the token's
    /// transcript and builds the request body that asks the external
    /// service to continue the grown transcript. A token without a
    /// transcript is an explicit error and nothing changes.
    pub fn prepare_completion(&mut self, user_token: String, user_prompt: String) -> (r: Result<
        String,
        ContextError,
    >)
        requires
            old(self).context_manager.wf(),
        ensures
            final(self).context_manager.wf(),
            final(self).api_key == old(self).api_key,
            old(self).context_manager@.contains_key(user_token@) ==> (r matches Ok(body)
                && body@ == request_body_spec(
                old(self).context_manager@[user_token@] + user_prompt@ + ai_cue(),
            ) && final(self).context_manager@ == old(self).context_manager@.insert(
                user_token@,
                old(self).context_manager@[user_token@] + user_prompt@,
            )),
            !old(self).context_manager@.contains_key(user_token@) ==> r is Err && final(self).context_manager@ == old(self).context_manager@,
    {
        let appended = self.context_manager.add_to_context(user_token.clone(), user_prompt);
        match appended {
            Err(e) => Err(e),
            Ok(()) => {
                let context = self.context_manager.get_context(user_token);
                match context {
                    None => Err(ContextError::NotFound),
                    Some(ctx) => {
                        let prompt = ctx.concat("\nAI:");
                        let body = build_request_body(prompt.as_str());
                        Ok(body)
                    },
                }
            },
        }
    }

    /// Second half of a chat turn, applied to whatever came back from the
    /// external service. A transport failure (`None`) and a response
    /// without usable `choices` degrade to fixed sentinel replies and
    /// leave every transcript as it was. A response whose first choice
    /// carries text replaces the token's transcript with that text plus
    /// the next human-turn marker, and the reply is the text's last line
    /// with every "AI: " label removed. A response that cannot be
    /// interpreted at all is an explicit error and changes nothing.
    pub fn apply_response(&mut self, user_token: String, upstream: Option<&str>) -> (r: Result<
        String,
        UpstreamError,
    >)
        requires
            old(self).context_manager.wf(),
        ensures
            final(self).context_manager.wf(),
            final(self).api_key == old(self).api_key,
            upstream is None ==> (r matches Ok(reply) && reply@ == transport_error_text()
                && final(self).context_manager@ == old(self).context_manager@),
            r is Err ==> final(self).context_manager@ == old(self).context_manager@,
            upstream matches Some(raw) ==> upstream_shape(raw@) <= 5,
            upstream matches Some(raw) ==> (upstream_shape(raw@) == 5 ==> (r matches Ok(reply)
                && reply@ == extracted_reply(upstream_first_text(raw@))
                && final(self).context_manager@ == old(self).context_manager@.insert(
                user_token@,
                upstream_first_text(raw@) + human_turn_marker(),
            ))),
            upstream matches Some(raw) ==> ((upstream_shape(raw@) == 1 || upstream_shape(raw@) == 2
                || upstream_shape(raw@) == 3) ==> (r matches Ok(reply) && reply@
                == no_response_text() && final(self).context_manager@ == old(self).context_manager@)),
            upstream matches Some(raw) ==> ((upstream_shape(raw@) == 0 || upstream_shape(raw@) == 4)
                ==> (r matches Err(e) && e == UpstreamError::MalformedResponse && final(self).context_manager@ == old(self).context_manager@)),
    {
        match upstream {
            None => Ok(String::from_str("Request building error!")),
            Some(body) => {
                let choices = classify_response(body);
                self.apply_choices(user_token, choices)
            },
        }
    }

    /// Applies one classified response shape: the exact step behind
    /// `apply_response`, stated for every shape.
    pub fn apply_choices(&mut self, user_token: String, choices: UpstreamChoices) -> (r: Result<
        String,
        UpstreamError,
    >)
        requires
            old(self).context_manager.wf(),
        ensures
            final(self).context_manager.wf(),
            final(self).api_key == old(self).api_key,
            match choices {
                UpstreamChoices::FirstText(t) => r matches Ok(reply) && reply@ == extracted_reply(
                    t@,
                ) && final(self).context_manager@ == old(self).context_manager@.insert(
                    user_token@,
                    t@ + human_turn_marker(),
                ),
                UpstreamChoices::Missing | UpstreamChoices::Null | UpstreamChoices::OtherShape => r
                    matches Ok(reply) && reply@ == no_response_text() && final(self).context_manager@ == old(self).context_manager@,
                UpstreamChoices::Unparseable | UpstreamChoices::MalformedEntry => r matches Err(e)
                    && e == UpstreamError::MalformedResponse && final(self).context_manager@ == old(self).context_manager@,
            },
    {
        match choices {
            UpstreamChoices::FirstText(t) => {
                let reply = extract_reply(t.as_str());
                let new_conversation = t.concat("\nHuman: ");
                self.context_manager.replace_context(user_token, new_conversation);
                Ok(reply)
            },
            UpstreamChoices::Missing | UpstreamChoices::Null | UpstreamChoices::OtherShape => Ok(
                String::from_str("The AI returned no response."),
            ),
            UpstreamChoices::Unparseable | UpstreamChoices::MalformedEntry => Err(
                UpstreamError::MalformedResponse,
            ),
        }
    }
}

} // verus!
