//! The three request handlers -- health check, login, chat -- composed
//! from the token cache, the context manager and the completion client.
//!
//! The chat handler is split around the outbound call: `chat` validates
//! the token and produces the request body, and `chat_finish` interprets
//! what came back. The caller performs the transfer in between.

use vstd::prelude::*;
use vstd::string::*;
use crate::auth::{TokenCache, generate_token, valid_token_format, TOKEN_TTL_SECS};
use crate::completion::{OpenAI, ai_cue, request_body_spec, transport_error_text, no_response_text, human_turn_marker, upstream_shape, upstream_first_text};
use crate::text::extracted_reply;
use crate::context::initial_context;

verus! {

/// An HTTP-level reply: a status code and a plain-text body.
pub struct Reply {
    pub status: u16,
    pub body: String,
}

/// The JSON payload of a chat request.
pub struct Prompt {
    pub prompt: String,
}

/// The shared login secret.
pub open spec fn shared_password() -> Seq<char> {
    "GPT3MegaMind"@
}

/// Body of a rejected login.
pub open spec fn wrong_password_text() -> Seq<char> {
    "Wrong password"@
}

/// Body of a rejected chat.
pub open spec fn bad_token_text() -> Seq<char> {
    "Bad token."@
}

/// Body of the error reply for a response that could not be interpreted.
pub open spec fn malformed_response_text() -> Seq<char> {
    "Malformed response from completion API."@
}

/// Health check: a fixed greeting.
pub fn index() -> (r: Reply)
    ensures
        r.status == 200,
        r.body@ == "Hello World!"@,
{
    Reply { status: 200, body: String::from_str("Hello World!") }
}

/// Login. A wrong password is refused with 400 and changes nothing; the
/// right password yields a fresh well-formed token, registered in the
/// token cache for the session's time-to-live and seeded with the initial
/// transcript, and the token is the 200 reply's body.
pub fn login(cache: &mut TokenCache, open_ai: &mut OpenAI, password: String) -> (r: Reply)
    requires
        old(cache).wf(),
        old(open_ai).context_manager.wf(),
    ensures
        final(cache).wf(),
        final(open_ai).context_manager.wf(),
        final(open_ai).api_key == old(open_ai).api_key,
        password@ != shared_password() ==> r.status == 400 && r.body@ == wrong_password_text()
            && final(cache)@ == old(cache)@ && final(open_ai).context_manager@ == old(open_ai).context_manager@,
        password@ == shared_password() ==> r.status == 200 && valid_token_format(r.body@) && final(cache)@.contains(r.body@) && final(cache)@.subset_of(old(cache)@.insert(r.body@)) && final(open_ai).context_manager@ == old(open_ai).context_manager@.insert(r.body@, initial_context()),
{
    let expected = String::from_str("GPT3MegaMind");
    if !(password == expected) {
        return Reply { status: 400, body: String::from_str("Wrong password") };
    }
    let token = generate_token();
    open_ai.context_manager.crate_new_context(token.clone());
    cache.insert(token.clone(), TOKEN_TTL_SECS);
    Reply { status: 200, body: token }
}

/// What the chat handler decided before any outbound transfer.
pub enum ChatStep {
    /// The turn ends here with this reply; nothing is to be sent.
    Done(Reply),
    /// The request body to send to the completion endpoint; the raw
    /// response goes to `chat_finish`.
    CallUpstream(String),
}

/// First half of a chat turn. A token the cache does not vouch for is
/// refused with 401 and nothing changes. A vouched-for token without a
/// transcript is an internal error, 500. Otherwise the prompt joins the
/// token's transcript and the request body for the grown transcript is
/// handed back for sending.
pub fn chat(cache: &TokenCache, open_ai: &mut OpenAI, token: String, prompt: Prompt) -> (r:
    ChatStep)
    requires
        old(open_ai).context_manager.wf(),
    ensures
        final(open_ai).context_manager.wf(),
        final(open_ai).api_key == old(open_ai).api_key,
        !cache@.contains(token@) ==> (r matches ChatStep::Done(rep) && rep.status == 401
            && rep.body@ == bad_token_text() && final(open_ai).context_manager@ == old(open_ai).context_manager@),
        r matches ChatStep::Done(rep) ==> ((rep.status == 401 || rep.status == 500)
            && final(open_ai).context_manager@ == old(open_ai).context_manager@
            && (rep.status == 401 ==> rep.body@ == bad_token_text())
            && (rep.status == 500 ==> !old(open_ai).context_manager@.contains_key(token@))),
        r matches ChatStep::CallUpstream(body) ==> (cache@.contains(token@) && old(open_ai).context_manager@.contains_key(token@) && body@ == request_body_spec(
            old(open_ai).context_manager@[token@] + prompt.prompt@ + ai_cue(),
        ) && final(open_ai).context_manager@ == old(open_ai).context_manager@.insert(
            token@,
            old(open_ai).context_manager@[token@] + prompt.prompt@,
        )),
{
    if !cache.contains(&token) {
        return ChatStep::Done(Reply { status: 401, body: String::from_str("Bad token.") });
    }
    let prepared = open_ai.prepare_completion(token, prompt.prompt);
    match prepared {
        Ok(body) => ChatStep::CallUpstream(body),
        Err(_) => ChatStep::Done(
            Reply { status: 500, body: String::from_str("No context for token.") },
        ),
    }
}

/// Second half of a chat turn: turns the raw outcome of the outbound call
/// into the 200 reply (a completion, or a sentinel for a transfer failure
/// or an answer without usable choices), or 500 for a response that could
/// not be interpreted.
pub fn chat_finish(open_ai: &mut OpenAI, token: String, upstream: Option<&str>) -> (r: Reply)
    requires
        old(open_ai).context_manager.wf(),
    ensures
        final(open_ai).context_manager.wf(),
        final(open_ai).api_key == old(open_ai).api_key,
        upstream is None ==> r.status == 200 && r.body@ == transport_error_text() && final(open_ai).context_manager@ == old(open_ai).context_manager@,
        r.status == 200 || r.status == 500,
        r.status == 500 ==> r.body@ == malformed_response_text() && final(open_ai).context_manager@
            == old(open_ai).context_manager@,
        upstream matches Some(raw) ==> upstream_shape(raw@) <= 5,
        upstream matches Some(raw) ==> (upstream_shape(raw@) == 5 ==> (r.status == 200 && r.body@
            == extracted_reply(upstream_first_text(raw@)) && final(open_ai).context_manager@ == old(open_ai).context_manager@.insert(
            token@,
            upstream_first_text(raw@) + human_turn_marker(),
        ))),
        upstream matches Some(raw) ==> ((upstream_shape(raw@) == 1 || upstream_shape(raw@) == 2
            || upstream_shape(raw@) == 3) ==> (r.status == 200 && r.body@ == no_response_text()
            && final(open_ai).context_manager@ == old(open_ai).context_manager@)),
        upstream matches Some(raw) ==> ((upstream_shape(raw@) == 0 || upstream_shape(raw@) == 4)
            ==> r.status == 500),
{
    let applied = open_ai.apply_response(token, upstream);
    match applied {
        Ok(reply) => Reply { status: 200, body: reply },
        Err(_) => Reply {
            status: 500,
            body: String::from_str("Malformed response from completion API."),
        },
    }
}

} // verus!
