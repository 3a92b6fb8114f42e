//! Request and response shapes of the completion endpoints, and the
//! assembly of prompt and response values from them.
//!
//! Serialisation to and from the wire happens outside the crate; what is
//! built here is the content: the conversation flattened into the engine
//! prompt, the choice a one-shot completion returns, and the model listing.

use vstd::prelude::*;
use vstd::string::StringExecFns;

use crate::records::ModelRecord;
use crate::textutil::str_eq;

verus! {

/// One turn of a conversation.
#[derive(Debug, Clone)]
pub struct Message {
    pub role: String,
    pub content: String,
}

/// The single choice of a non-streamed completion response.
#[derive(Debug, Clone)]
pub struct Choice {
    pub index: usize,
    pub message: Message,
    pub finish_reason: String,
}

/// Incremental content of one streamed chunk.
#[derive(Debug, Clone)]
pub struct Delta {
    pub role: Option<String>,
    pub content: Option<String>,
}

/// The single choice of one streamed chunk.
#[derive(Debug, Clone)]
pub struct ChunkChoice {
    pub index: usize,
    pub delta: Delta,
    pub finish_reason: Option<String>,
}

/// One streamed completion chunk.
#[derive(Debug, Clone)]
pub struct ChatCompletionChunk {
    pub id: String,
    pub object: String,
    pub created: i64,
    pub model: String,
    pub choices: Vec<ChunkChoice>,
}

/// Token accounting of one completion. The engine's floating-point rate
/// statistics stay with the caller; the token counts are exact.
#[derive(Debug, Clone, Copy)]
pub struct Usage {
    pub prompt_tokens: usize,
    pub completion_tokens: usize,
    pub total_tokens: usize,
}

/// A finished, non-streamed completion response.
#[derive(Debug, Clone)]
pub struct ChatCompletionResponse {
    pub id: String,
    pub object: String,
    pub created: i64,
    pub model: String,
    pub choices: Vec<Choice>,
    pub usage: Option<Usage>,
}

/// One entry of the model listing.
#[derive(Debug, Clone)]
pub struct Model {
    pub id: String,
    pub object: String,
    pub created: i64,
    pub owned_by: String,
}

/// The model listing returned by the catalogue endpoint.
#[derive(Debug, Clone)]
pub struct ModelList {
    pub object: String,
    pub data: Vec<Model>,
}

/// Input of an embedding request: one text or several.
#[derive(Debug, Clone)]
pub enum EmbeddingInput {
    Single(String),
    Multiple(Vec<String>),
}

/// An embedding request.
#[derive(Debug, Clone)]
pub struct EmbeddingRequest {
    pub model: Option<String>,
    pub input: EmbeddingInput,
}

/// One conversation turn as it appears in the flattened prompt: a speaker
/// tag (every role other than `user` is attributed to the assistant)
/// followed by the turn's content.
pub open spec fn spec_role_line(m: Message) -> Seq<char> {
    (if m.role@ == "user"@ {
        "User: "@
    } else {
        "Assistant: "@
    }) + m.content@
}

/// The conversation's turns, one line each.
pub open spec fn spec_conversation(ms: Seq<Message>) -> Seq<char>
    decreases ms.len(),
{
    if ms.len() == 0 {
        Seq::empty()
    } else if ms.len() == 1 {
        spec_role_line(ms[0])
    } else {
        spec_conversation(ms.drop_last()) + "\n"@ + spec_role_line(ms.last())
    }
}

/// The full prompt: the conversation followed by the assistant cue.
pub open spec fn spec_prompt(ms: Seq<Message>) -> Seq<char> {
    spec_conversation(ms) + "\nAssistant:"@
}

/// Flattens a conversation into the engine prompt.
pub fn build_prompt(messages: &Vec<Message>) -> (r: String)
    ensures
        r@ == spec_prompt(messages@),
{
    let n = messages.len();
    let mut r = String::new();
    let mut i: usize = 0;
    while i < n
        invariant
            i <= n,
            n == messages@.len(),
            r@ =~= spec_conversation(messages@.subrange(0, i as int)),
        decreases n - i,
    {
        if i > 0 {
            r.append("\n");
        }
        if str_eq(messages[i].role.as_str(), "user") {
            r.append("User: ");
        } else {
            r.append("Assistant: ");
        }
        r.append(messages[i].content.as_str());
        proof {
            let cur = messages@.subrange(0, i + 1);
            assert(cur.drop_last() =~= messages@.subrange(0, i as int));
            assert(cur.last() == messages@[i as int]);
            assert(r@ =~= spec_conversation(cur));
        }
        i = i + 1;
    }
    proof {
        assert(messages@.subrange(0, n as int) =~= messages@);
    }
    r.append("\nAssistant:");
    r
}

/// The identifier a completion response carries, derived from a fresh
/// unique suffix the caller supplies.
pub fn completion_id(unique: &str) -> (r: String)
    ensures
        r@ == "chatcmpl-"@ + unique@,
{
    let mut r = "chatcmpl-".to_owned();
    r.append(unique);
    r
}

/// One streamed chunk as a value: a single choice whose delta carries the
/// assistant role on the first chunk and the finish reason on the last.
pub fn make_chunk(
    id: &str,
    created: i64,
    model: &str,
    role_assistant: bool,
    content: Option<String>,
    finish_stop: bool,
) -> (r: ChatCompletionChunk)
    ensures
        r.id@ == id@,
        r.object@ == "chat.completion.chunk"@,
        r.created == created,
        r.model@ == model@,
        r.choices@.len() == 1,
        r.choices@[0].index == 0,
        r.choices@[0].delta.role matches Some(role) <==> role_assistant,
        (r.choices@[0].delta.role matches Some(role) ==> role@ == "assistant"@),
        r.choices@[0].delta.content == content,
        r.choices@[0].finish_reason matches Some(reason) <==> finish_stop,
        (r.choices@[0].finish_reason matches Some(reason) ==> reason@ == "stop"@),
{
    let role: Option<String> = if role_assistant {
        Some("assistant".to_owned())
    } else {
        None
    };
    let finish_reason: Option<String> = if finish_stop {
        Some("stop".to_owned())
    } else {
        None
    };
    let mut choices: Vec<ChunkChoice> = Vec::new();
    choices.push(ChunkChoice { index: 0, delta: Delta { role, content }, finish_reason });
    ChatCompletionChunk {
        id: id.to_owned(),
        object: "chat.completion.chunk".to_owned(),
        created,
        model: model.to_owned(),
        choices,
    }
}

/// The choice a finished one-shot completion carries: the generated text
/// attributed to the assistant, finishing with the stop reason.
pub fn assistant_choice(content: String) -> (r: Choice)
    ensures
        r.index == 0,
        r.finish_reason@ == "stop"@,
        r.message.role@ == "assistant"@,
        r.message.content == content,
{
    Choice {
        index: 0,
        message: Message { role: "assistant".to_owned(), content },
        finish_reason: "stop".to_owned(),
    }
}

/// The envelope of a finished one-shot completion: the tagged object with
/// its single assistant choice and the token accounting of the turn.
pub fn make_completion_response(
    unique: &str,
    created: i64,
    model: &str,
    content: String,
    num_input_tokens: usize,
    num_output_tokens: usize,
) -> (r: ChatCompletionResponse)
    requires
        num_input_tokens + num_output_tokens <= usize::MAX,
    ensures
        r.id@ == "chatcmpl-"@ + unique@,
        r.object@ == "chat.completion"@,
        r.created == created,
        r.model@ == model@,
        r.choices@.len() == 1,
        r.choices@[0].index == 0,
        r.choices@[0].finish_reason@ == "stop"@,
        r.choices@[0].message.role@ == "assistant"@,
        r.choices@[0].message.content == content,
        r.usage matches Some(u) && u.prompt_tokens == num_input_tokens && u.completion_tokens
            == num_output_tokens && u.total_tokens == num_input_tokens + num_output_tokens,
{
    let mut choices: Vec<Choice> = Vec::new();
    choices.push(assistant_choice(content));
    ChatCompletionResponse {
        id: completion_id(unique),
        object: "chat.completion".to_owned(),
        created,
        model: model.to_owned(),
        choices,
        usage: Some(
            Usage {
                prompt_tokens: num_input_tokens,
                completion_tokens: num_output_tokens,
                total_tokens: num_input_tokens + num_output_tokens,
            },
        ),
    }
}

/// Builds the model listing from the registry's records.
pub fn model_list_from_records(records: &Vec<ModelRecord>) -> (r: ModelList)
    ensures
        r.object@ == "list"@,
        r.data@.len() == records@.len(),
        forall|i: int|
            0 <= i < records@.len() ==> {
                &&& (#[trigger] r.data@[i]).id@ == records@[i].id@
                &&& r.data@[i].object@ == "model"@
                &&& r.data@[i].created == records@[i].created_at
                &&& r.data@[i].owned_by@ == "user"@
            },
{
    let n = records.len();
    let mut data: Vec<Model> = Vec::new();
    let mut i: usize = 0;
    while i < n
        invariant
            i <= n,
            n == records@.len(),
            data@.len() == i,
            forall|j: int|
                0 <= j < i ==> {
                    &&& (#[trigger] data@[j]).id@ == records@[j].id@
                    &&& data@[j].object@ == "model"@
                    &&& data@[j].created == records@[j].created_at
                    &&& data@[j].owned_by@ == "user"@
                },
        decreases n - i,
    {
        data.push(
            Model {
                id: records[i].id.clone(),
                object: "model".to_owned(),
                created: records[i].created_at,
                owned_by: "user".to_owned(),
            },
        );
        i = i + 1;
    }
    ModelList { object: "list".to_owned(), data }
}

} // verus!
