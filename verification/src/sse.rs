//! The streaming surface: JSON framing of completion chunks for the
//! server-sent-events endpoint, and the per-chunk delivery state that
//! carries cooperative cancellation back to the engine.
//!
//! The blocking generation call runs elsewhere; each reassembled text chunk
//! passes through `StreamProgress::on_chunk`, whose boolean result is the
//! engine's signal to continue or stop at the next token boundary.

use vstd::prelude::*;
use vstd::string::StrSliceExecFns;
use vstd::string::StringExecFns;

use crate::textutil::dec_rep_signed;
use crate::textutil::digit_char;
use crate::textutil::i64_to_string;
use crate::textutil::str_to_chars;

verus! {

/// Delivery state of one streamed generation, shared between the engine
/// callback and the consumer.
#[derive(Debug, Clone, Copy, PartialEq, Eq, Structural)]
pub struct StreamProgress {
    /// Chunks handed to the consumer so far.
    pub delivered: u64,
    /// The consumer has declined further chunks (or cancellation was
    /// requested); nothing more may be delivered.
    pub stopped: bool,
}

/// One delivery step: a stopped stream delivers nothing and keeps telling
/// the engine to stop; otherwise the chunk is delivered, and the consumer's
/// answer decides whether the stream goes on.
pub open spec fn spec_stream_step(s: StreamProgress, consumer_wants_more: bool) -> (
    StreamProgress,
    bool,
) {
    if s.stopped {
        (s, false)
    } else {
        (
            StreamProgress {
                delivered: if s.delivered + 1 <= u64::MAX {
                    (s.delivered + 1) as u64
                } else {
                    u64::MAX
                },
                stopped: !consumer_wants_more,
            },
            consumer_wants_more,
        )
    }
}

impl StreamProgress {
    /// A stream that has not delivered anything yet.
    pub fn new() -> (r: StreamProgress)
        ensures
            r.delivered == 0,
            !r.stopped,
    {
        StreamProgress { delivered: 0, stopped: false }
    }

    /// True when the next delivered chunk is the first one (whose delta
    /// carries the assistant role).
    pub fn next_is_first(&self) -> (r: bool)
        ensures
            r == (self.delivered == 0),
    {
        self.delivered == 0
    }

    /// Processes one chunk arriving from the engine callback:
    /// `consumer_wants_more` is the consumer's verdict on this chunk. The
    /// result is what the callback returns to the engine — `false` asks it
    /// to stop at the next token boundary.
    pub fn on_chunk(&mut self, consumer_wants_more: bool) -> (cont: bool)
        ensures
            (*final(self), cont) == spec_stream_step(*old(self), consumer_wants_more),
    {
        if self.stopped {
            return false;
        }
        if self.delivered < u64::MAX {
            self.delivered = self.delivered + 1;
        }
        self.stopped = !consumer_wants_more;
        consumer_wants_more
    }

    /// Law: once a stream has stopped, no step delivers another chunk and
    /// every step answers the engine with `false`.
    pub proof fn lemma_no_delivery_after_stop(s: StreamProgress, consumer_wants_more: bool)
        requires
            s.stopped,
        ensures
            spec_stream_step(s, consumer_wants_more).0 == s,
            spec_stream_step(s, consumer_wants_more).1 == false,
    {
    }

    /// Law: the delivered count only moves while the stream is live, and a
    /// consumer that declines freezes it: after a step with
    /// `consumer_wants_more == false` the stream is stopped.
    pub proof fn lemma_decline_stops_stream(s: StreamProgress)
        requires
            !s.stopped,
        ensures
            spec_stream_step(s, false).0.stopped,
            spec_stream_step(s, false).1 == false,
    {
    }
}

/// Lower-case hexadecimal digit character for a value below sixteen.
pub open spec fn hex_char(d: nat) -> char
    recommends
        d < 16,
{
    if d < 10 {
        digit_char(d)
    } else {
        (87 + d) as char
    }
}

/// JSON escaping of one character, as a JSON string literal's body has it.
pub open spec fn json_escaped_char(c: char) -> Seq<char> {
    if c == '"' {
        seq!['\\', '"']
    } else if c == '\\' {
        seq!['\\', '\\']
    } else if c == '\n' {
        seq!['\\', 'n']
    } else if c == '\r' {
        seq!['\\', 'r']
    } else if c == '\t' {
        seq!['\\', 't']
    } else if c as u32 == 8 {
        seq!['\\', 'b']
    } else if c as u32 == 12 {
        seq!['\\', 'f']
    } else if (c as u32) < 32 {
        seq!['\\', 'u', '0', '0', hex_char((c as u32 / 16) as nat), hex_char((c as u32 % 16) as nat)]
    } else {
        seq![c]
    }
}

/// JSON escaping of a whole string body.
pub open spec fn json_escaped(s: Seq<char>) -> Seq<char>
    decreases s.len(),
{
    if s.len() == 0 {
        Seq::empty()
    } else {
        json_escaped(s.drop_last()) + json_escaped_char(s.last())
    }
}

/// One-character string slice for a low hexadecimal digit value.
fn hex_str(d: u32) -> (r: &'static str)
    requires
        d < 16,
    ensures
        r@ =~= seq![hex_char(d as nat)],
{
    if d == 0 {
        proof { reveal_strlit("0"); }
        "0"
    } else if d == 1 {
        proof { reveal_strlit("1"); }
        "1"
    } else if d == 2 {
        proof { reveal_strlit("2"); }
        "2"
    } else if d == 3 {
        proof { reveal_strlit("3"); }
        "3"
    } else if d == 4 {
        proof { reveal_strlit("4"); }
        "4"
    } else if d == 5 {
        proof { reveal_strlit("5"); }
        "5"
    } else if d == 6 {
        proof { reveal_strlit("6"); }
        "6"
    } else if d == 7 {
        proof { reveal_strlit("7"); }
        "7"
    } else if d == 8 {
        proof { reveal_strlit("8"); }
        "8"
    } else if d == 9 {
        proof { reveal_strlit("9"); }
        "9"
    } else if d == 10 {
        proof { reveal_strlit("a"); }
        "a"
    } else if d == 11 {
        proof { reveal_strlit("b"); }
        "b"
    } else if d == 12 {
        proof { reveal_strlit("c"); }
        "c"
    } else if d == 13 {
        proof { reveal_strlit("d"); }
        "d"
    } else if d == 14 {
        proof { reveal_strlit("e"); }
        "e"
    } else {
        proof { reveal_strlit("f"); }
        "f"
    }
}

/// Escapes a string for inclusion in a JSON string literal.
pub fn json_escape(s: &str) -> (r: String)
    ensures
        r@ == json_escaped(s@),
{
    let chars = str_to_chars(s);
    let n = chars.len();
    let mut r = String::new();
    let mut i: usize = 0;
    while i < n
        invariant
            i <= n,
            n == s@.len(),
            chars@ == s@,
            r@ =~= json_escaped(s@.subrange(0, i as int)),
        decreases n - i,
    {
        let c = chars[i];
        proof {
            assert(s@.subrange(0, i + 1).drop_last() =~= s@.subrange(0, i as int));
            assert(s@.subrange(0, i + 1).last() == s@[i as int]);
        }
        let u = c as u32;
        if c == '"' {
            r.append("\\\"");
            proof {
                reveal_strlit("\\\"");
                assert("\\\""@ =~= json_escaped_char(c));
            }
        } else if c == '\\' {
            r.append("\\\\");
            proof {
                reveal_strlit("\\\\");
                assert("\\\\"@ =~= json_escaped_char(c));
            }
        } else if c == '\n' {
            r.append("\\n");
            proof {
                reveal_strlit("\\n");
                assert("\\n"@ =~= json_escaped_char(c));
            }
        } else if c == '\r' {
            r.append("\\r");
            proof {
                reveal_strlit("\\r");
                assert("\\r"@ =~= json_escaped_char(c));
            }
        } else if c == '\t' {
            r.append("\\t");
            proof {
                reveal_strlit("\\t");
                assert("\\t"@ =~= json_escaped_char(c));
            }
        } else if u == 8 {
            r.append("\\b");
            proof {
                reveal_strlit("\\b");
                assert("\\b"@ =~= json_escaped_char(c));
            }
        } else if u == 12 {
            r.append("\\f");
            proof {
                reveal_strlit("\\f");
                assert("\\f"@ =~= json_escaped_char(c));
            }
        } else if u < 32 {
            r.append("\\u00");
            r.append(hex_str(u / 16));
            r.append(hex_str(u % 16));
            proof {
                reveal_strlit("\\u00");
                assert("\\u00"@ + seq![hex_char((u / 16) as nat)] + seq![hex_char((u % 16) as nat)]
                    =~= json_escaped_char(c));
            }
        } else {
            r.append(s.substring_char(i, i + 1));
            proof {
                assert(s@.subrange(i as int, i + 1) =~= seq![s@[i as int]]);
                assert(seq![s@[i as int]] =~= json_escaped_char(c));
            }
        }
        proof {
            assert(r@ =~= json_escaped(s@.subrange(0, i + 1)));
        }
        i = i + 1;
    }
    proof {
        assert(s@.subrange(0, n as int) =~= s@);
    }
    r
}

/// The JSON body of one streamed completion chunk, as the event stream
/// carries it: identifier, fixed object tag, creation time, model name and
/// a single choice whose delta holds the assistant role on the first chunk
/// and whose finish reason appears only on the terminal chunk.
pub open spec fn spec_chunk_json(
    id: Seq<char>,
    created: int,
    model: Seq<char>,
    role_assistant: bool,
    content: Option<Seq<char>>,
    finish_stop: bool,
) -> Seq<char> {
    "{\"id\":\""@ + json_escaped(id) + "\",\"object\":\"chat.completion.chunk\",\"created\":"@
        + dec_rep_signed(created) + ",\"model\":\""@ + json_escaped(model)
        + "\",\"choices\":[{\"index\":0,\"delta\":{\"role\":"@ + (if role_assistant {
        "\"assistant\""@
    } else {
        "null"@
    }) + ",\"content\":"@ + (match content {
        Some(c) => seq!['"'] + json_escaped(c) + seq!['"'],
        None => "null"@,
    }) + "},\"finish_reason\":"@ + (if finish_stop {
        "\"stop\""@
    } else {
        "null"@
    }) + "}]}"@
}

/// Serialises one streamed completion chunk.
pub fn chunk_json(
    id: &str,
    created: i64,
    model: &str,
    role_assistant: bool,
    content: Option<&str>,
    finish_stop: bool,
) -> (r: String)
    ensures
        r@ == spec_chunk_json(
            id@,
            created as int,
            model@,
            role_assistant,
            match content {
                Some(c) => Some(c@),
                None => None,
            },
            finish_stop,
        ),
{
    let mut r = "{\"id\":\"".to_owned();
    r.append(json_escape(id).as_str());
    r.append("\",\"object\":\"chat.completion.chunk\",\"created\":");
    r.append(i64_to_string(created).as_str());
    r.append(",\"model\":\"");
    r.append(json_escape(model).as_str());
    r.append("\",\"choices\":[{\"index\":0,\"delta\":{\"role\":");
    if role_assistant {
        r.append("\"assistant\"");
    } else {
        r.append("null");
    }
    r.append(",\"content\":");
    match content {
        Option::Some(c) => {
            r.append("\"");
            r.append(json_escape(c).as_str());
            r.append("\"");
            proof {
                reveal_strlit("\"");
            }
        },
        Option::None => {
            r.append("null");
        },
    }
    r.append("},\"finish_reason\":");
    if finish_stop {
        r.append("\"stop\"");
    } else {
        r.append("null");
    }
    r.append("}]}");
    proof {
        assert(r@ =~= spec_chunk_json(
            id@,
            created as int,
            model@,
            role_assistant,
            match content {
                Some(c) => Some(c@),
                None => None,
            },
            finish_stop,
        ));
    }
    r
}

/// Frames one event body for the server-sent-events wire.
pub fn sse_event(data: &str) -> (r: String)
    ensures
        r@ == "data: "@ + data@ + "\n\n"@,
{
    let mut r = "data: ".to_owned();
    r.append(data);
    r.append("\n\n");
    r
}

/// The complete wire event for one content chunk at the given progress
/// point: the assistant role rides on the first delivered chunk only.
pub fn stream_chunk_event(
    id: &str,
    created: i64,
    model: &str,
    progress: &StreamProgress,
    content: &str,
) -> (r: String)
    ensures
        r@ == "data: "@ + spec_chunk_json(
            id@,
            created as int,
            model@,
            progress.delivered == 0,
            Some(content@),
            false,
        ) + "\n\n"@,
{
    let body = chunk_json(id, created, model, progress.next_is_first(), Some(content), false);
    sse_event(body.as_str())
}

/// The terminal wire event: no content, the stop finish reason.
pub fn stream_final_event(id: &str, created: i64, model: &str) -> (r: String)
    ensures
        r@ == "data: "@ + spec_chunk_json(id@, created as int, model@, false, None, true)
            + "\n\n"@,
{
    let body = chunk_json(id, created, model, false, None, true);
    sse_event(body.as_str())
}

} // verus!
