//! The request adapters: from a unified prompt to the exact JSON body each
//! provider family expects, together with default-model resolution and the
//! forced non-streaming override.

use vstd::prelude::*;
use vstd::string::StringExecFns;
use crate::json_write::{
    bool_seq, bool_string, dec_seq, dec_string, jstr, jstr_string, temp_seq, temp_string,
};
use crate::model::{Api, ApiConfig, ApiError, ConfigError, Message, Prompt, msg_view, msgs_view};

verus! {

/// The view of an optional string.
pub open spec fn opt_str_view(o: Option<String>) -> Option<Seq<char>> {
    match o {
        Option::Some(s) => Option::Some(s@),
        Option::None => Option::None,
    }
}

/// The model a prompt is dispatched with: the prompt's own, or, failing
/// that, the provider's configured default.
pub open spec fn resolved_model(p: Prompt, c: ApiConfig) -> Option<Seq<char>> {
    match p.model {
        Option::Some(m) => Option::Some(m@),
        Option::None => opt_str_view(c.default_model),
    }
}

/// Two message sequences with equal views have equal length, and taking
/// the last message off both leaves equal views again.
pub proof fn lemma_msgs_view_drop_last(a: Seq<Message>, b: Seq<Message>)
    requires
        msgs_view(a) == msgs_view(b),
        a.len() > 0,
    ensures
        a.len() == b.len(),
        msgs_view(a.drop_last()) == msgs_view(b.drop_last()),
        msg_view(a.last()) == msg_view(b.last()),
{
    assert(msgs_view(a).len() == a.len());
    assert(msgs_view(b).len() == b.len());
    assert forall|i: int| 0 <= i < a.len() - 1 implies msgs_view(a.drop_last())[i] == msgs_view(
        b.drop_last(),
    )[i] by {
        assert(msgs_view(a)[i] == msg_view(a[i]));
        assert(msgs_view(b)[i] == msg_view(b[i]));
        assert(msgs_view(a.drop_last())[i] == msg_view(a.drop_last()[i]));
        assert(msgs_view(b.drop_last())[i] == msg_view(b.drop_last()[i]));
    }
    assert(msgs_view(a.drop_last()) =~= msgs_view(b.drop_last()));
    assert(msgs_view(a)[a.len() - 1] == msg_view(a[a.len() - 1]));
    assert(msgs_view(b)[b.len() - 1] == msg_view(b[b.len() - 1]));
}

/// A structurally equal copy of a message vector.
pub fn copy_messages(ms: &Vec<Message>) -> (r: Vec<Message>)
    ensures
        msgs_view(r@) == msgs_view(ms@),
{
    let mut r: Vec<Message> = Vec::new();
    let mut i: usize = 0;
    while i < ms.len()
        invariant
            i <= ms@.len(),
            msgs_view(r@) == msgs_view(ms@.subrange(0, i as int)),
        decreases ms@.len() - i,
    {
        r.push(ms[i].duplicate());
        proof {
            assert(msgs_view(ms@.subrange(0, i + 1)) =~= msgs_view(
                ms@.subrange(0, i as int),
            ).push(msg_view(ms@[i as int])));
            assert(msgs_view(r@) =~= msgs_view(ms@.subrange(0, i + 1)));
        }
        i = i + 1;
    }
    proof {
        assert(ms@.subrange(0, ms@.len() as int) =~= ms@);
    }
    r
}

/// The request-local working copy taken before dispatch: the caller's
/// prompt is never mutated. The model is resolved from the prompt or the
/// provider default, and streaming is unconditionally switched off.
pub fn resolve_prompt(p: &Prompt, c: &ApiConfig) -> (r: Prompt)
    ensures
        r.api == p.api,
        msgs_view(r.messages@) == msgs_view(p.messages@),
        r.temperature_centi == p.temperature_centi,
        r.stream == Some(false),
        opt_str_view(r.model) == resolved_model(*p, *c),
{
    let model: Option<String> = match &p.model {
        Some(m) => Some(m.clone()),
        None => match &c.default_model {
            Some(d) => Some(d.clone()),
            None => None,
        },
    };
    Prompt {
        api: p.api,
        model,
        messages: copy_messages(&p.messages),
        temperature_centi: p.temperature_centi,
        stream: Some(false),
    }
}

// ---------------------------------------------------------------------
// The JSON layouts, stated character for character.
// ---------------------------------------------------------------------

/// One message object on the wire: `{"role":...,"content":...}`.
pub open spec fn msg_json(m: (Seq<char>, Seq<char>)) -> Seq<char> {
    "{\"role\":"@ + jstr(m.0) + ",\"content\":"@ + jstr(m.1) + "}"@
}

/// A comma-separated run of message objects, in order.
pub open spec fn msgs_json(ms: Seq<(Seq<char>, Seq<char>)>) -> Seq<char>
    decreases ms.len(),
{
    if ms.len() == 0 {
        Seq::empty()
    } else if ms.len() == 1 {
        msg_json(ms[0])
    } else {
        msgs_json(ms.drop_last()) + ","@ + msg_json(ms.last())
    }
}

/// A comma-separated run of JSON string literals, in order.
pub open spec fn strs_json(ss: Seq<Seq<char>>) -> Seq<char>
    decreases ss.len(),
{
    if ss.len() == 0 {
        Seq::empty()
    } else if ss.len() == 1 {
        jstr(ss[0])
    } else {
        strs_json(ss.drop_last()) + ","@ + jstr(ss.last())
    }
}

/// The `"temperature"` member, present only when a temperature is set.
pub open spec fn opt_temp_json(t: Option<u32>) -> Seq<char> {
    match t {
        Option::Some(c) => ",\"temperature\":"@ + temp_seq(c as nat),
        Option::None => Seq::empty(),
    }
}

/// The `"stream"` member, present only when the flag is set.
pub open spec fn opt_stream_json(st: Option<bool>) -> Seq<char> {
    match st {
        Option::Some(b) => ",\"stream\":"@ + bool_seq(b),
        Option::None => Seq::empty(),
    }
}

/// The OpenAI-compatible chat body.
pub open spec fn openai_json(
    model: Seq<char>,
    ms: Seq<(Seq<char>, Seq<char>)>,
    t: Option<u32>,
    st: Option<bool>,
) -> Seq<char> {
    "{\"model\":"@ + jstr(model) + ",\"messages\":["@ + msgs_json(ms) + "]"@ + opt_temp_json(t)
        + opt_stream_json(st) + "}"@
}

/// The Anthropic Messages body: the chat layout plus `max_tokens`.
pub open spec fn anthropic_json(
    model: Seq<char>,
    ms: Seq<(Seq<char>, Seq<char>)>,
    t: Option<u32>,
    max_tokens: nat,
    st: Option<bool>,
) -> Seq<char> {
    "{\"model\":"@ + jstr(model) + ",\"messages\":["@ + msgs_json(ms) + "]"@ + opt_temp_json(t)
        + ",\"max_tokens\":"@ + dec_seq(max_tokens) + opt_stream_json(st) + "}"@
}

/// The DeepL translation body.
pub open spec fn deepl_json(
    target_lang: Seq<char>,
    preserve_formatting: bool,
    context: Seq<char>,
    text: Seq<Seq<char>>,
) -> Seq<char> {
    "{\"target_lang\":"@ + jstr(target_lang) + ",\"preserve_formatting\":"@ + bool_seq(
        preserve_formatting,
    ) + ",\"context\":"@ + jstr(context) + ",\"text\":["@ + strs_json(text) + "]}"@
}

proof fn lemma_msgs_json_step(vs: Seq<(Seq<char>, Seq<char>)>, i: int)
    requires
        0 <= i < vs.len(),
    ensures
        msgs_json(vs.subrange(0, i + 1)) == if i == 0 {
            msg_json(vs[0])
        } else {
            msgs_json(vs.subrange(0, i)) + ","@ + msg_json(vs[i])
        },
{
    let s = vs.subrange(0, i + 1);
    assert(s.drop_last() =~= vs.subrange(0, i));
    assert(s.last() == vs[i]);
    if i == 0 {
        assert(s[0] == vs[0]);
    }
}

/// Builds the wire form of one message.
pub fn msg_json_string(m: &Message) -> (r: String)
    ensures
        r@ == msg_json(msg_view(*m)),
{
    let mut r = String::from_str("{\"role\":");
    r.append(jstr_string(m.role.as_str()).as_str());
    r.append(",\"content\":");
    r.append(jstr_string(m.content.as_str()).as_str());
    r.append("}");
    r
}

fn append_messages_json(r: &mut String, ms: &Vec<Message>)
    ensures
        final(r)@ == old(r)@ + msgs_json(msgs_view(ms@)),
{
    let ghost vs = msgs_view(ms@);
    let ghost r0 = r@;
    let mut i: usize = 0;
    while i < ms.len()
        invariant
            i <= ms@.len(),
            vs == msgs_view(ms@),
            r0 == old(r)@,
            r@ == r0 + msgs_json(vs.subrange(0, i as int)),
        decreases ms@.len() - i,
    {
        if i > 0 {
            r.append(",");
        }
        r.append(msg_json_string(&ms[i]).as_str());
        proof {
            assert(vs[i as int] == msg_view(ms@[i as int]));
            lemma_msgs_json_step(vs, i as int);
        }
        i = i + 1;
    }
    proof {
        assert(vs.subrange(0, vs.len() as int) =~= vs);
    }
}

fn append_opt_temp_json(r: &mut String, t: Option<u32>)
    ensures
        final(r)@ == old(r)@ + opt_temp_json(t),
{
    match t {
        Some(c) => {
            r.append(",\"temperature\":");
            r.append(temp_string(c).as_str());
        },
        None => {},
    }
}

fn append_opt_stream_json(r: &mut String, st: Option<bool>)
    ensures
        final(r)@ == old(r)@ + opt_stream_json(st),
{
    match st {
        Some(b) => {
            r.append(",\"stream\":");
            r.append(bool_string(b).as_str());
        },
        None => {},
    }
}

// ---------------------------------------------------------------------
// OpenAI-compatible adapter
// ---------------------------------------------------------------------

/// The OpenAI-compatible chat request payload.
pub struct OpenAiPrompt {
    pub model: String,
    pub messages: Vec<Message>,
    pub temperature_centi: Option<u32>,
    pub stream: Option<bool>,
}

/// What building an OpenAI-compatible payload from a prompt yields: the
/// resolved model, the messages unchanged and in order, the temperature and
/// stream flag as given; or the configuration error owed when the prompt
/// carries no messages or names no model.
pub open spec fn openai_build_outcome(p: Prompt) -> Result<
    (Seq<char>, Seq<(Seq<char>, Seq<char>)>, Option<u32>, Option<bool>),
    ApiError,
> {
    if p.messages@.len() == 0 {
        Err(ApiError::Configuration(ConfigError::EmptyMessages))
    } else {
        match p.model {
            Option::Some(m) => Ok((m@, msgs_view(p.messages@), p.temperature_centi, p.stream)),
            Option::None => Err(ApiError::Configuration(ConfigError::MissingModel)),
        }
    }
}

impl OpenAiPrompt {
    /// Builds the payload. The messages of the output equal the messages of
    /// the input, element for element, in order.
    pub fn build(p: &Prompt) -> (r: Result<OpenAiPrompt, ApiError>)
        ensures
            match (r, openai_build_outcome(*p)) {
                (Ok(q), Ok(t)) => q.model@ == t.0 && msgs_view(q.messages@) == t.1
                    && q.temperature_centi == t.2 && q.stream == t.3,
                (Err(e), Err(f)) => e == f,
                _ => false,
            },
    {
        if p.messages.len() == 0 {
            return Err(ApiError::Configuration(ConfigError::EmptyMessages));
        }
        match &p.model {
            Some(m) => Ok(
                OpenAiPrompt {
                    model: m.clone(),
                    messages: copy_messages(&p.messages),
                    temperature_centi: p.temperature_centi,
                    stream: p.stream,
                },
            ),
            None => Err(ApiError::Configuration(ConfigError::MissingModel)),
        }
    }

    /// Serializes the payload to its exact wire body.
    pub fn to_json(&self) -> (r: String)
        ensures
            r@ == openai_json(
                self.model@,
                msgs_view(self.messages@),
                self.temperature_centi,
                self.stream,
            ),
    {
        let mut r = String::from_str("{\"model\":");
        r.append(jstr_string(self.model.as_str()).as_str());
        r.append(",\"messages\":[");
        append_messages_json(&mut r, &self.messages);
        r.append("]");
        append_opt_temp_json(&mut r, self.temperature_centi);
        append_opt_stream_json(&mut r, self.stream);
        r.append("}");
        r
    }
}

// ---------------------------------------------------------------------
// Anthropic adapter
// ---------------------------------------------------------------------

/// A message after the Anthropic rename pass: role "system" becomes
/// "user"; everything else is untouched.
pub open spec fn rename_system(m: (Seq<char>, Seq<char>)) -> (Seq<char>, Seq<char>) {
    if m.0 == "system"@ {
        ("user"@, m.1)
    } else {
        m
    }
}

/// The Anthropic merge pass: after renaming, each strictly consecutive run
/// of equal roles collapses into one message whose contents are joined by
/// a blank line; non-adjacent equal roles stay apart.
pub open spec fn merge_consecutive(s: Seq<(Seq<char>, Seq<char>)>) -> Seq<(Seq<char>, Seq<char>)>
    decreases s.len(),
{
    if s.len() == 0 {
        Seq::empty()
    } else {
        let prev = merge_consecutive(s.drop_last());
        let m = rename_system(s.last());
        if prev.len() > 0 && prev.last().0 == m.0 {
            prev.update(prev.len() - 1, (m.0, prev.last().1 + "\n\n"@ + m.1))
        } else {
            prev.push(m)
        }
    }
}

/// The default `max_tokens` of every Anthropic request; not configurable.
pub const ANTHROPIC_MAX_TOKENS: u32 = 4096;

/// The Anthropic Messages request payload.
pub struct AnthropicPrompt {
    pub model: String,
    pub messages: Vec<Message>,
    pub temperature_centi: Option<u32>,
    pub max_tokens: u32,
    pub stream: Option<bool>,
}

/// What building an Anthropic payload yields: the resolved model and the
/// merged messages, or the owed configuration error.
pub open spec fn anthropic_build_outcome(p: Prompt) -> Result<
    (Seq<char>, Seq<(Seq<char>, Seq<char>)>, Option<u32>, Option<bool>),
    ApiError,
> {
    if p.messages@.len() == 0 {
        Err(ApiError::Configuration(ConfigError::EmptyMessages))
    } else {
        match p.model {
            Option::Some(m) => Ok(
                (m@, merge_consecutive(msgs_view(p.messages@)), p.temperature_centi, p.stream),
            ),
            Option::None => Err(ApiError::Configuration(ConfigError::MissingModel)),
        }
    }
}

impl AnthropicPrompt {
    /// Builds the payload, running the system-rename and the
    /// consecutive-role merge; `max_tokens` is fixed at 4096.
    pub fn build(p: &Prompt) -> (r: Result<AnthropicPrompt, ApiError>)
        ensures
            match (r, anthropic_build_outcome(*p)) {
                (Ok(q), Ok(t)) => q.model@ == t.0 && msgs_view(q.messages@) == t.1
                    && q.temperature_centi == t.2 && q.stream == t.3 && q.max_tokens
                    == ANTHROPIC_MAX_TOKENS,
                (Err(e), Err(f)) => e == f,
                _ => false,
            },
    {
        if p.messages.len() == 0 {
            return Err(ApiError::Configuration(ConfigError::EmptyMessages));
        }
        let model: String = match &p.model {
            Some(m) => m.clone(),
            None => {
                return Err(ApiError::Configuration(ConfigError::MissingModel));
            },
        };
        let ghost vs = msgs_view(p.messages@);
        let sys = String::from_str("system");
        let mut acc: Vec<Message> = Vec::new();
        let mut i: usize = 0;
        while i < p.messages.len()
            invariant
                i <= p.messages@.len(),
                vs == msgs_view(p.messages@),
                sys@ == "system"@,
                msgs_view(acc@) == merge_consecutive(vs.subrange(0, i as int)),
            decreases p.messages@.len() - i,
        {
            let m = &p.messages[i];
            let renamed: Message = if m.role == sys {
                Message { role: String::from_str("user"), content: m.content.clone() }
            } else {
                m.duplicate()
            };
            proof {
                assert(vs[i as int] == msg_view(p.messages@[i as int]));
                assert(msg_view(renamed) == rename_system(vs[i as int]));
                assert(vs.subrange(0, i + 1).drop_last() =~= vs.subrange(0, i as int));
                assert(vs.subrange(0, i + 1).last() == vs[i as int]);
            }
            let ghost prev = msgs_view(acc@);
            if acc.len() > 0 && acc[acc.len() - 1].role == renamed.role {
                let mut last = acc.pop().unwrap();
                last.content.append("\n\n");
                last.content.append(renamed.content.as_str());
                acc.push(last);
                proof {
                    assert(msgs_view(acc@) =~= prev.update(
                        prev.len() - 1,
                        (rename_system(vs[i as int]).0, prev.last().1 + "\n\n"@ + rename_system(
                            vs[i as int],
                        ).1),
                    ));
                }
            } else {
                acc.push(renamed);
                proof {
                    assert(msgs_view(acc@) =~= prev.push(rename_system(vs[i as int])));
                }
            }
            i = i + 1;
        }
        proof {
            assert(vs.subrange(0, vs.len() as int) =~= vs);
        }
        Ok(
            AnthropicPrompt {
                model,
                messages: acc,
                temperature_centi: p.temperature_centi,
                max_tokens: ANTHROPIC_MAX_TOKENS,
                stream: p.stream,
            },
        )
    }

    /// Serializes the payload to its exact wire body.
    pub fn to_json(&self) -> (r: String)
        ensures
            r@ == anthropic_json(
                self.model@,
                msgs_view(self.messages@),
                self.temperature_centi,
                self.max_tokens as nat,
                self.stream,
            ),
    {
        let mut r = String::from_str("{\"model\":");
        r.append(jstr_string(self.model.as_str()).as_str());
        r.append(",\"messages\":[");
        append_messages_json(&mut r, &self.messages);
        r.append("]");
        append_opt_temp_json(&mut r, self.temperature_centi);
        r.append(",\"max_tokens\":");
        r.append(dec_string(self.max_tokens).as_str());
        append_opt_stream_json(&mut r, self.stream);
        r.append("}");
        r
    }
}

// ---------------------------------------------------------------------
// DeepL adapter
// ---------------------------------------------------------------------

/// The contents of a run of messages joined by single newlines, in order,
/// with the roles discarded.
pub open spec fn join_contents(ms: Seq<(Seq<char>, Seq<char>)>) -> Seq<char>
    decreases ms.len(),
{
    if ms.len() == 0 {
        Seq::empty()
    } else if ms.len() == 1 {
        ms[0].1
    } else {
        join_contents(ms.drop_last()) + "\n"@ + ms.last().1
    }
}

proof fn lemma_join_step(vs: Seq<(Seq<char>, Seq<char>)>, i: int)
    requires
        0 <= i < vs.len(),
    ensures
        join_contents(vs.subrange(0, i + 1)) == if i == 0 {
            vs[0].1
        } else {
            join_contents(vs.subrange(0, i)) + "\n"@ + vs[i].1
        },
{
    let s = vs.subrange(0, i + 1);
    assert(s.drop_last() =~= vs.subrange(0, i));
    assert(s.last() == vs[i]);
    if i == 0 {
        assert(s[0] == vs[0]);
    }
}

/// The DeepL translation request payload.
pub struct DeeplPrompt {
    pub target_lang: String,
    pub preserve_formatting: bool,
    pub context: String,
    pub text: Vec<String>,
}

/// The views of a vector of strings.
pub open spec fn strs_view(ss: Seq<String>) -> Seq<Seq<char>> {
    ss.map_values(|s: String| s@)
}

/// What building a DeepL payload yields: the target language (carried in
/// the model field), the joined context, and the last message's content as
/// the text to translate; or the owed configuration error.
pub open spec fn deepl_build_outcome(p: Prompt) -> Result<(Seq<char>, Seq<char>, Seq<char>), ApiError> {
    if p.messages@.len() == 0 {
        Err(ApiError::Configuration(ConfigError::EmptyMessages))
    } else {
        match p.model {
            Option::Some(m) => Ok(
                (
                    m@,
                    join_contents(msgs_view(p.messages@.drop_last())),
                    p.messages@.last().content@,
                ),
            ),
            Option::None => Err(ApiError::Configuration(ConfigError::MissingTargetLang)),
        }
    }
}

impl DeeplPrompt {
    /// Builds the payload: the last message is the text to translate, every
    /// earlier message's content joins the context, and formatting is
    /// always preserved.
    pub fn build(p: &Prompt) -> (r: Result<DeeplPrompt, ApiError>)
        ensures
            match (r, deepl_build_outcome(*p)) {
                (Ok(q), Ok(t)) => q.target_lang@ == t.0 && q.context@ == t.1 && strs_view(q.text@)
                    =~= seq![t.2] && q.preserve_formatting,
                (Err(e), Err(f)) => e == f,
                _ => false,
            },
    {
        if p.messages.len() == 0 {
            return Err(ApiError::Configuration(ConfigError::EmptyMessages));
        }
        let target_lang: String = match &p.model {
            Some(m) => m.clone(),
            None => {
                return Err(ApiError::Configuration(ConfigError::MissingTargetLang));
            },
        };
        let ghost vs = msgs_view(p.messages@);
        let n = p.messages.len() - 1;
        let mut context = String::new();
        let mut i: usize = 0;
        while i < n
            invariant
                n == p.messages@.len() - 1,
                i <= n,
                vs == msgs_view(p.messages@),
                context@ == join_contents(vs.subrange(0, i as int)),
            decreases n - i,
        {
            if i > 0 {
                context.append("\n");
            }
            context.append(p.messages[i].content.as_str());
            proof {
                assert(vs[i as int] == msg_view(p.messages@[i as int]));
                lemma_join_step(vs, i as int);
            }
            i = i + 1;
        }
        proof {
            assert(vs.subrange(0, n as int) =~= msgs_view(p.messages@.drop_last()));
        }
        let text: Vec<String> = vec![p.messages[n].content.clone()];
        Ok(DeeplPrompt { target_lang, preserve_formatting: true, context, text })
    }

    /// Serializes the payload to its exact wire body.
    pub fn to_json(&self) -> (r: String)
        ensures
            r@ == deepl_json(
                self.target_lang@,
                self.preserve_formatting,
                self.context@,
                strs_view(self.text@),
            ),
    {
        let mut r = String::from_str("{\"target_lang\":");
        r.append(jstr_string(self.target_lang.as_str()).as_str());
        r.append(",\"preserve_formatting\":");
        r.append(bool_string(self.preserve_formatting).as_str());
        r.append(",\"context\":");
        r.append(jstr_string(self.context.as_str()).as_str());
        r.append(",\"text\":[");
        append_strs_json(&mut r, &self.text);
        r.append("]}");
        r
    }
}

proof fn lemma_strs_json_step(ts: Seq<Seq<char>>, i: int)
    requires
        0 <= i < ts.len(),
    ensures
        strs_json(ts.subrange(0, i + 1)) == if i == 0 {
            jstr(ts[0])
        } else {
            strs_json(ts.subrange(0, i)) + ","@ + jstr(ts[i])
        },
{
    let s = ts.subrange(0, i + 1);
    assert(s.drop_last() =~= ts.subrange(0, i));
    assert(s.last() == ts[i]);
    if i == 0 {
        assert(s[0] == ts[0]);
    }
}

fn append_strs_json(r: &mut String, ss: &Vec<String>)
    ensures
        final(r)@ == old(r)@ + strs_json(strs_view(ss@)),
{
    let ghost ts = strs_view(ss@);
    let ghost r0 = r@;
    let mut i: usize = 0;
    while i < ss.len()
        invariant
            i <= ss@.len(),
            ts == strs_view(ss@),
            r0 == old(r)@,
            r@ == r0 + strs_json(ts.subrange(0, i as int)),
        decreases ss@.len() - i,
    {
        if i > 0 {
            r.append(",");
        }
        r.append(jstr_string(ss[i].as_str()).as_str());
        proof {
            assert(ts[i as int] == ss@[i as int]@);
            lemma_strs_json_step(ts, i as int);
        }
        i = i + 1;
    }
    proof {
        assert(ts.subrange(0, ts.len() as int) =~= ts);
    }
}

} // verus!
