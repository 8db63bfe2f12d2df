//! The inference engines' own logic: how a MAGI unit frames its prompts,
//! the answers of the native engines, the prompts that llama.cpp and
//! OpenAI-compatible servers are given, and the reading of their token
//! streams. The HTTP calls are made by the caller.
use vstd::prelude::*;
use crate::domain::{InferenceMedia, InferenceRequest, InferenceResponse};
use crate::json::{json_delta_content, json_stream_piece, read_delta_content, read_stream_piece};
use crate::lines::{lines, lines_of};
use crate::resources::EngineBackend;
use crate::text::{
    chars_of, concat2, concat3, dec, push_str, starts_with, starts_with_chars, str_eq,
    string_of_range, trim, trim_str, u64_to_dec, utf8_len, utf8_len_str, views,
};

verus! {

// ---------------------------------------------------------------------
// MAGI units
// ---------------------------------------------------------------------

/// A MAGI unit: its name and its persona. Its engine is acquired from the
/// resource manager for each call.
#[derive(Debug, Clone)]
pub struct MagusUnitImpl {
    pub name: String,
    pub system_prompt: String,
}

impl MagusUnitImpl {
    /// The unit `name` with persona `system_prompt`.
    pub fn new(name: &str, system_prompt: &str) -> (u: Self)
        ensures
            u.name@ == name@,
            u.system_prompt@ == system_prompt@,
    {
        MagusUnitImpl { name: name.to_owned(), system_prompt: system_prompt.to_owned() }
    }

    /// The unit's name.
    pub fn name(&self) -> (n: &str)
        ensures
            n@ == self.name@,
    {
        self.name.as_str()
    }

    /// The prompt for a text generation: the persona, the user's prompt and
    /// the cue for the assistant.
    pub fn text_prompt(&self, prompt: &str) -> (p: String)
        ensures
            p@ == "System: "@ + self.system_prompt@ + "\nUser: "@ + prompt@ + "\nAssistant:"@,
    {
        let mut p = concat3("System: ", self.system_prompt.as_str(), "\nUser: ");
        push_str(&mut p, prompt);
        push_str(&mut p, "\nAssistant:");
        p
    }

    /// The prompt for a look at an image.
    pub fn vision_prompt(&self, prompt: &str, image_path: &str) -> (p: String)
        ensures
            p@ == vision_aware_text(prompt@, image_path@),
    {
        vision_aware_prompt(prompt, image_path)
    }

    /// The request as the unit hands it on: with the unit's persona as the
    /// system prompt when it has none.
    pub fn prepare_request(&self, request: InferenceRequest) -> (r: InferenceRequest)
        ensures
            r.inputs == request.inputs,
            r.max_tokens == request.max_tokens,
            r.system_prompt == match request.system_prompt {
                Some(s) => Some(s),
                None => Some(self.system_prompt),
            },
    {
        let mut r = request;
        if r.system_prompt.is_none() {
            r.system_prompt = Some(self.system_prompt.clone());
        }
        r
    }
}

/// The prompt that tells a text model an image was seen.
pub open spec fn vision_aware_text(prompt: Seq<char>, image_path: Seq<char>) -> Seq<char> {
    "[LOCAL VISION ANALYSIS]: Image '"@ + image_path + "' detected.\nUser: "@ + prompt + "\nAssistant:"@
}

/// The prompt that tells a text model the image at `image_path` was seen,
/// before the user's prompt.
pub fn vision_aware_prompt(prompt: &str, image_path: &str) -> (p: String)
    ensures
        p@ == vision_aware_text(prompt@, image_path@),
{
    let mut p = concat3("[LOCAL VISION ANALYSIS]: Image '", image_path, "' detected.\nUser: ");
    push_str(&mut p, prompt);
    push_str(&mut p, "\nAssistant:");
    p
}

// ---------------------------------------------------------------------
// Native engines
// ---------------------------------------------------------------------

/// The number of bytes of the text inputs of a request.
pub open spec fn text_bytes(inputs: Seq<InferenceMedia>) -> nat
    decreases inputs.len(),
{
    if inputs.len() == 0 {
        0
    } else {
        text_bytes(inputs.drop_last()) + match inputs.last() {
            InferenceMedia::Text(t) => utf8_len(t@),
            _ => 0,
        }
    }
}

/// The number of bytes of the text inputs of a request, `None` when it
/// does not fit in a `usize`.
pub fn text_bytes_of(request: &InferenceRequest) -> (r: Option<usize>)
    ensures
        match r {
            Some(n) => n == text_bytes(request.inputs@),
            None => text_bytes(request.inputs@) > usize::MAX,
        },
{
    let mut total: usize = 0;
    let mut i: usize = 0;
    while i < request.inputs.len()
        invariant
            i <= request.inputs@.len(),
            total == text_bytes(request.inputs@.take(i as int)),
        decreases request.inputs.len() - i,
    {
        proof {
            assert(request.inputs@.take(i + 1).drop_last() =~= request.inputs@.take(i as int));
        }
        match &request.inputs[i] {
            InferenceMedia::Text(t) => {
                let n = utf8_len_str(t.as_str());
                if n > (usize::MAX - total) as u128 {
                    proof {
                        lemma_text_bytes_prefix(request.inputs@, i + 1);
                    }
                    return None;
                }
                total = total + n as usize;
            },
            _ => {},
        }
        i += 1;
    }
    assert(request.inputs@.take(request.inputs@.len() as int) =~= request.inputs@);
    Some(total)
}

/// Whether a request holds an image.
pub open spec fn has_image(inputs: Seq<InferenceMedia>) -> bool {
    exists|i: int| 0 <= i < inputs.len() && #[trigger] inputs[i] is Image
}

/// Whether a request holds audio.
pub open spec fn has_audio(inputs: Seq<InferenceMedia>) -> bool {
    exists|i: int| 0 <= i < inputs.len() && #[trigger] inputs[i] is Audio
}

/// The reasoning engine.
#[derive(Debug, Clone)]
pub struct DeepSeekR2Engine {
    pub api_key: String,
    pub model_name: String,
}

impl DeepSeekR2Engine {
    /// The engine for `api_key`, on the model `deepseek-r2`.
    pub fn new(api_key: &str) -> (e: Self)
        ensures
            e.api_key@ == api_key@,
            e.model_name@ == "deepseek-r2"@,
    {
        DeepSeekR2Engine { api_key: api_key.to_owned(), model_name: "deepseek-r2".to_owned() }
    }

    /// The native backend.
    pub fn backend_type(&self) -> (b: EngineBackend)
        ensures
            b == EngineBackend::MagiNative,
    {
        EngineBackend::MagiNative
    }

    /// The placeholder output for `prompt`.
    pub fn generate(&self, prompt: &str) -> (s: String)
        ensures
            s@ == "[DeepSeek-R2 Placeholder] Output for: "@ + prompt@,
    {
        concat2("[DeepSeek-R2 Placeholder] Output for: ", prompt)
    }

    /// The fixed answer with its reasoning log, 100 tokens in and 200 out.
    pub fn process(&self, request: &InferenceRequest) -> (r: InferenceResponse)
        ensures
            r.content@ == "Based on the consensus, the proposed architecture is sound."@,
            r.reasoning_log matches Some(l) && l@
                == "I need to analyze the user request by considering the 6 MAGI units. First, I'll check Melchior's technical feasibility, then Balthasar's ethical constraints..."@,
            r.usage == (100usize, 200usize),
    {
        InferenceResponse {
            content: "Based on the consensus, the proposed architecture is sound.".to_owned(),
            reasoning_log: Some(
                "I need to analyze the user request by considering the 6 MAGI units. First, I'll check Melchior's technical feasibility, then Balthasar's ethical constraints...".to_owned(),
            ),
            usage: (100, 200),
        }
    }
}

/// The long-context engine.
#[derive(Debug, Clone, Copy)]
pub struct Llama4ScoutEngine {
    pub vram_optimization: bool,
}

impl Llama4ScoutEngine {
    /// The engine, with VRAM optimisation on.
    pub fn new() -> (e: Self)
        ensures
            e.vram_optimization,
    {
        Llama4ScoutEngine { vram_optimization: true }
    }

    /// The native backend.
    pub fn backend_type(&self) -> (b: EngineBackend)
        ensures
            b == EngineBackend::MagiNative,
    {
        EngineBackend::MagiNative
    }

    /// The acknowledgement of a prompt, with its size in bytes.
    pub fn generate(&self, prompt: &str) -> (s: String)
        requires
            utf8_len(prompt@) <= usize::MAX,
        ensures
            s@ == "[Llama 4 Scout] Processing "@ + dec(utf8_len(prompt@)) + " tokens..."@,
    {
        let n = utf8_len_str(prompt);
        proof {
            crate::text::lemma_utf8_len_bound(prompt@);
        }
        let d = u64_to_dec(n as u64);
        concat3("[Llama 4 Scout] Processing ", d.as_str(), " tokens...")
    }

    /// The size of the request's text, with a quarter of it as the tokens
    /// in and 50 out.
    pub fn process(&self, request: &InferenceRequest) -> (r: InferenceResponse)
        requires
            text_bytes(request.inputs@) <= usize::MAX,
        ensures
            r.content@ == "Analyzed a context of "@ + dec(text_bytes(request.inputs@))
                + " characters across 10M token window."@,
            r.reasoning_log is None,
            r.usage == ((text_bytes(request.inputs@) / 4) as usize, 50usize),
    {
        let mut total: usize = 0;
        let mut i: usize = 0;
        while i < request.inputs.len()
            invariant
                i <= request.inputs@.len(),
                total == text_bytes(request.inputs@.take(i as int)),
                text_bytes(request.inputs@) <= usize::MAX,
            decreases request.inputs.len() - i,
        {
            proof {
                assert(request.inputs@.take(i + 1).drop_last() =~= request.inputs@.take(i as int));
                lemma_text_bytes_prefix(request.inputs@, i + 1);
            }
            match &request.inputs[i] {
                InferenceMedia::Text(t) => {
                    let n = utf8_len_str(t.as_str());
                    total = total + n as usize;
                },
                _ => {},
            }
            i += 1;
        }
        assert(request.inputs@.take(request.inputs@.len() as int) =~= request.inputs@);
        let d = u64_to_dec(total as u64);
        InferenceResponse {
            content: concat3(
                "Analyzed a context of ",
                d.as_str(),
                " characters across 10M token window.",
            ),
            reasoning_log: None,
            usage: (total / 4, 50),
        }
    }
}

impl Default for Llama4ScoutEngine {
    fn default() -> (e: Self)
        ensures
            e.vram_optimization,
    {
        Llama4ScoutEngine::new()
    }
}

proof fn lemma_text_bytes_prefix(s: Seq<InferenceMedia>, k: int)
    requires
        0 <= k <= s.len(),
    ensures
        text_bytes(s.take(k)) <= text_bytes(s),
    decreases s.len() - k,
{
    if k < s.len() {
        lemma_text_bytes_prefix(s, k + 1);
        assert(s.take(k + 1).drop_last() =~= s.take(k));
    } else {
        assert(s.take(k) =~= s);
    }
}

/// The multimodal engine.
#[derive(Debug, Clone, Copy)]
pub struct Gemma4Engine {
    pub npu_accelerated: bool,
}

/// What the multimodal engine answers for a request with or without
/// images and audio.
pub open spec fn gemma_answer(image: bool, audio: bool) -> Seq<char> {
    if image && audio {
        "I have analyzed both the image and the audio input natively."@
    } else if image {
        "I have processed the visual data."@
    } else if audio {
        "I have processed the acoustic signal."@
    } else {
        "Processing text input..."@
    }
}

impl Gemma4Engine {
    /// The engine, NPU-accelerated.
    pub fn new() -> (e: Self)
        ensures
            e.npu_accelerated,
    {
        Gemma4Engine { npu_accelerated: true }
    }

    /// The native backend.
    pub fn backend_type(&self) -> (b: EngineBackend)
        ensures
            b == EngineBackend::MagiNative,
    {
        EngineBackend::MagiNative
    }

    /// The prompt, echoed.
    pub fn generate(&self, prompt: &str) -> (s: String)
        ensures
            s@ == "[Gemma 4] Direct text: "@ + prompt@,
    {
        concat2("[Gemma 4] Direct text: ", prompt)
    }

    /// Says which kinds of input the request holds; 256 tokens in and 128
    /// out.
    pub fn process(&self, request: &InferenceRequest) -> (r: InferenceResponse)
        ensures
            r.content@ == gemma_answer(has_image(request.inputs@), has_audio(request.inputs@)),
            r.reasoning_log is None,
            r.usage == (256usize, 128usize),
    {
        let mut image = false;
        let mut audio = false;
        let mut i: usize = 0;
        while i < request.inputs.len()
            invariant
                i <= request.inputs@.len(),
                image == exists|k: int| 0 <= k < i && #[trigger] request.inputs@[k] is Image,
                audio == exists|k: int| 0 <= k < i && #[trigger] request.inputs@[k] is Audio,
            decreases request.inputs.len() - i,
        {
            match &request.inputs[i] {
                InferenceMedia::Image { .. } => {
                    image = true;
                },
                InferenceMedia::Audio { .. } => {
                    audio = true;
                },
                _ => {},
            }
            i += 1;
        }
        let text = if image && audio {
            "I have analyzed both the image and the audio input natively."
        } else if image {
            "I have processed the visual data."
        } else if audio {
            "I have processed the acoustic signal."
        } else {
            "Processing text input..."
        };
        InferenceResponse { content: text.to_owned(), reasoning_log: None, usage: (256, 128) }
    }
}

impl Default for Gemma4Engine {
    fn default() -> (e: Self)
        ensures
            e.npu_accelerated,
    {
        Gemma4Engine::new()
    }
}

// ---------------------------------------------------------------------
// Prompts for servers
// ---------------------------------------------------------------------

/// The `User: ` lines of the text inputs.
pub open spec fn user_lines(inputs: Seq<InferenceMedia>) -> Seq<char>
    decreases inputs.len(),
{
    if inputs.len() == 0 {
        seq![]
    } else {
        user_lines(inputs.drop_last()) + match inputs.last() {
            InferenceMedia::Text(t) => "User: "@ + t@ + "\n"@,
            _ => seq![],
        }
    }
}

/// The text inputs, concatenated.
pub open spec fn all_text(inputs: Seq<InferenceMedia>) -> Seq<char>
    decreases inputs.len(),
{
    if inputs.len() == 0 {
        seq![]
    } else {
        all_text(inputs.drop_last()) + match inputs.last() {
            InferenceMedia::Text(t) => t@,
            _ => seq![],
        }
    }
}

/// The prompt a llama.cpp server is given for a request: the system line
/// when there is a system prompt, a `User: ` line per text input, and the
/// cue for the assistant.
pub fn llama_cpp_prompt(request: &InferenceRequest) -> (p: String)
    ensures
        p@ == match request.system_prompt {
            Some(s) => "System: "@ + s@ + "\n"@,
            None => seq![],
        } + user_lines(request.inputs@) + "Assistant: "@,
{
    let mut p = match &request.system_prompt {
        Some(s) => concat3("System: ", s.as_str(), "\n"),
        None => String::new(),
    };
    let ghost head = p@;
    let mut i: usize = 0;
    while i < request.inputs.len()
        invariant
            i <= request.inputs@.len(),
            p@ == head + user_lines(request.inputs@.take(i as int)),
        decreases request.inputs.len() - i,
    {
        assert(request.inputs@.take(i + 1).drop_last() =~= request.inputs@.take(i as int));
        match &request.inputs[i] {
            InferenceMedia::Text(t) => {
                push_str(&mut p, "User: ");
                push_str(&mut p, t.as_str());
                push_str(&mut p, "\n");
            },
            _ => {},
        }
        i += 1;
    }
    assert(request.inputs@.take(request.inputs@.len() as int) =~= request.inputs@);
    push_str(&mut p, "Assistant: ");
    p
}

/// The prompt an OpenAI-compatible server or a Candle engine is given for
/// a request: its text inputs, concatenated.
pub fn text_inputs_prompt(request: &InferenceRequest) -> (p: String)
    ensures
        p@ == all_text(request.inputs@),
{
    let mut p = String::new();
    let mut i: usize = 0;
    while i < request.inputs.len()
        invariant
            i <= request.inputs@.len(),
            p@ == all_text(request.inputs@.take(i as int)),
        decreases request.inputs.len() - i,
    {
        assert(request.inputs@.take(i + 1).drop_last() =~= request.inputs@.take(i as int));
        match &request.inputs[i] {
            InferenceMedia::Text(t) => {
                push_str(&mut p, t.as_str());
            },
            _ => {},
        }
        i += 1;
    }
    assert(request.inputs@.take(request.inputs@.len() as int) =~= request.inputs@);
    p
}

// ---------------------------------------------------------------------
// Token streams
// ---------------------------------------------------------------------

/// The tokens that the lines of one piece of a llama.cpp stream carry:
/// each `data: ` line holds a JSON document whose `content` is the token;
/// one whose `stop` is true ends the piece.
pub open spec fn llama_tokens(ls: Seq<Seq<char>>) -> Seq<Seq<char>>
    decreases ls.len(),
{
    if ls.len() == 0 {
        seq![]
    } else if starts_with(ls[0], "data: "@) {
        match json_stream_piece(ls[0].subrange(6, ls[0].len() as int)) {
            Some((c, st)) => {
                let head = match c {
                    Some(t) => seq![t],
                    None => seq![],
                };
                if st == Some(true) {
                    head
                } else {
                    head + llama_tokens(ls.drop_first())
                }
            },
            None => llama_tokens(ls.drop_first()),
        }
    } else {
        llama_tokens(ls.drop_first())
    }
}

/// The tokens carried by one received piece of a llama.cpp stream.
pub fn llama_stream_tokens(text: &str) -> (tokens: Vec<String>)
    ensures
        views(tokens@) == llama_tokens(lines(text@)),
{
    proof {
        reveal_strlit("data: ");
    }
    let ls = lines_of(text);
    assert(views(ls@) =~= lines(text@));
    let prefix = chars_of("data: ");
    let mut tokens: Vec<String> = Vec::new();
    let mut i: usize = 0;
    assert(views(ls@).skip(0) =~= views(ls@));
    assert(views(tokens@) + llama_tokens(lines(text@)) =~= llama_tokens(lines(text@)));
    while i < ls.len()
        invariant
            i <= ls@.len(),
            prefix@ == "data: "@,
            views(ls@) == lines(text@),
            llama_tokens(lines(text@)) == views(tokens@) + llama_tokens(views(ls@).skip(i as int)),
        decreases ls.len() - i,
    {
        let ghost rest = views(ls@).skip(i as int);
        assert(rest[0] == ls@[i as int]@);
        assert(rest.drop_first() =~= views(ls@).skip(i + 1));
        let line = chars_of(ls[i].as_str());
        if starts_with_chars(&line, &prefix) {
            proof {
                reveal_strlit("data: ");
            }
            assert("data: "@ =~= seq!['d', 'a', 't', 'a', ':', ' ']);
            let data = string_of_range(&line, 6, line.len());
            match read_stream_piece(data.as_str()) {
                Some((c, st)) => {
                    let ghost before = tokens@;
                    match c {
                        Some(t) => {
                            let ghost tv = t@;
                            tokens.push(t);
                            assert(views(tokens@) =~= views(before).push(tv));
                            assert(views(before) + (seq![tv] + llama_tokens(rest.drop_first()))
                                =~= views(tokens@) + llama_tokens(rest.drop_first()));
                            assert(views(before) + seq![tv] =~= views(tokens@));
                        },
                        None => {
                            assert(views(before) + (seq![] + llama_tokens(rest.drop_first()))
                                =~= views(tokens@) + llama_tokens(rest.drop_first()));
                            assert(views(before) + seq![] =~= views(tokens@));
                        },
                    }
                    if st == Some(true) {
                        return tokens;
                    }
                },
                None => {},
            }
        }
        i += 1;
    }
    assert(views(ls@).skip(ls@.len() as int) =~= Seq::<Seq<char>>::empty());
    assert(views(tokens@) + seq![] =~= views(tokens@));
    tokens
}

/// The tokens that the lines of one piece of an OpenAI stream carry: each
/// line, trimmed, that starts with `data: ` holds a JSON document whose
/// `choices[0].delta.content` is the token; `[DONE]` ends the piece.
pub open spec fn openai_tokens(ls: Seq<Seq<char>>) -> Seq<Seq<char>>
    decreases ls.len(),
{
    if ls.len() == 0 {
        seq![]
    } else {
        let t = trim(ls[0]);
        if t.len() == 0 || !starts_with(t, "data: "@) {
            openai_tokens(ls.drop_first())
        } else {
            let data = t.subrange(6, t.len() as int);
            if data == "[DONE]"@ {
                seq![]
            } else {
                match json_delta_content(data) {
                    Some(c) => seq![c] + openai_tokens(ls.drop_first()),
                    None => openai_tokens(ls.drop_first()),
                }
            }
        }
    }
}

/// The tokens carried by one received piece of an OpenAI stream.
pub fn openai_stream_tokens(text: &str) -> (tokens: Vec<String>)
    ensures
        views(tokens@) == openai_tokens(lines(text@)),
{
    proof {
        reveal_strlit("data: ");
    }
    let ls = lines_of(text);
    assert(views(ls@) =~= lines(text@));
    let prefix = chars_of("data: ");
    let mut tokens: Vec<String> = Vec::new();
    let mut i: usize = 0;
    assert(views(ls@).skip(0) =~= views(ls@));
    assert(views(tokens@) + openai_tokens(lines(text@)) =~= openai_tokens(lines(text@)));
    while i < ls.len()
        invariant
            i <= ls@.len(),
            prefix@ == "data: "@,
            views(ls@) == lines(text@),
            openai_tokens(lines(text@)) == views(tokens@) + openai_tokens(views(ls@).skip(i as int)),
        decreases ls.len() - i,
    {
        let ghost rest = views(ls@).skip(i as int);
        assert(rest[0] == ls@[i as int]@);
        assert(rest.drop_first() =~= views(ls@).skip(i + 1));
        let trimmed = trim_str(ls[i].as_str());
        let t = chars_of(trimmed.as_str());
        if t.len() > 0 && starts_with_chars(&t, &prefix) {
            proof {
                reveal_strlit("data: ");
            }
            assert("data: "@ =~= seq!['d', 'a', 't', 'a', ':', ' ']);
            let data = string_of_range(&t, 6, t.len());
            if str_eq(data.as_str(), "[DONE]") {
                assert(openai_tokens(rest) =~= seq![]);
                assert(views(tokens@) + seq![] =~= views(tokens@));
                return tokens;
            }
            match read_delta_content(data.as_str()) {
                Some(c) => {
                    let ghost before = tokens@;
                    let ghost cv = c@;
                    tokens.push(c);
                    assert(views(tokens@) =~= views(before).push(cv));
                    assert(views(before) + (seq![cv] + openai_tokens(rest.drop_first())) =~= views(
                        tokens@,
                    ) + openai_tokens(rest.drop_first()));
                },
                None => {},
            }
        }
        i += 1;
    }
    assert(views(ls@).skip(ls@.len() as int) =~= Seq::<Seq<char>>::empty());
    assert(views(tokens@) + seq![] =~= views(tokens@));
    tokens
}

} // verus!
