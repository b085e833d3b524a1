//! What is asked of the service and what its stream of events says.

use crate::config;
use crate::config::{Config, ConfigView, Tone, ToneView, API_KEY_ENV, BASE_RULES};
use crate::json;
use crate::json::{Json, JsonView};
use crate::text;
use crate::text::{equals, is_blank, strip_head, take_chars, trim};
use vstd::prelude::*;

verus! {

/// What a request tells the application.
#[derive(Debug)]
pub enum Msg {
    /// More of the answer.
    Delta(String),
    /// The answer is complete.
    Done,
    /// The request failed.
    Error(String),
}

/// The model of a [`Msg`].
pub enum MsgView {
    Delta(Seq<char>),
    Done,
    Error(Seq<char>),
}

impl View for Msg {
    type V = MsgView;

    open spec fn view(&self) -> MsgView {
        match self {
            Msg::Delta(s) => MsgView::Delta(s@),
            Msg::Done => MsgView::Done,
            Msg::Error(s) => MsgView::Error(s@),
        }
    }
}

/// Goes with every message, so that answers to old requests can be told apart.
pub type Generation = u64;

/// The part of the prompt on the author.
pub open spec fn author_part(signature: Seq<char>) -> Seq<char> {
    if text::blank(signature) {
        Seq::empty()
    } else {
        "\n\n# Autor\nQuem assina o texto e: "@ + text::trimmed(signature)
            + ". Use esse nome se o formato pedir assinatura."@
    }
}

/// The part of the prompt on the fixed context.
pub open spec fn context_part(extra: Seq<char>) -> Seq<char> {
    if text::blank(extra) {
        Seq::empty()
    } else {
        "\n\n# Contexto fixo\n"@ + text::trimmed(extra)
    }
}

/// The instructions for the model: the base rules, the tone, the author and the fixed context.
pub open spec fn system_text(cfg: ConfigView, tone: ToneView) -> Seq<char> {
    BASE_RULES@ + "\n\n# Tom pedido: "@ + tone.name + "\n"@ + tone.prompt + author_part(cfg.signature)
        + context_part(cfg.extra_context)
}

/// The instructions for the model.
pub fn system_prompt(cfg: &Config, tone: &Tone) -> (r: String)
    ensures
        r@ == system_text(cfg@, tone@),
{
    let mut prompt = BASE_RULES.to_owned();
    prompt.append("\n\n# Tom pedido: ");
    prompt.append(tone.name.as_str());
    prompt.append("\n");
    prompt.append(tone.prompt.as_str());
    if !is_blank(cfg.signature.as_str()) {
        prompt.append("\n\n# Autor\nQuem assina o texto e: ");
        prompt.append(trim(cfg.signature.as_str()));
        prompt.append(". Use esse nome se o formato pedir assinatura.");
    }
    if !is_blank(cfg.extra_context.as_str()) {
        prompt.append("\n\n# Contexto fixo\n");
        prompt.append(trim(cfg.extra_context.as_str()));
    }
    assert(prompt@ =~= system_text(cfg@, tone@));
    prompt
}

/// The text to rewrite, with the instruction of the author if there is one.
pub open spec fn user_text(input: Seq<char>, instruction: Seq<char>) -> Seq<char> {
    "Texto original:\n<<<\n"@ + input + "\n>>>"@ + if text::blank(instruction) {
        Seq::empty()
    } else {
        "\n\nInstrucao adicional do autor: "@ + text::trimmed(instruction)
    }
}

/// The text to rewrite, with the instruction of the author if there is one.
pub fn user_prompt(input: &str, instruction: &str) -> (r: String)
    ensures
        r@ == user_text(input@, instruction@),
{
    let mut prompt = "Texto original:\n<<<\n".to_owned();
    prompt.append(input);
    prompt.append("\n>>>");
    if !is_blank(instruction) {
        prompt.append("\n\nInstrucao adicional do autor: ");
        prompt.append(trim(instruction));
    }
    assert(prompt@ =~= user_text(input@, instruction@));
    prompt
}

/// How long a request may take, in seconds.
pub const TIMEOUT_SECS: u64 = 120;

/// The `HTTP-Referer` of a request.
pub const REFERER: &'static str = "https://github.com/arthurbolsoni/better-answer";

/// The `X-Title` of a request.
pub const TITLE: &'static str = "better-answer";

/// A request to the service.
#[derive(Debug)]
pub struct Request {
    pub api_key: String,
    pub model: String,
    pub temperature_bits: u32,
    pub max_tokens: u32,
    /// The answer is to come in pieces.
    pub stream: bool,
    /// The message of the role `system`.
    pub system: String,
    /// The message of the role `user`.
    pub user: String,
}

/// The model of a [`Request`].
pub struct RequestView {
    pub api_key: Seq<char>,
    pub model: Seq<char>,
    pub temperature_bits: u32,
    pub max_tokens: u32,
    pub stream: bool,
    pub system: Seq<char>,
    pub user: Seq<char>,
}

impl View for Request {
    type V = RequestView;

    open spec fn view(&self) -> RequestView {
        RequestView {
            api_key: self.api_key@,
            model: self.model@,
            temperature_bits: self.temperature_bits,
            max_tokens: self.max_tokens,
            stream: self.stream,
            system: self.system@,
            user: self.user@,
        }
    }
}

/// What is told where no key is configured. `path` is the file of the configuration, if known.
pub open spec fn no_key_text(path: Option<Seq<char>>) -> Seq<char> {
    "sem chave da OpenRouter. Defina a env "@ + API_KEY_ENV@ + " ou preencha api_key em "@ + match path {
        Some(p) => p,
        None => "config.toml"@,
    }
}

/// The request to make, or what is told where it cannot be made.
pub open spec fn request_of(
    cfg: ConfigView,
    env_key: Option<Seq<char>>,
    path: Option<Seq<char>>,
    tone: ToneView,
    input: Seq<char>,
    instruction: Seq<char>,
) -> Result<RequestView, Seq<char>> {
    match config::resolved_key(env_key, cfg.api_key) {
        None => Err(no_key_text(path)),
        Some(key) => Ok(
            RequestView {
                api_key: key,
                model: cfg.model,
                temperature_bits: cfg.temperature_bits,
                max_tokens: cfg.max_tokens,
                stream: true,
                system: system_text(cfg, tone),
                user: user_text(input, instruction),
            },
        ),
    }
}

/// The request to make, from the value of [`API_KEY_ENV`] and the path of the configuration.
pub fn request(
    cfg: &Config,
    env_key: Option<&str>,
    path: Option<&str>,
    tone: &Tone,
    input: &str,
    instruction: &str,
) -> (r: Result<Request, String>)
    ensures
        match r {
            Ok(request) => request_of(
                cfg@,
                text::opt_view(env_key),
                text::opt_view(path),
                tone@,
                input@,
                instruction@,
            ) == Ok::<RequestView, Seq<char>>(request@),
            Err(e) => request_of(
                cfg@,
                text::opt_view(env_key),
                text::opt_view(path),
                tone@,
                input@,
                instruction@,
            ) == Err::<RequestView, Seq<char>>(e@),
        },
{
    match cfg.resolved_api_key(env_key) {
        None => {
            let mut e = "sem chave da OpenRouter. Defina a env ".to_owned();
            e.append(API_KEY_ENV);
            e.append(" ou preencha api_key em ");
            match path {
                Some(p) => e.append(p),
                None => e.append("config.toml"),
            }
            Err(e)
        },
        Some(api_key) => Ok(
            Request {
                api_key,
                model: cfg.model.clone(),
                temperature_bits: cfg.temperature_bits,
                max_tokens: cfg.max_tokens,
                stream: true,
                system: system_prompt(cfg, tone),
                user: user_prompt(input, instruction),
            },
        ),
    }
}

/// A status code of HTTP stands for success.
pub open spec fn succeeds(code: u16) -> bool {
    200 <= code < 300
}

/// Whether a status code of HTTP stands for success.
pub fn is_success(code: u16) -> (r: bool)
    ensures
        r == succeeds(code),
{
    200 <= code && code < 300
}

/// How many characters of a failed answer are told.
pub const DETAIL_CHARS: usize = 400;

/// What is told of an answer whose status is no success.
pub open spec fn status_text(status: Seq<char>, detail: Option<Seq<char>>) -> Seq<char> {
    "OpenRouter respondeu "@ + status + ": "@ + match detail {
        Some(d) => text::prefix(d, DETAIL_CHARS as nat),
        None => Seq::empty(),
    }
}

/// What is told of an answer whose status is no success.
pub fn status_error(status: &str, detail: Option<&str>) -> (r: String)
    ensures
        r@ == status_text(status@, text::opt_view(detail)),
{
    let mut out = "OpenRouter respondeu ".to_owned();
    out.append(status);
    out.append(": ");
    if let Some(d) = detail {
        out.append(take_chars(d, DETAIL_CHARS));
    }
    assert(out@ =~= status_text(status@, text::opt_view(detail)));
    out
}

/// What one line of the stream says.
#[derive(Debug)]
pub enum LineEvent {
    /// Nothing: a comment, a keep-alive, a piece that is not JSON or that carries no text.
    Skip,
    /// The stream ends here.
    Stop,
    /// The service reports an error.
    Fail(String),
    /// More of the answer.
    Delta(String),
}

/// The model of a [`LineEvent`].
pub enum LineView {
    Skip,
    Stop,
    Fail(Seq<char>),
    Delta(Seq<char>),
}

impl View for LineEvent {
    type V = LineView;

    open spec fn view(&self) -> LineView {
        match self {
            LineEvent::Skip => LineView::Skip,
            LineEvent::Stop => LineView::Stop,
            LineEvent::Fail(s) => LineView::Fail(s@),
            LineEvent::Delta(s) => LineView::Delta(s@),
        }
    }
}

/// The message of an error that the service reports.
pub open spec fn error_message(error: JsonView) -> Seq<char> {
    match json::field_of(error, "message"@) {
        Some(message) => match json::text_of(message) {
            Some(s) => s,
            None => "erro desconhecido"@,
        },
        None => "erro desconhecido"@,
    }
}

/// The text at `choices[0].delta.content`.
pub open spec fn delta_content(chunk: JsonView) -> Option<Seq<char>> {
    match json::field_of(chunk, "choices"@) {
        Some(choices) => match json::element_of(choices, 0) {
            Some(choice) => match json::field_of(choice, "delta"@) {
                Some(delta) => match json::field_of(delta, "content"@) {
                    Some(content) => json::text_of(content),
                    None => None,
                },
                None => None,
            },
            None => None,
        },
        None => None,
    }
}

/// What a piece of the stream says: an error wins over a text, and an empty text says nothing.
pub open spec fn chunk_view(chunk: JsonView) -> LineView {
    match json::field_of(chunk, "error"@) {
        Some(error) => LineView::Fail("OpenRouter: "@ + error_message(error)),
        None => match delta_content(chunk) {
            Some(content) => if content.len() > 0 {
                LineView::Delta(content)
            } else {
                LineView::Skip
            },
            None => LineView::Skip,
        },
    }
}

/// The text at `choices[0].delta.content`.
fn content_of(chunk: &Json) -> (r: Option<&str>)
    ensures
        text::opt_view(r) == delta_content(chunk.model()),
{
    match chunk.field("choices") {
        Some(choices) => match choices.element(0) {
            Some(choice) => match choice.field("delta") {
                Some(delta) => match delta.field("content") {
                    Some(content) => content.as_text(),
                    None => None,
                },
                None => None,
            },
            None => None,
        },
        None => None,
    }
}

/// What a piece of the stream says.
pub fn chunk_event(chunk: &Json) -> (r: LineEvent)
    ensures
        r@ == chunk_view(chunk.model()),
{
    if let Some(error) = chunk.field("error") {
        let message = match error.field("message") {
            Some(message) => match message.as_text() {
                Some(s) => s,
                None => "erro desconhecido",
            },
            None => "erro desconhecido",
        };
        let mut out = "OpenRouter: ".to_owned();
        out.append(message);
        return LineEvent::Fail(out);
    }
    match content_of(chunk) {
        Some(content) => if content.is_empty() {
            LineEvent::Skip
        } else {
            LineEvent::Delta(content.to_owned())
        },
        None => LineEvent::Skip,
    }
}

/// What one line of the stream says. Only what follows `data:` counts, without white space around
/// it.
pub open spec fn line_view(line: Seq<char>) -> LineView {
    match text::after_prefix(line, "data:"@) {
        None => LineView::Skip,
        Some(rest) => {
            let payload = text::trimmed(rest);
            if payload == "[DONE]"@ {
                LineView::Stop
            } else if payload.len() == 0 {
                LineView::Skip
            } else {
                match json::parsed_json(payload) {
                    Some(chunk) => chunk_view(chunk),
                    None => LineView::Skip,
                }
            }
        },
    }
}

/// What one line of the stream says.
pub fn line_event(line: &str) -> (r: LineEvent)
    ensures
        r@ == line_view(line@),
{
    match strip_head(line, "data:") {
        None => LineEvent::Skip,
        Some(rest) => {
            let payload = trim(rest);
            if equals(payload, "[DONE]") {
                LineEvent::Stop
            } else if payload.is_empty() {
                LineEvent::Skip
            } else {
                match json::parse(payload) {
                    Some(chunk) => chunk_event(&chunk),
                    None => LineEvent::Skip,
                }
            }
        },
    }
}

/// The answer to one request while it comes in, line by line.
#[derive(Debug)]
pub struct Stream {
    /// The last message was not sent yet.
    pub open: bool,
}

/// A message, if there is one.
pub open spec fn msg_view(msg: Option<Msg>) -> Option<MsgView> {
    match msg {
        Some(m) => Some(m@),
        None => None,
    }
}

/// What a line gives on an open stream: the message to send, and whether the stream stays open.
pub open spec fn fed(line: LineView) -> (Option<MsgView>, bool) {
    match line {
        LineView::Skip => (None, true),
        LineView::Stop => (Some(MsgView::Done), false),
        LineView::Fail(e) => (Some(MsgView::Error(e)), false),
        LineView::Delta(d) => (Some(MsgView::Delta(d)), true),
    }
}

/// The last message of a request.
pub open spec fn last_message(failure: Option<Seq<char>>) -> MsgView {
    match failure {
        Some(e) => MsgView::Error(e),
        None => MsgView::Done,
    }
}

impl Stream {
    /// A stream that has said nothing yet.
    pub fn new() -> (r: Self)
        ensures
            r.open,
    {
        Stream { open: true }
    }

    /// Takes the next line and gives the message to send.
    pub fn feed(&mut self, line: &str) -> (r: Option<Msg>)
        ensures
            old(self).open ==> msg_view(r) == fed(line_view(line@)).0 && final(self).open == fed(
                line_view(line@),
            ).1,
            !old(self).open ==> r is None && !final(self).open,
    {
        if !self.open {
            return None;
        }
        match line_event(line) {
            LineEvent::Skip => None,
            LineEvent::Stop => {
                self.open = false;
                Some(Msg::Done)
            },
            LineEvent::Fail(e) => {
                self.open = false;
                Some(Msg::Error(e))
            },
            LineEvent::Delta(d) => Some(Msg::Delta(d)),
        }
    }

    /// Ends the stream, because no more lines come or because the request failed, and gives the
    /// last message if it is still owed.
    pub fn finish(&mut self, failure: Option<String>) -> (r: Option<Msg>)
        ensures
            !final(self).open,
            msg_view(r) == (if old(self).open {
                Some(last_message(text::opt_string(failure)))
            } else {
                None
            }),
    {
        if !self.open {
            return None;
        }
        self.open = false;
        match failure {
            Some(e) => Some(Msg::Error(e)),
            None => Some(Msg::Done),
        }
    }
}

/// All the messages of a request whose stream has these lines and then ends with `failure` or
/// without one.
pub open spec fn messages(lines: Seq<Seq<char>>, failure: Option<Seq<char>>) -> Seq<MsgView>
    decreases lines.len(),
{
    if lines.len() == 0 {
        seq![last_message(failure)]
    } else {
        let (msg, open) = fed(line_view(lines[0]));
        (match msg {
            Some(m) => seq![m],
            None => Seq::empty(),
        }) + (if open {
            messages(lines.drop_first(), failure)
        } else {
            Seq::empty()
        })
    }
}

/// A request sends pieces of the answer and then exactly one last message.
pub proof fn one_last_message(lines: Seq<Seq<char>>, failure: Option<Seq<char>>)
    ensures
        messages(lines, failure).len() > 0,
        messages(lines, failure).last() !is Delta,
        forall|i: int|
            0 <= i < messages(lines, failure).len() - 1 ==> (#[trigger] messages(
                lines,
                failure,
            )[i]) is Delta,
    decreases lines.len(),
{
    if lines.len() > 0 {
        one_last_message(lines.drop_first(), failure);
    }
}

/// The pieces of an answer put together.
pub open spec fn answer(msgs: Seq<MsgView>) -> Seq<char>
    decreases msgs.len(),
{
    if msgs.len() == 0 {
        Seq::empty()
    } else {
        (match msgs[0] {
            MsgView::Delta(d) => d,
            _ => Seq::empty(),
        }) + answer(msgs.drop_first())
    }
}

/// What follows the end of the stream is never read.
pub proof fn nothing_after_the_end(
    lines: Seq<Seq<char>>,
    more: Seq<Seq<char>>,
    failure: Option<Seq<char>>,
    other: Option<Seq<char>>,
)
    requires
        lines.len() > 0,
        line_view(lines.last()) is Stop || line_view(lines.last()) is Fail,
    ensures
        messages(lines + more, failure) == messages(lines, other),
    decreases lines.len(),
{
    assert((lines + more)[0] == lines[0]);
    if fed(line_view(lines[0])).1 {
        assert(lines.len() > 1);
        let rest = lines.drop_first();
        assert((lines + more).drop_first() =~= rest + more);
        assert(rest.last() == lines.last());
        nothing_after_the_end(rest, more, failure, other);
    }
}

/// A line that says nothing changes no message.
pub proof fn silent_lines_do_not_count(
    before: Seq<Seq<char>>,
    line: Seq<char>,
    after: Seq<Seq<char>>,
    failure: Option<Seq<char>>,
)
    requires
        line_view(line) is Skip,
    ensures
        messages(before + seq![line] + after, failure) == messages(before + after, failure),
    decreases before.len(),
{
    let with = before + seq![line] + after;
    let without = before + after;
    if before.len() == 0 {
        assert(with[0] == line);
        assert(with.drop_first() =~= without);
        assert(Seq::<MsgView>::empty() + messages(without, failure) =~= messages(without, failure));
    } else {
        let rest = before.drop_first();
        assert(with[0] == before[0] && without[0] == before[0]);
        assert(with.drop_first() =~= rest + seq![line] + after);
        assert(without.drop_first() =~= rest + after);
        silent_lines_do_not_count(rest, line, after, failure);
    }
}

/// The prompt always starts with the base rules and names the tone.
pub proof fn prompt_starts_with_base_rules(cfg: ConfigView, tone: ToneView)
    ensures
        BASE_RULES@.is_prefix_of(system_text(cfg, tone)),
        (BASE_RULES@ + "\n\n# Tom pedido: "@ + tone.name + "\n"@ + tone.prompt).is_prefix_of(
            system_text(cfg, tone),
        ),
        text::blank(cfg.signature) && text::blank(cfg.extra_context) ==> system_text(cfg, tone)
            =~= BASE_RULES@ + "\n\n# Tom pedido: "@ + tone.name + "\n"@ + tone.prompt,
{
}

/// The text at `choices[0].delta.content`, found step by step.
pub open spec fn content_is(chunk: JsonView, content: Seq<char>) -> bool {
    exists|choices: Seq<JsonView>, delta: JsonView|
        #![trigger json::field_of(choices[0], "delta"@), json::field_of(delta, "content"@)]
        {
            &&& json::field_of(chunk, "choices"@) == Some(JsonView::Array(choices))
            &&& choices.len() > 0
            &&& json::field_of(choices[0], "delta"@) == Some(delta)
            &&& json::field_of(delta, "content"@) == Some(JsonView::Text(content))
        }
}

/// A piece with a text passes it on, character for character, the white space around it too.
pub proof fn piece_is_passed_on_unchanged(chunk: JsonView, content: Seq<char>)
    requires
        json::field_of(chunk, "error"@) is None,
        content_is(chunk, content),
        content.len() > 0,
    ensures
        chunk_view(chunk) == LineView::Delta(content),
{
    let (choices, delta) = choose|choices: Seq<JsonView>, delta: JsonView|
        #![trigger json::field_of(choices[0], "delta"@), json::field_of(delta, "content"@)]
        {
            &&& json::field_of(chunk, "choices"@) == Some(JsonView::Array(choices))
            &&& choices.len() > 0
            &&& json::field_of(choices[0], "delta"@) == Some(delta)
            &&& json::field_of(delta, "content"@) == Some(JsonView::Text(content))
        };
    assert(json::field_of(delta, "content"@) == Some(JsonView::Text(content)));
}

/// What is passed on is the text of the piece, and nothing is passed on of a piece without one or
/// with an error.
pub proof fn nothing_is_made_up(chunk: JsonView, content: Seq<char>)
    ensures
        chunk_view(chunk) == LineView::Delta(content) ==> content.len() > 0 && content_is(
            chunk,
            content,
        ) && json::field_of(chunk, "error"@) is None,
        chunk_view(chunk) !is Stop,
        chunk_view(chunk) is Fail <==> json::field_of(chunk, "error"@) is Some,
{
    if chunk_view(chunk) == LineView::Delta(content) {
        let choices = json::field_of(chunk, "choices"@)->0->Array_0;
        let delta = json::field_of(choices[0], "delta"@)->0;
        assert(json::field_of(delta, "content"@) is Some);
        assert(content_is(chunk, content));
    }
}

/// An error of the service is told with its message, whatever text comes with it; without a message
/// it is an unknown one.
pub proof fn error_of_the_service_is_told(chunk: JsonView, error: JsonView, message: Seq<char>)
    requires
        json::field_of(chunk, "error"@) == Some(error),
    ensures
        json::field_of(error, "message"@) == Some(JsonView::Text(message)) ==> chunk_view(chunk)
            == LineView::Fail("OpenRouter: "@ + message),
        !(json::field_of(error, "message"@) is Some && json::field_of(error, "message"@)->0 is Text)
            ==> chunk_view(chunk) == LineView::Fail("OpenRouter: "@ + "erro desconhecido"@),
{
}

/// A line is read from `data:` on, whatever white space stands around what follows.
pub proof fn data_line_is_read(before: Seq<char>, payload: Seq<char>, after: Seq<char>)
    requires
        text::blank(before),
        text::blank(after),
        payload.len() > 0,
        !text::is_white(payload[0]),
        !text::is_white(payload.last()),
    ensures
        ({
            let line = "data:"@ + (before + payload + after);
            &&& payload == "[DONE]"@ ==> line_view(line) == LineView::Stop
            &&& payload != "[DONE]"@ && json::parsed_json(payload) is None ==> line_view(line)
                == LineView::Skip
            &&& payload != "[DONE]"@ ==> forall|chunk: JsonView|
                json::parsed_json(payload) == Some(chunk) ==> line_view(line) == #[trigger] chunk_view(
                    chunk,
                )
        }),
{
    text::head_and_rest_are_the_text("data:"@, before + payload + after, Seq::empty());
    text::trimming_gives_the_middle(before, payload, after);
}

/// Every other line says nothing: one that does not start with `data:`, and one with nothing but
/// white space behind it.
pub proof fn other_lines_say_nothing(line: Seq<char>, white: Seq<char>)
    requires
        text::blank(white),
    ensures
        !"data:"@.is_prefix_of(line) ==> line_view(line) == LineView::Skip,
        line_view("data:"@ + white) == LineView::Skip,
{
    reveal_strlit("[DONE]");
    text::head_and_rest_are_the_text("data:"@, white, Seq::empty());
    text::trimmed_empty_iff_blank(white);
}

/// The line carries that text and no error.
pub open spec fn carries(line: Seq<char>, content: Seq<char>) -> bool {
    exists|payload: Seq<char>, before: Seq<char>, after: Seq<char>, chunk: JsonView|
        #![trigger before + payload + after, content_is(chunk, content)]
        {
            &&& line == "data:"@ + (before + payload + after)
            &&& text::blank(before) && text::blank(after)
            &&& payload.len() > 0 && !text::is_white(payload[0]) && !text::is_white(payload.last())
            &&& payload != "[DONE]"@
            &&& json::parsed_json(payload) == Some(chunk)
            &&& json::field_of(chunk, "error"@) is None
            &&& content_is(chunk, content)
            &&& content.len() > 0
        }
}

/// A line that carries a text gives that text.
pub proof fn carried_text_is_given(line: Seq<char>, content: Seq<char>)
    requires
        carries(line, content),
    ensures
        line_view(line) == LineView::Delta(content),
{
    let (payload, before, after, chunk) = choose|
        payload: Seq<char>,
        before: Seq<char>,
        after: Seq<char>,
        chunk: JsonView,
    |
        #![trigger before + payload + after, content_is(chunk, content)]
        {
            &&& line == "data:"@ + (before + payload + after)
            &&& text::blank(before) && text::blank(after)
            &&& payload.len() > 0 && !text::is_white(payload[0]) && !text::is_white(payload.last())
            &&& payload != "[DONE]"@
            &&& json::parsed_json(payload) == Some(chunk)
            &&& json::field_of(chunk, "error"@) is None
            &&& content_is(chunk, content)
            &&& content.len() > 0
        };
    data_line_is_read(before, payload, after);
    piece_is_passed_on_unchanged(chunk, content);
}

/// The messages of lines that carry texts: one piece for each, in their order, and then whatever
/// the lines after them give.
pub proof fn each_text_is_one_piece(
    lines: Seq<Seq<char>>,
    contents: Seq<Seq<char>>,
    rest: Seq<Seq<char>>,
    failure: Option<Seq<char>>,
)
    requires
        lines.len() == contents.len(),
        forall|i: int| 0 <= i < lines.len() ==> carries(#[trigger] lines[i], contents[i]),
    ensures
        messages(lines + rest, failure) == contents.map_values(|c: Seq<char>| MsgView::Delta(c))
            + messages(rest, failure),
    decreases lines.len(),
{
    let deltas = contents.map_values(|c: Seq<char>| MsgView::Delta(c));
    if lines.len() == 0 {
        assert(lines + rest =~= rest);
        assert(deltas + messages(rest, failure) =~= messages(rest, failure));
    } else {
        let tail = lines.drop_first();
        let others = contents.drop_first();
        assert forall|i: int| 0 <= i < tail.len() implies carries(#[trigger] tail[i], others[i]) by {
            assert(tail[i] == lines[i + 1]);
            assert(others[i] == contents[i + 1]);
        }
        each_text_is_one_piece(tail, others, rest, failure);
        carried_text_is_given(lines[0], contents[0]);
        assert((lines + rest)[0] == lines[0]);
        assert((lines + rest).drop_first() =~= tail + rest);
        let more = others.map_values(|c: Seq<char>| MsgView::Delta(c));
        assert(deltas =~= seq![MsgView::Delta(contents[0])] + more);
        assert(messages(lines + rest, failure) =~= deltas + messages(rest, failure));
    }
}

/// The answer of a stream is the texts of its lines, one after the other, with nothing lost or added
/// in between; the stream is done when it ends or says so, and fails with what made it fail.
pub proof fn answer_is_the_texts_of_the_lines(
    lines: Seq<Seq<char>>,
    contents: Seq<Seq<char>>,
    stop: Seq<char>,
    more: Seq<Seq<char>>,
    failure: Option<Seq<char>>,
)
    requires
        lines.len() == contents.len(),
        forall|i: int| 0 <= i < lines.len() ==> carries(#[trigger] lines[i], contents[i]),
    ensures
        ({
            let whole = text::joined(contents, Seq::empty());
            let ended = messages(lines, failure);
            let stopped = messages(lines + (seq![stop] + more), failure);
            &&& answer(ended) == whole
            &&& ended.last() == (match failure {
                Some(e) => MsgView::Error(e),
                None => MsgView::Done,
            })
            &&& line_view(stop) is Stop ==> answer(stopped) == whole && stopped.last()
                == MsgView::Done
            &&& line_view(stop) matches LineView::Fail(e) ==> answer(stopped) == whole
                && stopped.last() == MsgView::Error(e)
        }),
{
    let deltas = contents.map_values(|c: Seq<char>| MsgView::Delta(c));
    let none = Seq::<Seq<char>>::empty();
    each_text_is_one_piece(lines, contents, none, failure);
    assert(lines + none =~= lines);
    lemma_answer_of_pieces(contents, messages(none, failure));
    each_text_is_one_piece(lines, contents, seq![stop] + more, failure);
    if line_view(stop) is Stop || line_view(stop) is Fail {
        let tail = messages(seq![stop] + more, failure);
        assert((seq![stop] + more)[0] == stop);
        assert(tail.len() == 1);
        lemma_answer_of_pieces(contents, tail);
    }
}

/// Pieces and one message that is none.
proof fn lemma_answer_of_pieces(contents: Seq<Seq<char>>, last: Seq<MsgView>)
    requires
        last.len() == 1,
        last[0] !is Delta,
    ensures
        answer(contents.map_values(|c: Seq<char>| MsgView::Delta(c)) + last) == text::joined(
            contents,
            Seq::empty(),
        ),
    decreases contents.len(),
{
    let none = Seq::<char>::empty();
    let all = contents.map_values(|c: Seq<char>| MsgView::Delta(c)) + last;
    if contents.len() == 0 {
        assert(all =~= last);
        reveal_with_fuel(answer, 2);
        assert(answer(last) =~= none);
    } else {
        let others = contents.drop_first();
        lemma_answer_of_pieces(others, last);
        assert(all.drop_first() =~= others.map_values(|c: Seq<char>| MsgView::Delta(c)) + last);
        assert(all[0] == MsgView::Delta(contents[0]));
        text::joining_keeps_the_order(contents[0], others, none);
        assert(contents =~= seq![contents[0]] + others);
        if others.len() == 0 {
            assert(answer(all) =~= contents[0]);
        } else {
            assert(answer(all) =~= contents[0] + none + text::joined(others, none));
        }
    }
}

/// An author is named right behind the prompt of the tone, whatever the fixed context is; without
/// one nothing is said of the author.
pub proof fn author_follows_the_tone(cfg: ConfigView, tone: ToneView)
    ensures
        !text::blank(cfg.signature) ==> (BASE_RULES@ + "\n\n# Tom pedido: "@ + tone.name + "\n"@
            + tone.prompt + "\n\n# Autor\nQuem assina o texto e: "@ + text::trimmed(cfg.signature)
            + ". Use esse nome se o formato pedir assinatura."@).is_prefix_of(
            system_text(cfg, tone),
        ),
        text::blank(cfg.signature) ==> system_text(cfg, tone) == system_text(
            ConfigView { signature: Seq::empty(), ..cfg },
            tone,
        ),
        text::blank(cfg.extra_context) ==> system_text(cfg, tone) == system_text(
            ConfigView { extra_context: Seq::empty(), ..cfg },
            tone,
        ),
        !text::blank(cfg.signature) && text::blank(cfg.extra_context) ==> system_text(cfg, tone)
            == BASE_RULES@ + "\n\n# Tom pedido: "@ + tone.name + "\n"@ + tone.prompt
            + "\n\n# Autor\nQuem assina o texto e: "@ + text::trimmed(cfg.signature)
            + ". Use esse nome se o formato pedir assinatura."@,
{
    let base = BASE_RULES@ + "\n\n# Tom pedido: "@ + tone.name + "\n"@ + tone.prompt;
    if !text::blank(cfg.signature) {
        let author = "\n\n# Autor\nQuem assina o texto e: "@ + text::trimmed(cfg.signature)
            + ". Use esse nome se o formato pedir assinatura."@;
        let stated = base + "\n\n# Autor\nQuem assina o texto e: "@ + text::trimmed(cfg.signature)
            + ". Use esse nome se o formato pedir assinatura."@;
        assert(stated =~= base + author);
        assert(system_text(cfg, tone) =~= stated + context_part(cfg.extra_context));
    }
}

/// A fixed context comes last, whatever the author is, and changes nothing before it.
pub proof fn context_comes_last(cfg: ConfigView, tone: ToneView)
    requires
        !text::blank(cfg.extra_context),
    ensures
        system_text(cfg, tone) == system_text(
            ConfigView { extra_context: Seq::empty(), ..cfg },
            tone,
        ) + ("\n\n# Contexto fixo\n"@ + text::trimmed(cfg.extra_context)),
{
    let without = ConfigView { extra_context: Seq::<char>::empty(), ..cfg };
    assert(system_text(cfg, tone) =~= system_text(without, tone) + ("\n\n# Contexto fixo\n"@
        + text::trimmed(cfg.extra_context)));
}

/// Nothing else of the configuration goes into the instructions: neither key nor model nor tones.
pub proof fn instructions_hold_no_key(a: ConfigView, b: ConfigView, tone: ToneView)
    requires
        a.signature == b.signature,
        a.extra_context == b.extra_context,
    ensures
        system_text(a, tone) == system_text(b, tone),
{
}

/// The text to rewrite stands between its marks as it is; an instruction follows it, and a blank
/// one leaves nothing behind.
pub proof fn text_stands_between_its_marks(input: Seq<char>, instruction: Seq<char>)
    ensures
        text::blank(instruction) ==> user_text(input, instruction) == "Texto original:\n<<<\n"@
            + input + "\n>>>"@,
        !text::blank(instruction) ==> user_text(input, instruction) == user_text(
            input,
            Seq::empty(),
        ) + ("\n\nInstrucao adicional do autor: "@ + text::trimmed(instruction)),
{
    let plain = "Texto original:\n<<<\n"@ + input + "\n>>>"@;
    assert(user_text(input, Seq::empty()) =~= plain);
    assert(text::blank(instruction) ==> user_text(input, instruction) =~= plain);
}

/// A request carries what is configured, the two prompts and the key, and asks for the answer in
/// pieces. Without a key it is not made, and both places for a key are told.
pub proof fn request_carries_the_configuration(
    cfg: ConfigView,
    env_key: Option<Seq<char>>,
    path: Option<Seq<char>>,
    tone: ToneView,
    input: Seq<char>,
    instruction: Seq<char>,
)
    ensures
        ({
            let asked = request_of(cfg, env_key, path, tone, input, instruction);
            match config::resolved_key(env_key, cfg.api_key) {
                Some(key) => asked matches Ok(r) && r.api_key == key && r.model == cfg.model
                    && r.temperature_bits == cfg.temperature_bits && r.max_tokens == cfg.max_tokens
                    && r.stream && r.system == system_text(cfg, tone) && r.user == user_text(
                    input,
                    instruction,
                ),
                None => asked == Err::<RequestView, Seq<char>>(
                    "sem chave da OpenRouter. Defina a env "@ + "OPENROUTER_API_KEY"@
                        + " ou preencha api_key em "@ + (if path is Some {
                        path->0
                    } else {
                        "config.toml"@
                    }),
                ),
            }
        }),
{
}

/// Of a failed answer the status is told, and at most the first four hundred characters.
pub proof fn failed_status_is_told(status: Seq<char>, head: Seq<char>, rest: Seq<char>)
    ensures
        status_text(status, None) == "OpenRouter respondeu "@ + status + ": "@,
        head.len() <= 400 ==> status_text(status, Some(head)) == "OpenRouter respondeu "@ + status
            + ": "@ + head,
        head.len() == 400 ==> status_text(status, Some(head + rest)) == status_text(
            status,
            Some(head),
        ),
{
    assert(status_text(status, None) =~= "OpenRouter respondeu "@ + status + ": "@);
    text::first_characters(head, rest, 400);
}

/// The codes of one hundred mean the same, and only those of the two hundreds mean success.
pub proof fn two_hundreds_are_success(hundreds: u16, rest: u16)
    requires
        hundreds <= 9,
        rest < 100,
    ensures
        succeeds((100 * hundreds + rest) as u16) <==> hundreds == 2,
{
}

/// The models of messages, lines and requests hold every field of them.
pub proof fn models_of_messages(s: String, request: Request)
    ensures
        Msg::Delta(s)@ == MsgView::Delta(s@),
        Msg::Done@ == MsgView::Done,
        Msg::Error(s)@ == MsgView::Error(s@),
        LineEvent::Skip@ == LineView::Skip,
        LineEvent::Stop@ == LineView::Stop,
        LineEvent::Fail(s)@ == LineView::Fail(s@),
        LineEvent::Delta(s)@ == LineView::Delta(s@),
        msg_view(Some(Msg::Delta(s))) == Some(MsgView::Delta(s@)),
        msg_view(Some(Msg::Done)) == Some(MsgView::Done),
        msg_view(Some(Msg::Error(s))) == Some(MsgView::Error(s@)),
        msg_view(None) is None,
        request@.api_key == request.api_key@,
        request@.model == request.model@,
        request@.temperature_bits == request.temperature_bits,
        request@.max_tokens == request.max_tokens,
        request@.stream == request.stream,
        request@.system == request.system@,
        request@.user == request.user@,
{
}

/// What an open stream sends for a line, and whether it stays open: pieces go on, the end and an
/// error are the last message, and a silent line sends nothing.
pub proof fn stream_sends_what_a_line_says(s: Seq<char>)
    ensures
        fed(LineView::Delta(s)) == (Some(MsgView::Delta(s)), true),
        fed(LineView::Skip) == (None::<MsgView>, true),
        fed(LineView::Stop) == (Some(MsgView::Done), false),
        fed(LineView::Fail(s)) == (Some(MsgView::Error(s)), false),
        last_message(None) == MsgView::Done,
        last_message(Some(s)) == MsgView::Error(s),
{
}

} // verus!
