use better_answer::cli::{
    command, has_text, print_of, startup, unknown_argument, Command, Print,
};
use better_answer::config::{Config, Tone, BASE_RULES};
use better_answer::json::{parse, Json};
use better_answer::llm::{
    chunk_event, is_success, line_event, request, status_error, system_prompt, user_prompt,
    LineEvent, Msg, Stream,
};

/// The model that answers by default.
const MODEL: &str = "fornecedor/modelo";

fn tone() -> Tone {
    Tone { name: "Curto".to_string(), prompt: "Seja breve.".to_string() }
}

fn delta(event: LineEvent) -> String {
    match event {
        LineEvent::Delta(s) => s,
        other => panic!("{other:?}"),
    }
}

fn failure(event: LineEvent) -> String {
    match event {
        LineEvent::Fail(s) => s,
        other => panic!("{other:?}"),
    }
}

#[test]
fn the_prompt_names_the_tone() {
    let cfg = Config::default(MODEL);
    assert_eq!(
        system_prompt(&cfg, &tone()),
        format!("{BASE_RULES}\n\n# Tom pedido: Curto\nSeja breve.")
    );
}

#[test]
fn author_and_context_are_added_where_they_are_not_blank() {
    let mut cfg = Config::default(MODEL);
    cfg.signature = " Ana, suporte ".to_string();
    cfg.extra_context = "\nsem jargão\n".to_string();
    assert_eq!(
        system_prompt(&cfg, &tone()),
        format!(
            "{BASE_RULES}\n\n# Tom pedido: Curto\nSeja breve.\n\n# Autor\nQuem assina o texto e: \
             Ana, suporte. Use esse nome se o formato pedir assinatura.\n\n# Contexto fixo\nsem \
             jargão"
        )
    );
}

#[test]
fn the_instruction_follows_the_text() {
    assert_eq!(user_prompt("oi", "  "), "Texto original:\n<<<\noi\n>>>");
    assert_eq!(
        user_prompt(" oi ", " mais curto "),
        "Texto original:\n<<<\n oi \n>>>\n\nInstrucao adicional do autor: mais curto"
    );
}

#[test]
fn a_request_needs_a_key() {
    let mut cfg = Config::default(MODEL);
    assert_eq!(
        request(&cfg, None, Some("/x/config.toml"), &tone(), "a", "").unwrap_err(),
        "sem chave da OpenRouter. Defina a env OPENROUTER_API_KEY ou preencha api_key em \
         /x/config.toml"
    );
    assert_eq!(
        request(&cfg, Some(" "), None, &tone(), "a", "").unwrap_err(),
        "sem chave da OpenRouter. Defina a env OPENROUTER_API_KEY ou preencha api_key em config.toml"
    );
    cfg.api_key = "k".to_string();
    cfg.max_tokens = 300;
    let r = request(&cfg, None, None, &tone(), "texto", "curto").unwrap();
    assert_eq!(r.api_key, "k");
    assert_eq!(r.model, cfg.model);
    assert_eq!(r.max_tokens, 300);
    assert_eq!(f32::from_bits(r.temperature_bits), 0.4);
    assert!(r.stream);
    assert_eq!(r.system, system_prompt(&cfg, &tone()));
    assert_eq!(r.user, user_prompt("texto", "curto"));
}

#[test]
fn a_failed_status_is_told_with_the_start_of_its_answer() {
    assert!(is_success(200));
    assert!(is_success(299));
    assert!(!is_success(199));
    assert!(!is_success(300));
    assert_eq!(
        status_error("401 Unauthorized", Some("chave ruim")),
        "OpenRouter respondeu 401 Unauthorized: chave ruim"
    );
    assert_eq!(status_error("500", None), "OpenRouter respondeu 500: ");
    let long = "é".repeat(500);
    assert_eq!(
        status_error("500", Some(&long)),
        format!("OpenRouter respondeu 500: {}", "é".repeat(400))
    );
}

#[test]
fn json_is_read_into_values() {
    match parse(" {\"b\": [1, true, null, \"x\\u00e9\"], \"a\": {}} ") {
        Some(value) => {
            assert!(matches!(value.field("a"), Some(Json::Object(fields)) if fields.is_empty()));
            let list = value.field("b").unwrap();
            assert!(matches!(list.element(0), Some(Json::Number)));
            assert!(matches!(list.element(1), Some(Json::Bool(true))));
            assert!(matches!(list.element(2), Some(Json::Null)));
            assert_eq!(list.element(3).unwrap().as_text(), Some("xé"));
            assert!(list.element(4).is_none());
            assert!(list.field("b").is_none());
            assert!(value.element(0).is_none());
            assert!(value.field("c").is_none());
            assert!(list.as_text().is_none());
        }
        None => panic!("not read"),
    }
    assert!(parse("{").is_none());
    assert!(parse("").is_none());
    assert!(parse("oi").is_none());
}

#[test]
fn a_line_of_the_stream_carries_text() {
    let line = "data: {\"choices\":[{\"delta\":{\"content\":\"Olá\\n\"}}]}";
    assert_eq!(delta(line_event(line)), "Olá\n");
    assert_eq!(delta(line_event(&line.replace("data: ", "data:"))), "Olá\n");
}

#[test]
fn lines_without_text_are_skipped() {
    for line in [
        "",
        ": OPENROUTER PROCESSING",
        "event: message",
        " data: {}",
        "data:",
        "data:   ",
        "data: nada",
        "data: {\"choices\":[]}",
        "data: {\"choices\":[{\"delta\":{}}]}",
        "data: {\"choices\":[{\"delta\":{\"content\":\"\"}}]}",
        "data: {\"choices\":[{\"delta\":{\"content\":null}}]}",
        "data: {\"choices\":{\"0\":{\"delta\":{\"content\":\"x\"}}}}",
        "data: [DONE] x",
    ] {
        assert!(matches!(line_event(line), LineEvent::Skip), "{line}");
    }
    assert!(matches!(line_event("data: [DONE]"), LineEvent::Stop));
    assert!(matches!(line_event("data:[DONE]  "), LineEvent::Stop));
}

#[test]
fn an_error_of_the_service_wins_over_its_text() {
    assert_eq!(
        failure(line_event(
            "data: {\"error\":{\"message\":\"sem saldo\"},\"choices\":[{\"delta\":{\"content\":\"x\"}}]}"
        )),
        "OpenRouter: sem saldo"
    );
    assert_eq!(
        failure(line_event("data: {\"error\":{\"message\":5}}")),
        "OpenRouter: erro desconhecido"
    );
    assert_eq!(failure(line_event("data: {\"error\":null}")), "OpenRouter: erro desconhecido");
}

#[test]
fn a_chunk_is_read_without_its_text() {
    let content = |s: &str| {
        Json::Object(vec![(
            "choices".to_string(),
            Json::Array(vec![Json::Object(vec![(
                "delta".to_string(),
                Json::Object(vec![("content".to_string(), Json::Text(s.to_string()))]),
            )])]),
        )])
    };
    assert_eq!(delta(chunk_event(&content("oi"))), "oi");
    assert!(matches!(chunk_event(&content("")), LineEvent::Skip));
    assert!(matches!(chunk_event(&Json::Null), LineEvent::Skip));
}

#[test]
fn a_stream_ends_once() {
    let text = "data: {\"choices\":[{\"delta\":{\"content\":\"a\"}}]}";
    let mut stream = Stream::new();
    assert!(matches!(stream.feed(text), Some(Msg::Delta(s)) if s == "a"));
    assert!(stream.feed("").is_none());
    assert!(stream.open);
    assert!(matches!(stream.feed("data: [DONE]"), Some(Msg::Done)));
    assert!(!stream.open);
    assert!(stream.feed(text).is_none());
    assert!(stream.finish(None).is_none());

    let mut broken = Stream::new();
    assert!(matches!(broken.finish(Some("rede".to_string())), Some(Msg::Error(e)) if e == "rede"));
    assert!(broken.finish(None).is_none());

    let mut short = Stream::new();
    assert!(matches!(short.finish(None), Some(Msg::Done)));

    let mut failed = Stream::new();
    assert!(matches!(failed.feed("data: {\"error\":{}}"), Some(Msg::Error(_))));
    assert!(failed.finish(None).is_none());
}

fn args(list: &[&str]) -> Vec<String> {
    list.iter().map(|s| s.to_string()).collect()
}

#[test]
fn the_first_argument_decides() {
    assert!(matches!(command(&args(&[])), Command::Gui));
    assert!(matches!(command(&args(&["--config-path", "x"])), Command::ConfigPath));
    match command(&args(&["--improve", "um", "dois  três"])) {
        Command::Improve(s) => assert_eq!(s, "um dois  três"),
        other => panic!("{other:?}"),
    }
    assert!(matches!(command(&args(&["--improve"])), Command::Improve(s) if s.is_empty()));
    assert!(matches!(command(&args(&["-h"])), Command::Unknown(s) if s == "-h"));
    assert_eq!(unknown_argument("-h"), "argumento desconhecido: -h");
    assert!(!has_text(" \n"));
    assert!(has_text(" a "));
}

#[test]
fn messages_are_printed() {
    assert!(matches!(print_of(Msg::Delta("a".to_string())), Print::Answer(s) if s == "a"));
    assert!(matches!(print_of(Msg::Done), Print::Answer(s) if s == "\n"));
    assert!(matches!(print_of(Msg::Error("x".to_string())), Print::Failure(s) if s == "\nerro: x"));
}

#[test]
fn a_broken_configuration_starts_with_the_defaults() {
    let mut cfg = Config::default(MODEL);
    cfg.model = "m".to_string();
    let (kept, none) = startup(Ok(cfg), MODEL);
    assert_eq!(kept.model, "m");
    assert_eq!(none, None);
    let (fresh, told) = startup(Err("parseando x".to_string()), MODEL);
    assert_eq!(fresh.hotkey, "ctrl+b");
    assert_eq!(fresh.model, "fornecedor/modelo");
    assert_eq!(told.unwrap(), "config: parseando x");
}
