use better_answer::config::{
    default_tones, Config, ConfigPath, PartialConfig, Tone, BASE_RULES, TICKET_TONE,
};
use better_answer::hotkey::parse;

/// The model that answers by default.
const MODEL: &str = "fornecedor/modelo";

fn text(table: &toml::Table, name: &str) -> Option<String> {
    table.get(name).and_then(|v| v.as_str()).map(|s| s.to_string())
}

/// The fields that a file gives.
fn fields(raw: &str) -> PartialConfig {
    let table: toml::Table = toml::from_str(raw).unwrap();
    PartialConfig {
        api_key: text(&table, "api_key"),
        model: text(&table, "model"),
        hotkey: text(&table, "hotkey"),
        quick_hotkey: text(&table, "quick_hotkey"),
        ticket_hotkey: text(&table, "ticket_hotkey"),
        temperature_bits: table
            .get("temperature")
            .and_then(|v| v.as_float())
            .map(|t| (t as f32).to_bits()),
        max_tokens: table.get("max_tokens").and_then(|v| v.as_integer()).map(|n| n as u32),
        signature: text(&table, "signature"),
        extra_context: text(&table, "extra_context"),
        tones: table.get("tones").and_then(|v| v.as_array()).map(|tones| {
            tones
                .iter()
                .map(|t| {
                    let t = t.as_table().unwrap();
                    Tone { name: text(t, "name").unwrap(), prompt: text(t, "prompt").unwrap() }
                })
                .collect()
        }),
    }
}

fn from_toml(raw: &str) -> Config {
    fields(raw).fill(MODEL)
}

fn to_table(cfg: &Config) -> toml::Table {
    let mut table = toml::Table::new();
    let mut put = |name: &str, value: &str| {
        table.insert(name.to_string(), toml::Value::String(value.to_string()));
    };
    put("api_key", &cfg.api_key);
    put("model", &cfg.model);
    put("hotkey", &cfg.hotkey);
    put("quick_hotkey", &cfg.quick_hotkey);
    put("ticket_hotkey", &cfg.ticket_hotkey);
    put("signature", &cfg.signature);
    put("extra_context", &cfg.extra_context);
    let temperature = f32::from_bits(cfg.temperature_bits) as f64;
    table.insert("temperature".to_string(), toml::Value::Float(temperature));
    table.insert("max_tokens".to_string(), toml::Value::Integer(cfg.max_tokens as i64));
    let tones = cfg
        .tones
        .iter()
        .map(|tone| {
            let mut t = toml::Table::new();
            t.insert("name".to_string(), toml::Value::String(tone.name.clone()));
            t.insert("prompt".to_string(), toml::Value::String(tone.prompt.clone()));
            toml::Value::Table(t)
        })
        .collect();
    table.insert("tones".to_string(), toml::Value::Array(tones));
    table
}

const ONE_TONE: &str = "
[[tones]]
name = \"Meu tom\"
prompt = \"reescreva\"
";

#[test]
fn defaults_ship_the_three_hotkeys() {
    let cfg = Config::default(MODEL);
    assert_eq!(cfg.hotkey, "ctrl+b");
    assert_eq!(cfg.quick_hotkey, "ctrl+s");
    assert_eq!(cfg.ticket_hotkey, "ctrl+d");
    assert!(parse(&cfg.hotkey).is_ok());
    assert!(parse(&cfg.quick_hotkey).is_ok());
    assert!(parse(&cfg.ticket_hotkey).is_ok());
}

/// A file from before the quick shortcut has to load.
#[test]
fn missing_fields_fall_back_to_defaults() {
    let cfg = from_toml("model = \"algum/modelo\"");
    assert_eq!(cfg.model, "algum/modelo");
    assert_eq!(cfg.quick_hotkey, "ctrl+s");
    assert_eq!(cfg.ticket_hotkey, "ctrl+d");
    assert!(!cfg.tones.is_empty());
}

#[test]
fn ticket_tone_ships_by_default() {
    let cfg = Config::default(MODEL);
    let index = cfg.ticket_tone_index();
    assert_eq!(cfg.tone(index).name, TICKET_TONE);
    assert!(cfg.tone(index).prompt.contains("Ocorrência"));
}

/// An old file has its tones, but not that of tickets.
#[test]
fn ticket_tone_is_added_to_old_configs() {
    let mut cfg = from_toml(ONE_TONE);
    assert_eq!(cfg.tones.len(), 1);
    cfg.ensure_ticket_tone();
    assert_eq!(cfg.tones.len(), 2);
    assert_eq!(cfg.tone(cfg.ticket_tone_index()).name, TICKET_TONE);

    // Once is enough: loading twice adds no second copy.
    cfg.ensure_ticket_tone();
    assert_eq!(cfg.tones.len(), 2);
}

/// Whoever renamed or deleted the ticket tone gets the first tone.
#[test]
fn ticket_tone_index_falls_back_when_absent() {
    let cfg = from_toml(ONE_TONE);
    assert_eq!(cfg.ticket_tone_index(), 0);
    assert_eq!(cfg.tone(cfg.ticket_tone_index()).name, "Meu tom");

    let empty = from_toml("tones = []");
    assert_eq!(empty.ticket_tone_index(), 0);
    assert!(!empty.tone(empty.ticket_tone_index()).prompt.is_empty());
}

#[test]
fn round_trips_through_toml() {
    let mut cfg = Config::default(MODEL);
    cfg.quick_hotkey = "ctrl+shift+j".to_string();
    cfg.ticket_hotkey = "ctrl+alt+d".to_string();
    let raw = toml::to_string_pretty(&to_table(&cfg)).unwrap();
    let back = from_toml(&raw);
    assert_eq!(back.quick_hotkey, "ctrl+shift+j");
    assert_eq!(back.ticket_hotkey, "ctrl+alt+d");
    assert_eq!(back.tones.len(), cfg.tones.len());
    assert_eq!(back.temperature_bits, cfg.temperature_bits);
}

/// A file with an empty list of tones must not bring the application down.
#[test]
fn tone_survives_empty_list() {
    let cfg = from_toml("tones = []");
    assert!(cfg.tones.is_empty());
    assert!(!cfg.tone(0).prompt.is_empty());
    assert!(!cfg.tone(7).prompt.is_empty());
    assert_eq!(cfg.tone(7).name, "Líder");
}

#[test]
fn default_values_are_exact() {
    let cfg = Config::default(MODEL);
    assert_eq!(cfg.model, "fornecedor/modelo");
    assert_eq!(f32::from_bits(cfg.temperature_bits), 0.4);
    assert_eq!(cfg.max_tokens, 2000);
    assert_eq!(cfg.api_key, "");
    assert_eq!(cfg.signature, "");
    assert_eq!(cfg.extra_context, "");
    let names: Vec<String> = default_tones().into_iter().map(|t| t.name).collect();
    assert_eq!(
        names,
        ["Líder", "E-mail formal", "Direto", "Chat / Teams", "Chamado", "Feedback difícil"]
    );
    assert!(BASE_RULES.starts_with("Voce reescreve textos de trabalho."));
    assert!(BASE_RULES.ends_with("nem elogio bajulador."));
}

#[test]
fn a_tone_past_the_end_is_the_first() {
    let cfg = Config::default(MODEL);
    assert_eq!(cfg.tone(2).name, "Direto");
    assert_eq!(cfg.tone(99).name, "Líder");
}

#[test]
fn the_ticket_tone_is_found_by_name() {
    let mut cfg = Config::default(MODEL);
    cfg.tones[1].name = "  CHAMADO ".to_string();
    assert_eq!(cfg.ticket_tone_index(), 1);
    let before = cfg.tones.len();
    cfg.ensure_ticket_tone();
    assert_eq!(cfg.tones.len(), before);
}

#[test]
fn the_environment_key_wins() {
    let mut cfg = Config::default(MODEL);
    assert_eq!(cfg.resolved_api_key(None), None);
    assert_eq!(cfg.resolved_api_key(Some("  ")), None);
    cfg.api_key = " do-arquivo\n".to_string();
    assert_eq!(cfg.resolved_api_key(None).as_deref(), Some("do-arquivo"));
    assert_eq!(cfg.resolved_api_key(Some(" ")).as_deref(), Some("do-arquivo"));
    assert_eq!(cfg.resolved_api_key(Some(" do-ambiente ")).as_deref(), Some("do-ambiente"));
}

#[test]
fn the_environment_can_name_the_file() {
    match Config::path(Some(" /tmp/x.toml "), false) {
        Ok(ConfigPath::Custom(path)) => assert_eq!(path, "/tmp/x.toml"),
        other => panic!("{other:?}"),
    }
    assert!(matches!(Config::path(Some("  "), true), Ok(ConfigPath::Default)));
    assert!(matches!(Config::path(None, true), Ok(ConfigPath::Default)));
    let err = Config::path(None, false).unwrap_err();
    assert_eq!(err.to_string(), "nao consegui achar o diretorio de config do usuario");
}

#[test]
fn a_first_run_saves_the_defaults() {
    let first = Config::load_or_create(None, MODEL);
    assert!(first.save);
    assert_eq!(first.config.hotkey, "ctrl+b");
    assert_eq!(first.config.model, "fornecedor/modelo");

    let later = Config::load_or_create(Some(fields(ONE_TONE)), MODEL);
    assert!(!later.save);
    assert_eq!(later.config.model, "fornecedor/modelo");
    assert_eq!(later.config.tones.len(), 2);
    assert_eq!(later.config.tones[0].name, "Meu tom");
    assert_eq!(later.config.tones[1].name, TICKET_TONE);
}

#[test]
fn a_copy_is_the_same() {
    let mut cfg = Config::default(MODEL);
    cfg.signature = "Ana".to_string();
    let copy = cfg.clone();
    assert_eq!(copy.signature, "Ana");
    assert_eq!(copy.tones.len(), 6);
    assert_eq!(copy.tones[5].prompt, cfg.tones[5].prompt);
}

#[test]
fn what_is_saved_is_loaded() {
    let mut cfg = Config::default(MODEL);
    cfg.api_key = "k".to_string();
    cfg.model = "m".to_string();
    cfg.temperature_bits = 1.0f32.to_bits();
    cfg.max_tokens = 300;
    cfg.signature = "Ana".to_string();
    cfg.extra_context = "contexto".to_string();
    cfg.tones.truncate(5);
    let loaded = Config::load_or_create(Some(cfg.save()), MODEL);
    assert!(!loaded.save);
    let back = loaded.config;
    assert_eq!(back.api_key, "k");
    assert_eq!(back.model, "m");
    assert_eq!(back.hotkey, "ctrl+b");
    assert_eq!(f32::from_bits(back.temperature_bits), 1.0);
    assert_eq!(back.max_tokens, 300);
    assert_eq!(back.signature, "Ana");
    assert_eq!(back.extra_context, "contexto");
    assert_eq!(back.tones.len(), 5);

    cfg.tones.truncate(4);
    let back = Config::load_or_create(Some(cfg.save()), MODEL).config;
    assert_eq!(back.tones.len(), 5);
    assert_eq!(back.tones[4].name, TICKET_TONE);
}
