//! The configuration: the keys of the service, the shortcuts and the tones.

use crate::text;
use crate::text::{equals_ignoring_case, is_blank, trim};
use vstd::prelude::*;

verus! {

pub const OPENROUTER_URL: &'static str = "https://openrouter.ai/api/v1/chat/completions";

pub const API_KEY_ENV: &'static str = "OPENROUTER_API_KEY";

/// Points the configuration to another file, for a portable installation.
pub const CONFIG_PATH_ENV: &'static str = "BETTER_ANSWER_CONFIG";

/// The name of the tone that the ticket shortcut uses. It is found by name, because the list of
/// tones can be edited: an index moves, the name stays.
pub const TICKET_TONE: &'static str = "Chamado";

/// The directory of the configuration, below the user's directory of configurations.
pub const CONFIG_DIR: &'static str = "better-answer";

pub const CONFIG_FILE: &'static str = "config.toml";

/// What every prompt starts with.
pub const BASE_RULES: &'static str = "\
Voce reescreve textos de trabalho. Regras invioláveis:
- Responda APENAS com o texto reescrito. Sem preâmbulo, sem explicação, sem aspas em volta, sem blocos de código, sem markdown de enfeite.
- Escreva no MESMO idioma do texto original.
- Preserve todos os fatos, números, nomes, datas, prazos e links. Nunca invente informação que não esteja no original.
- Se o original é uma pergunta, o resultado continua sendo uma pergunta.
- Mantenha o tamanho proporcional ao original: melhore a forma, não infle o conteúdo.
- Tire agressividade, ironia, passivo-agressivo e desabafo. Mantenha a firmeza e o pedido claro.
- Não use jargão corporativo vazio nem elogio bajulador.";

pub const LEADER_PROMPT: &'static str = "\
Reescreva como um líder que a equipe respeita e gosta de verdade: seguro, humano e direto ao ponto.
- Comece pelo contexto ou pelo reconhecimento honesto do trabalho de quem está do outro lado, em uma linha, sem bajulação.
- Deixe explícito o que precisa acontecer, quem faz e até quando (se o original disser).
- Assuma responsabilidade em vez de apontar culpado: fale do problema e da solução, não da pessoa.
- Trate discordância com respeito: valide o ponto do outro antes de apresentar o seu.
- Feche com abertura real para dúvida ou ajuda.";

pub const EMAIL_PROMPT: &'static str = "\
Reescreva como um e-mail corporativo formal e cordial em português do Brasil.
- Estrutura: saudação, um parágrafo de contexto, o pedido/informação principal, próximos passos, encerramento cortês.
- Sugira uma linha de assunto na primeira linha, no formato 'Assunto: ...', seguida de uma linha em branco.
- Trate por 'você' (ou o pronome já usado no original). Sem gírias, sem emoji, sem abreviação de chat.
- Parágrafos curtos. Use lista com hífen só se o original tiver vários itens.";

pub const DIRECT_PROMPT: &'static str = "\
Reescreva curto, claro e educado, do jeito que um sênior ocupado escreveria.
- Vá ao ponto na primeira frase. Corte rodeio, desculpa desnecessária e preenchimento.
- No máximo um parágrafo curto, ou uma lista de bullets se houver mais de um item.
- Continue gentil: 'direto' não é seco nem ríspido.";

pub const CHAT_PROMPT: &'static str = "\
Reescreva como mensagem de chat de trabalho (Teams, Slack, WhatsApp corporativo).
- Tom leve, profissional e simpático. Frases curtas, sem parágrafo longo.
- Sem saudação formal de e-mail nem assinatura.
- No máximo um emoji, e só se combinar com o original.";

pub const TICKET_PROMPT: &'static str = "\
Reescreva como um chamado informativo: o texto serve para REGISTRAR e INFORMAR uma ocorrência para quem cuida do sistema (suporte, TI, equipe responsável). É informe, não pedido.
- Primeira linha: 'Ocorrência: <resumo em uma frase>'. Depois uma linha em branco.
- Em seguida, apenas os rótulos que o original de fato informa, um por linha, nesta ordem: 'Quando', 'Onde' (sistema, tela, módulo, empresa/filial), 'O que aconteceu', 'Mensagem de erro', 'Como reproduzir' (passos numerados, se houver), 'Impacto', 'Já verificado'.
- Rótulo sem informação no original é omitido. Não invente data, horário, versão, código, quantidade nem causa provável. Se algo essencial faltar, não preencha: apenas não escreva a linha.
- Mensagem de erro, código, ID, número de documento, caminho de arquivo e nome de tela vão transcritos igual ao original, sem reescrita.
- Tom neutro de registro: fato observado, não reclamação nem desabafo. Sem cobrança de prazo e sem urgência que o original não pediu.
- Feche com uma linha curta se colocando à disposição para mais detalhes, só se o original não tiver um encerramento próprio.";

pub const FEEDBACK_PROMPT: &'static str = "\
Reescreva como um feedback difícil dado por um líder que as pessoas confiam.
- Fato observado -> impacto concreto -> o que se espera daqui pra frente. Nessa ordem.
- Fale de comportamento e resultado, nunca de caráter ou personalidade.
- Sem sanduíche de elogio falso e sem ameaça velada.
- Termine convidando para a resposta do outro lado.";

/// A way to rewrite.
#[derive(Debug)]
pub struct Tone {
    pub name: String,
    pub prompt: String,
}

/// The model of a [`Tone`].
pub struct ToneView {
    pub name: Seq<char>,
    pub prompt: Seq<char>,
}

impl View for Tone {
    type V = ToneView;

    open spec fn view(&self) -> ToneView {
        ToneView { name: self.name@, prompt: self.prompt@ }
    }
}

impl Clone for Tone {
    fn clone(&self) -> (r: Self)
        ensures
            r == *self,
    {
        Tone { name: self.name.clone(), prompt: self.prompt.clone() }
    }
}

/// The models of the tones of a list.
pub open spec fn tone_views(tones: Seq<Tone>) -> Seq<ToneView> {
    tones.map_values(|t: Tone| t@)
}

/// The settings of the user.
#[derive(Debug)]
pub struct Config {
    /// The key of the service. Where it is empty, the environment variable gives it.
    pub api_key: String,
    pub model: String,
    /// Opens the popup.
    pub hotkey: String,
    /// Improves with the default tone and pastes, with nothing but the progress box. Empty turns it
    /// off.
    pub quick_hotkey: String,
    /// Opens the popup with the tone of tickets. Empty turns it off.
    pub ticket_hotkey: String,
    /// The bits of the temperature, as a binary32 number.
    pub temperature_bits: u32,
    pub max_tokens: u32,
    /// The name used where the text asks for a signature.
    pub signature: String,
    /// An instruction added to every tone.
    pub extra_context: String,
    /// The tones. The first is the default one.
    pub tones: Vec<Tone>,
}

/// The model of a [`Config`].
pub struct ConfigView {
    pub api_key: Seq<char>,
    pub model: Seq<char>,
    pub hotkey: Seq<char>,
    pub quick_hotkey: Seq<char>,
    pub ticket_hotkey: Seq<char>,
    pub temperature_bits: u32,
    pub max_tokens: u32,
    pub signature: Seq<char>,
    pub extra_context: Seq<char>,
    pub tones: Seq<ToneView>,
}

impl View for Config {
    type V = ConfigView;

    open spec fn view(&self) -> ConfigView {
        ConfigView {
            api_key: self.api_key@,
            model: self.model@,
            hotkey: self.hotkey@,
            quick_hotkey: self.quick_hotkey@,
            ticket_hotkey: self.ticket_hotkey@,
            temperature_bits: self.temperature_bits,
            max_tokens: self.max_tokens,
            signature: self.signature@,
            extra_context: self.extra_context@,
            tones: tone_views(self.tones@),
        }
    }
}

impl Clone for Config {
    fn clone(&self) -> (r: Self)
        ensures
            r@ == self@,
    {
        let tones = self.tones.clone();
        assert(tone_views(tones@) =~= tone_views(self.tones@));
        Config {
            api_key: self.api_key.clone(),
            model: self.model.clone(),
            hotkey: self.hotkey.clone(),
            quick_hotkey: self.quick_hotkey.clone(),
            ticket_hotkey: self.ticket_hotkey.clone(),
            temperature_bits: self.temperature_bits,
            max_tokens: self.max_tokens,
            signature: self.signature.clone(),
            extra_context: self.extra_context.clone(),
            tones,
        }
    }
}

/// The bits of the default temperature, 0.4.
pub const DEFAULT_TEMPERATURE_BITS: u32 = 0x3ECC_CCCD;

pub const DEFAULT_MAX_TOKENS: u32 = 2000;

/// The least number of tokens that the settings offer.
pub const LEAST_TOKENS: u32 = 256;

/// The greatest number of tokens that the settings offer.
pub const MOST_TOKENS: u32 = 8000;

/// The configuration of a first run, with the model that answers unless another one is configured.
/// That model comes with the installation: no name of one is fixed here.
pub open spec fn default_config(model: Seq<char>) -> ConfigView {
    ConfigView {
        api_key: Seq::empty(),
        model,
        hotkey: "ctrl+b"@,
        quick_hotkey: "ctrl+s"@,
        ticket_hotkey: "ctrl+d"@,
        temperature_bits: DEFAULT_TEMPERATURE_BITS,
        max_tokens: DEFAULT_MAX_TOKENS,
        signature: Seq::empty(),
        extra_context: Seq::empty(),
        tones: shipped_tones(),
    }
}

impl Config {
    /// The configuration of a first run, with the model that answers by default.
    pub fn default(model: &str) -> (r: Self)
        ensures
            r@ == default_config(model@),
    {
        Config {
            api_key: String::new(),
            model: model.to_owned(),
            hotkey: "ctrl+b".to_owned(),
            quick_hotkey: "ctrl+s".to_owned(),
            ticket_hotkey: "ctrl+d".to_owned(),
            temperature_bits: DEFAULT_TEMPERATURE_BITS,
            max_tokens: DEFAULT_MAX_TOKENS,
            signature: String::new(),
            extra_context: String::new(),
            tones: default_tones(),
        }
    }
}

/// What a configuration file says: any field can be missing.
#[derive(Debug)]
pub struct PartialConfig {
    pub api_key: Option<String>,
    pub model: Option<String>,
    pub hotkey: Option<String>,
    pub quick_hotkey: Option<String>,
    pub ticket_hotkey: Option<String>,
    pub temperature_bits: Option<u32>,
    pub max_tokens: Option<u32>,
    pub signature: Option<String>,
    pub extra_context: Option<String>,
    pub tones: Option<Vec<Tone>>,
}

/// The text of a field, or the default where the field is missing.
pub open spec fn field_or(field: Option<String>, default: Seq<char>) -> Seq<char> {
    match field {
        Some(s) => s@,
        None => default,
    }
}

impl PartialConfig {
    /// The configuration that the file stands for: what is missing is as in the default one.
    pub open spec fn filled(&self, model: Seq<char>) -> ConfigView {
        ConfigView {
            api_key: field_or(self.api_key, default_config(model).api_key),
            model: field_or(self.model, default_config(model).model),
            hotkey: field_or(self.hotkey, default_config(model).hotkey),
            quick_hotkey: field_or(self.quick_hotkey, default_config(model).quick_hotkey),
            ticket_hotkey: field_or(self.ticket_hotkey, default_config(model).ticket_hotkey),
            temperature_bits: match self.temperature_bits {
                Some(bits) => bits,
                None => DEFAULT_TEMPERATURE_BITS,
            },
            max_tokens: match self.max_tokens {
                Some(n) => n,
                None => DEFAULT_MAX_TOKENS,
            },
            signature: field_or(self.signature, default_config(model).signature),
            extra_context: field_or(self.extra_context, default_config(model).extra_context),
            tones: match self.tones {
                Some(tones) => tone_views(tones@),
                None => shipped_tones(),
            },
        }
    }

    /// No field is missing.
    pub open spec fn is_complete(&self) -> bool {
        &&& self.api_key is Some
        &&& self.model is Some
        &&& self.hotkey is Some
        &&& self.quick_hotkey is Some
        &&& self.ticket_hotkey is Some
        &&& self.temperature_bits is Some
        &&& self.max_tokens is Some
        &&& self.signature is Some
        &&& self.extra_context is Some
        &&& self.tones is Some
    }

    /// No field is there.
    pub open spec fn is_empty(&self) -> bool {
        &&& self.api_key is None
        &&& self.model is None
        &&& self.hotkey is None
        &&& self.quick_hotkey is None
        &&& self.ticket_hotkey is None
        &&& self.temperature_bits is None
        &&& self.max_tokens is None
        &&& self.signature is None
        &&& self.extra_context is None
        &&& self.tones is None
    }

    /// Fills the missing fields with the defaults.
    pub fn fill(self, model: &str) -> (r: Config)
        ensures
            r@ == self.filled(model@),
    {
        let base = Config::default(model);
        Config {
            api_key: self.api_key.unwrap_or(base.api_key),
            model: self.model.unwrap_or(base.model),
            hotkey: self.hotkey.unwrap_or(base.hotkey),
            quick_hotkey: self.quick_hotkey.unwrap_or(base.quick_hotkey),
            ticket_hotkey: self.ticket_hotkey.unwrap_or(base.ticket_hotkey),
            temperature_bits: self.temperature_bits.unwrap_or(base.temperature_bits),
            max_tokens: self.max_tokens.unwrap_or(base.max_tokens),
            signature: self.signature.unwrap_or(base.signature),
            extra_context: self.extra_context.unwrap_or(base.extra_context),
            tones: self.tones.unwrap_or(base.tones),
        }
    }
}

/// Where the configuration lies.
#[derive(Debug)]
pub enum ConfigPath {
    /// In the file that the environment names.
    Custom(String),
    /// In [`CONFIG_DIR`] and [`CONFIG_FILE`] below the user's directory of configurations.
    Default,
}

/// The model of a [`ConfigPath`].
pub enum ConfigPathView {
    Custom(Seq<char>),
    Default,
}

impl View for ConfigPath {
    type V = ConfigPathView;

    open spec fn view(&self) -> ConfigPathView {
        match self {
            ConfigPath::Custom(file) => ConfigPathView::Custom(file@),
            ConfigPath::Default => ConfigPathView::Default,
        }
    }
}

/// Where the configuration lies, if there is a place for it.
pub open spec fn located(custom: Option<Seq<char>>, has_config_dir: bool) -> Option<
    ConfigPathView,
> {
    match custom {
        Some(file) if !text::blank(file) => Some(ConfigPathView::Custom(text::trimmed(file))),
        _ => if has_config_dir {
            Some(ConfigPathView::Default)
        } else {
            None
        },
    }
}

/// The user has no directory of configurations.
#[derive(Debug)]
pub struct NoConfigDir;

impl NoConfigDir {
    /// The message for the user.
    pub fn to_string(&self) -> (r: String)
        ensures
            r@ == "nao consegui achar o diretorio de config do usuario"@,
    {
        "nao consegui achar o diretorio de config do usuario".to_owned()
    }
}

/// A configuration ready for use.
#[derive(Debug)]
pub struct Loaded {
    pub config: Config,
    /// The file does not exist yet and is to be written.
    pub save: bool,
}

/// `name` is the name of the ticket tone, but for case and white space around it.
pub open spec fn is_ticket(name: Seq<char>) -> bool {
    text::lower(text::trimmed(name)) == text::lower(TICKET_TONE@)
}

/// Where the first ticket tone stands.
pub open spec fn ticket_position(tones: Seq<ToneView>) -> Option<nat>
    decreases tones.len(),
{
    if tones.len() == 0 {
        None
    } else {
        match ticket_position(tones.drop_last()) {
            Some(i) => Some(i),
            None => if is_ticket(tones.last().name) {
                Some((tones.len() - 1) as nat)
            } else {
                None
            },
        }
    }
}

/// The tone that the ticket shortcut uses: the first ticket tone, or the default one without it.
pub open spec fn ticket_index(tones: Seq<ToneView>) -> nat {
    match ticket_position(tones) {
        Some(i) => i,
        None => 0,
    }
}

/// The configuration with a ticket tone, added at the end where there was none.
pub open spec fn with_ticket_tone(cfg: ConfigView) -> ConfigView {
    if ticket_position(cfg.tones) is Some {
        cfg
    } else {
        ConfigView {
            tones: cfg.tones.push(ToneView { name: TICKET_TONE@, prompt: TICKET_PROMPT@ }),
            ..cfg
        }
    }
}

/// The tone at `index`; without it the first tone; without any the first of the shipped ones.
pub open spec fn tone_at(tones: Seq<ToneView>, index: nat) -> ToneView {
    if index < tones.len() {
        tones[index as int]
    } else if tones.len() > 0 {
        tones[0]
    } else {
        shipped_tones()[0]
    }
}

/// The configuration of a file, or of a first run, and whether it is to be saved.
pub open spec fn loaded(found: Option<PartialConfig>, model: Seq<char>) -> (ConfigView, bool) {
    match found {
        Some(fields) => (with_ticket_tone(fields.filled(model)), false),
        None => (default_config(model), true),
    }
}

/// The key to use: that of the environment, else that of the file; a blank one counts as missing.
pub open spec fn resolved_key(env: Option<Seq<char>>, file: Seq<char>) -> Option<Seq<char>> {
    match env {
        Some(key) if !text::blank(key) => Some(text::trimmed(key)),
        _ => if text::blank(file) {
            None
        } else {
            Some(text::trimmed(file))
        },
    }
}

impl Config {
    /// Where the configuration lies, from the value of [`CONFIG_PATH_ENV`] and from whether the
    /// user has a directory of configurations.
    pub fn path(custom: Option<&str>, has_config_dir: bool) -> (r: Result<ConfigPath, NoConfigDir>)
        ensures
            match r {
                Ok(path) => located(text::opt_view(custom), has_config_dir) == Some(path@),
                Err(_) => located(text::opt_view(custom), has_config_dir) is None,
            },
    {
        if let Some(file) = custom {
            if !is_blank(file) {
                return Ok(ConfigPath::Custom(trim(file).to_owned()));
            }
        }
        if has_config_dir {
            Ok(ConfigPath::Default)
        } else {
            Err(NoConfigDir)
        }
    }

    /// The configuration of a file, or the default one, to be saved, where there is no file.
    pub fn load_or_create(found: Option<PartialConfig>, model: &str) -> (r: Loaded)
        ensures
            (r.config@, r.save) == loaded(found, model@),
    {
        match found {
            Some(fields) => {
                let mut config = fields.fill(model);
                config.ensure_ticket_tone();
                Loaded { config, save: false }
            },
            None => Loaded { config: Config::default(model), save: true },
        }
    }

    /// The fields of the file that stands for the configuration. None of them is left out.
    pub fn save(&self) -> (r: PartialConfig)
        ensures
            r.is_complete(),
            forall|model: Seq<char>| #[trigger] r.filled(model) == self@,
    {
        let cfg = self.clone();
        PartialConfig {
            api_key: Some(cfg.api_key),
            model: Some(cfg.model),
            hotkey: Some(cfg.hotkey),
            quick_hotkey: Some(cfg.quick_hotkey),
            ticket_hotkey: Some(cfg.ticket_hotkey),
            temperature_bits: Some(cfg.temperature_bits),
            max_tokens: Some(cfg.max_tokens),
            signature: Some(cfg.signature),
            extra_context: Some(cfg.extra_context),
            tones: Some(cfg.tones),
        }
    }

    /// The key to use, from the value of [`API_KEY_ENV`]. The environment wins, so that nobody has
    /// to keep a secret on disk.
    pub fn resolved_api_key(&self, env: Option<&str>) -> (r: Option<String>)
        ensures
            text::opt_string(r) == resolved_key(text::opt_view(env), self@.api_key),
    {
        if let Some(key) = env {
            if !is_blank(key) {
                return Some(trim(key).to_owned());
            }
        }
        let key = self.api_key.as_str();
        if is_blank(key) {
            None
        } else {
            Some(trim(key).to_owned())
        }
    }

    /// Where the first ticket tone stands.
    fn find_ticket_tone(&self) -> (r: Option<usize>)
        ensures
            match r {
                Some(i) => i < self.tones@.len() && ticket_position(self@.tones) == Some(i as nat),
                None => ticket_position(self@.tones) is None,
            },
    {
        let mut i: usize = 0;
        let ghost all = self@.tones;
        while i < self.tones.len()
            invariant
                i <= self.tones@.len(),
                all == self@.tones,
                ticket_position(all.take(i as int)) is None,
            decreases self.tones@.len() - i,
        {
            assert(all.take(i + 1).drop_last() =~= all.take(i as int));
            if equals_ignoring_case(trim(self.tones[i].name.as_str()), TICKET_TONE) {
                proof {
                    lemma_ticket_position_stays(all, i + 1);
                }
                return Some(i);
            }
            i = i + 1;
        }
        assert(all.take(i as int) =~= all);
        None
    }

    /// The index of the ticket tone: that of the first tone where the ticket tone was taken out of
    /// the list.
    pub fn ticket_tone_index(&self) -> (r: usize)
        ensures
            r == ticket_index(self@.tones),
            r < self.tones@.len() || r == 0,
    {
        self.find_ticket_tone().unwrap_or(0)
    }

    /// Adds the ticket tone to a list that lacks it.
    pub fn ensure_ticket_tone(&mut self)
        ensures
            final(self)@ == with_ticket_tone(old(self)@),
    {
        if self.find_ticket_tone().is_some() {
            return;
        }
        let ghost before = self@.tones;
        self.tones.push(ticket_tone());
        assert(self@.tones =~= before.push(
            ToneView { name: TICKET_TONE@, prompt: TICKET_PROMPT@ },
        ));
    }

    /// The tone at `index`. A list without it gives its first tone, and an empty list the first of
    /// the shipped ones.
    pub fn tone(&self, index: usize) -> (r: Tone)
        ensures
            r@ == tone_at(self@.tones, index as nat),
    {
        if index < self.tones.len() {
            self.tones[index].clone()
        } else if self.tones.len() > 0 {
            self.tones[0].clone()
        } else {
            let tones = default_tones();
            assert(tones@.len() == shipped_tones().len());
            assert(tones@[0]@ == shipped_tones()[0]);
            tones[0].clone()
        }
    }
}

/// The position of the first ticket tone does not depend on what follows it.
proof fn lemma_ticket_position_stays(tones: Seq<ToneView>, n: int)
    requires
        0 <= n <= tones.len(),
        ticket_position(tones.take(n)) is Some,
    ensures
        ticket_position(tones) == ticket_position(tones.take(n)),
    decreases tones.len(),
{
    if n < tones.len() {
        assert(tones.drop_last().take(n) =~= tones.take(n));
        lemma_ticket_position_stays(tones.drop_last(), n);
    } else {
        assert(tones.take(n) =~= tones);
    }
}

/// The ticket tone is the first one of its name.
pub proof fn ticket_tone_is_the_first(tones: Seq<ToneView>)
    ensures
        match ticket_position(tones) {
            Some(i) => i < tones.len() && is_ticket(tones[i as int].name) && forall|j: int|
                0 <= j < i ==> !is_ticket((#[trigger] tones[j]).name),
            None => forall|j: int| 0 <= j < tones.len() ==> !is_ticket((#[trigger] tones[j]).name),
        },
    decreases tones.len(),
{
    if tones.len() > 0 {
        let before = tones.drop_last();
        ticket_tone_is_the_first(before);
        assert forall|j: int| 0 <= j < before.len() implies before[j] == #[trigger] tones[j] by {}
    }
}

/// The shipped name counts as the name of the ticket tone.
proof fn lemma_shipped_name_is_ticket()
    ensures
        is_ticket(TICKET_TONE@),
{
    reveal_strlit("Chamado");
    let name = TICKET_TONE@;
    assert(!text::is_white(name[0]));
    assert(!text::is_white(name.last()));
}

/// Once ensured, the list has a ticket tone, and the ticket shortcut finds it.
pub proof fn ensured_config_has_ticket_tone(cfg: ConfigView)
    ensures
        ticket_position(with_ticket_tone(cfg).tones) is Some,
        is_ticket(
            tone_at(
                with_ticket_tone(cfg).tones,
                ticket_index(with_ticket_tone(cfg).tones),
            ).name,
        ),
{
    lemma_shipped_name_is_ticket();
    let after = with_ticket_tone(cfg).tones;
    if ticket_position(cfg.tones) is None {
        assert(after.drop_last() =~= cfg.tones);
    }
    ticket_tone_is_the_first(after);
}

/// Ensuring the ticket tone twice adds no second copy.
pub proof fn ensuring_is_idempotent(cfg: ConfigView)
    ensures
        with_ticket_tone(with_ticket_tone(cfg)) == with_ticket_tone(cfg),
{
    ensured_config_has_ticket_tone(cfg);
}

/// Ensuring the ticket tone keeps every tone at its index, and all that is not a tone.
pub proof fn ensuring_keeps_the_rest(cfg: ConfigView)
    ensures
        cfg.tones.is_prefix_of(with_ticket_tone(cfg).tones),
        with_ticket_tone(cfg) == (ConfigView { tones: with_ticket_tone(cfg).tones, ..cfg }),
{
}

/// The default configuration lacks nothing: ensuring the ticket tone leaves it as it is.
pub proof fn default_config_is_complete(model: Seq<char>)
    ensures
        with_ticket_tone(default_config(model)) == default_config(model),
        tone_at(shipped_tones(), ticket_index(shipped_tones())) == (ToneView {
            name: TICKET_TONE@,
            prompt: TICKET_PROMPT@,
        }),
{
    lemma_shipped_name_is_ticket();
    let tones = shipped_tones();
    ticket_tone_is_the_first(tones);
    assert(is_ticket(tones[4].name));
    lemma_other_shipped_names();
}

/// No shipped tone before the ticket tone has its name.
proof fn lemma_other_shipped_names()
    ensures
        forall|j: int| 0 <= j < 4 ==> !is_ticket((#[trigger] shipped_tones()[j]).name),
{
    reveal_strlit("Chamado");
    reveal_strlit("Líder");
    reveal_strlit("E-mail formal");
    reveal_strlit("Direto");
    reveal_strlit("Chat / Teams");
    assert forall|j: int| 0 <= j < 4 implies !is_ticket((#[trigger] shipped_tones()[j]).name) by {
        let name = shipped_tones()[j].name;
        assert(!text::is_white(name[0]));
        assert(!text::is_white(name.last()));
        assert(text::trimmed(name) == name);
        assert(text::lower(name).len() != text::lower(TICKET_TONE@).len());
    }
}

/// What was saved is loaded as it was, but for a ticket tone that was taken out of the list: that
/// one comes back, at the end.
pub proof fn saved_config_is_loaded(saved: PartialConfig, cfg: ConfigView, model: Seq<char>)
    requires
        saved.is_complete(),
        saved.filled(model) == cfg,
    ensures
        ticket_position(cfg.tones) is Some ==> with_ticket_tone(saved.filled(model)) == cfg,
        with_ticket_tone(saved.filled(model)) == (ConfigView {
            tones: with_ticket_tone(saved.filled(model)).tones,
            ..cfg
        }),
        cfg.tones.is_prefix_of(with_ticket_tone(saved.filled(model)).tones),
{
}

/// A file that says nothing stands for the default configuration.
pub proof fn empty_file_is_the_default(file: PartialConfig, model: Seq<char>)
    requires
        file.is_empty(),
    ensures
        file.filled(model) == default_config(model),
        with_ticket_tone(file.filled(model)) == default_config(model),
{
    default_config_is_complete(model);
}

/// The tone asked for is given whatever the index, and it is one of the list unless that is empty.
pub proof fn tone_never_missing(tones: Seq<ToneView>, index: nat)
    ensures
        tones.len() > 0 ==> tones.contains(tone_at(tones, index)),
        tones.len() == 0 ==> tone_at(tones, index) == shipped_tones()[0],
{
    if index < tones.len() {
        assert(tones[index as int] == tone_at(tones, index));
    }
}

/// A key in the environment wins over the one of the file.
pub proof fn environment_key_wins(env: Seq<char>, file: Seq<char>)
    requires
        !text::blank(env),
    ensures
        resolved_key(Some(env), file) == Some(text::trimmed(env)),
{
}

/// A key is never blank.
pub proof fn resolved_key_is_not_blank(env: Option<Seq<char>>, file: Seq<char>)
    ensures
        resolved_key(env, file) matches Some(key) ==> key.len() > 0 && text::trimmed(key) == key,
{
    match env {
        Some(key) => {
            text::trimmed_empty_iff_blank(key);
            text::trimmed_idempotent(key);
        },
        None => {},
    }
    text::trimmed_empty_iff_blank(file);
    text::trimmed_idempotent(file);
}

/// The shipped tones.
pub open spec fn shipped_tones() -> Seq<ToneView> {
    seq![
        ToneView { name: "Líder"@, prompt: LEADER_PROMPT@ },
        ToneView { name: "E-mail formal"@, prompt: EMAIL_PROMPT@ },
        ToneView { name: "Direto"@, prompt: DIRECT_PROMPT@ },
        ToneView { name: "Chat / Teams"@, prompt: CHAT_PROMPT@ },
        ToneView { name: TICKET_TONE@, prompt: TICKET_PROMPT@ },
        ToneView { name: "Feedback difícil"@, prompt: FEEDBACK_PROMPT@ },
    ]
}

/// The ticket tone that is shipped.
fn ticket_tone() -> (r: Tone)
    ensures
        r@ == (ToneView { name: TICKET_TONE@, prompt: TICKET_PROMPT@ }),
{
    Tone { name: TICKET_TONE.to_owned(), prompt: TICKET_PROMPT.to_owned() }
}

/// The shipped tones.
pub fn default_tones() -> (r: Vec<Tone>)
    ensures
        tone_views(r@) == shipped_tones(),
{
    let mut out: Vec<Tone> = Vec::new();
    out.push(Tone { name: "Líder".to_owned(), prompt: LEADER_PROMPT.to_owned() });
    out.push(Tone { name: "E-mail formal".to_owned(), prompt: EMAIL_PROMPT.to_owned() });
    out.push(Tone { name: "Direto".to_owned(), prompt: DIRECT_PROMPT.to_owned() });
    out.push(Tone { name: "Chat / Teams".to_owned(), prompt: CHAT_PROMPT.to_owned() });
    out.push(ticket_tone());
    out.push(Tone { name: "Feedback difícil".to_owned(), prompt: FEEDBACK_PROMPT.to_owned() });
    assert(tone_views(out@) =~= shipped_tones());
    out
}

/// A file that the environment names wins, whatever white space stands around its name. Without it
/// the configuration lies in the user's directory, and there is no place for it without that one.
pub proof fn named_file_wins(
    before: Seq<char>,
    file: Seq<char>,
    after: Seq<char>,
    white: Seq<char>,
    has_config_dir: bool,
)
    requires
        text::blank(before) && text::blank(after) && text::blank(white),
        file.len() > 0 && !text::is_white(file[0]) && !text::is_white(file.last()),
    ensures
        located(Some(before + file + after), has_config_dir) == Some(ConfigPathView::Custom(file)),
        located(None, true) == Some(ConfigPathView::Default),
        located(Some(white), true) == Some(ConfigPathView::Default),
        located(None, false) is None,
        located(Some(white), false) is None,
{
    text::trimming_gives_the_middle(before, file, after);
    let all = before + file + after;
    assert(all[before.len() as int] == file[0]);
}

/// The key of the file counts where the environment has none or a blank one; where both are missing
/// there is no key. A key counts without the white space around it.
pub proof fn key_of_the_file_comes_second(
    before: Seq<char>,
    key: Seq<char>,
    after: Seq<char>,
    white: Seq<char>,
    file: Seq<char>,
)
    requires
        text::blank(before) && text::blank(after) && text::blank(white),
        key.len() > 0 && !text::is_white(key[0]) && !text::is_white(key.last()),
    ensures
        resolved_key(Some(before + key + after), file) == Some(key),
        resolved_key(None, before + key + after) == Some(key),
        resolved_key(Some(white), before + key + after) == Some(key),
        resolved_key(None, white) is None,
        resolved_key(Some(white), white) is None,
{
    text::trimming_gives_the_middle(before, key, after);
    let all = before + key + after;
    assert(all[before.len() as int] == key[0]);
}

/// The default configuration: Ctrl with B, S and D, no key, no author, no context, the temperature
/// 0.4, two thousand tokens, and the six tones in their order.
pub proof fn default_config_is_listed(model: Seq<char>)
    ensures
        ({
            let cfg = default_config(model);
            &&& cfg.model == model
            &&& cfg.hotkey == "ctrl+b"@
            &&& cfg.quick_hotkey == "ctrl+s"@
            &&& cfg.ticket_hotkey == "ctrl+d"@
            &&& cfg.api_key.len() == 0
            &&& cfg.signature.len() == 0
            &&& cfg.extra_context.len() == 0
            &&& cfg.temperature_bits == 0x3ECC_CCCD
            &&& cfg.max_tokens == 2000
            &&& cfg.tones.len() == 6
            &&& cfg.tones[0].name == "Líder"@
            &&& cfg.tones[1].name == "E-mail formal"@
            &&& cfg.tones[2].name == "Direto"@
            &&& cfg.tones[3].name == "Chat / Teams"@
            &&& cfg.tones[4].name == "Chamado"@
            &&& cfg.tones[5].name == "Feedback difícil"@
            &&& cfg.tones[0].prompt == LEADER_PROMPT@
            &&& cfg.tones[1].prompt == EMAIL_PROMPT@
            &&& cfg.tones[2].prompt == DIRECT_PROMPT@
            &&& cfg.tones[3].prompt == CHAT_PROMPT@
            &&& cfg.tones[4].prompt == TICKET_PROMPT@
            &&& cfg.tones[5].prompt == FEEDBACK_PROMPT@
        }),
{
}

/// What a file says counts as it is, field by field; only a field that is missing takes its default,
/// whatever the other fields say.
pub proof fn fields_of_the_file_win(file: PartialConfig, model: Seq<char>)
    ensures
        file.api_key matches Some(x) ==> file.filled(model).api_key == x@,
        file.model matches Some(x) ==> file.filled(model).model == x@,
        file.hotkey matches Some(x) ==> file.filled(model).hotkey == x@,
        file.quick_hotkey matches Some(x) ==> file.filled(model).quick_hotkey == x@,
        file.ticket_hotkey matches Some(x) ==> file.filled(model).ticket_hotkey == x@,
        file.temperature_bits matches Some(x) ==> file.filled(model).temperature_bits == x,
        file.max_tokens matches Some(x) ==> file.filled(model).max_tokens == x,
        file.signature matches Some(x) ==> file.filled(model).signature == x@,
        file.extra_context matches Some(x) ==> file.filled(model).extra_context == x@,
        file.tones matches Some(x) ==> file.filled(model).tones == x@.map_values(|t: Tone| t@),
        file.api_key is None ==> file.filled(model).api_key == Seq::<char>::empty(),
        file.model is None ==> file.filled(model).model == model,
        file.hotkey is None ==> file.filled(model).hotkey == "ctrl+b"@,
        file.quick_hotkey is None ==> file.filled(model).quick_hotkey == "ctrl+s"@,
        file.ticket_hotkey is None ==> file.filled(model).ticket_hotkey == "ctrl+d"@,
        file.temperature_bits is None ==> file.filled(model).temperature_bits == 0x3ECC_CCCD,
        file.max_tokens is None ==> file.filled(model).max_tokens == 2000,
        file.signature is None ==> file.filled(model).signature == Seq::<char>::empty(),
        file.extra_context is None ==> file.filled(model).extra_context == Seq::<char>::empty(),
        file.tones is None ==> file.filled(model).tones == default_config(model).tones,
{
}

/// The name of the ticket tone counts in any case and with any white space around it, and no other
/// name does.
pub proof fn ticket_name_counts_in_any_case(before: Seq<char>, name: Seq<char>, after: Seq<char>)
    requires
        text::blank(before) && text::blank(after),
        name.len() > 0 ==> !text::is_white(name[0]) && !text::is_white(name.last()),
    ensures
        is_ticket(before + name + after) <==> text::lower(name) == "chamado"@,
{
    reveal_strlit("Chamado");
    reveal_strlit("chamado");
    text::trimming_gives_the_middle(before, name, after);
    assert(text::lower(TICKET_TONE@) =~= "chamado"@);
}

/// The ticket shortcut takes the first tone with the name of the ticket tone, wherever it stands,
/// and the first of the list where there is none.
pub proof fn ticket_shortcut_takes_the_first_of_its_name(tones: Seq<ToneView>, i: int)
    ensures
        0 <= i < tones.len() && is_ticket(tones[i].name) && (forall|j: int|
            0 <= j < i ==> !is_ticket((#[trigger] tones[j]).name)) ==> ticket_index(tones) == i,
        (forall|j: int| 0 <= j < tones.len() ==> !is_ticket((#[trigger] tones[j]).name))
            ==> ticket_index(tones) == 0,
{
    ticket_tone_is_the_first(tones);
    if 0 <= i < tones.len() && is_ticket(tones[i].name) && forall|j: int|
        0 <= j < i ==> !is_ticket((#[trigger] tones[j]).name) {
        assert(ticket_position(tones) is Some);
        let k = ticket_position(tones)->0;
        assert(is_ticket(tones[k as int].name));
    }
}

/// A list that lacks the ticket tone gets the shipped one, once, behind its own tones; a list that
/// has one is left as it is.
pub proof fn missing_ticket_tone_is_added(cfg: ConfigView)
    ensures
        (exists|j: int| 0 <= j < cfg.tones.len() && is_ticket((#[trigger] cfg.tones[j]).name))
            ==> with_ticket_tone(cfg) == cfg,
        (forall|j: int| 0 <= j < cfg.tones.len() ==> !is_ticket((#[trigger] cfg.tones[j]).name)) ==> {
            let after = with_ticket_tone(cfg).tones;
            &&& after.len() == cfg.tones.len() + 1
            &&& after.drop_last() == cfg.tones
            &&& after.last().name == "Chamado"@
            &&& after.last().prompt == TICKET_PROMPT@
        },
{
    ticket_tone_is_the_first(cfg.tones);
    if forall|j: int| 0 <= j < cfg.tones.len() ==> !is_ticket((#[trigger] cfg.tones[j]).name) {
        assert(with_ticket_tone(cfg).tones.drop_last() =~= cfg.tones);
    }
}

/// The tone asked for by its place is given; a place that does not exist gives the first tone.
pub proof fn tone_is_the_one_asked_for(tones: Seq<ToneView>, index: nat)
    ensures
        index < tones.len() ==> tone_at(tones, index) == tones[index as int],
        index >= tones.len() && tones.len() > 0 ==> tone_at(tones, index) == tones[0],
        tones.len() == 0 ==> tone_at(tones, index) == (ToneView {
            name: "Líder"@,
            prompt: LEADER_PROMPT@,
        }),
{
}

/// A first run starts with the default configuration and saves it; a file is never written over by
/// loading it, and each of its tones keeps its place.
pub proof fn loading_writes_no_file_over(fields: PartialConfig, model: Seq<char>)
    ensures
        loaded(None, model) == (default_config(model), true),
        !loaded(Some(fields), model).1,
        fields.filled(model).tones.is_prefix_of(loaded(Some(fields), model).0.tones),
        loaded(Some(fields), model).0 == (ConfigView {
            tones: loaded(Some(fields), model).0.tones,
            ..fields.filled(model)
        }),
        is_ticket(
            tone_at(
                loaded(Some(fields), model).0.tones,
                ticket_index(loaded(Some(fields), model).0.tones),
            ).name,
        ),
{
    ensured_config_has_ticket_tone(fields.filled(model));
}

/// The model of a configuration holds every field of it, and every tone in its place.
pub proof fn models_of_configurations(cfg: Config, i: int)
    ensures
        cfg@.api_key == cfg.api_key@,
        cfg@.model == cfg.model@,
        cfg@.hotkey == cfg.hotkey@,
        cfg@.quick_hotkey == cfg.quick_hotkey@,
        cfg@.ticket_hotkey == cfg.ticket_hotkey@,
        cfg@.temperature_bits == cfg.temperature_bits,
        cfg@.max_tokens == cfg.max_tokens,
        cfg@.signature == cfg.signature@,
        cfg@.extra_context == cfg.extra_context@,
        cfg@.tones.len() == cfg.tones@.len(),
        0 <= i < cfg.tones@.len() ==> cfg@.tones[i].name == cfg.tones@[i].name@
            && cfg@.tones[i].prompt == cfg.tones@[i].prompt@,
{
}

} // verus!
