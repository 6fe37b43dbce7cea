use vstd::prelude::*;

use crate::text::{copy_text, same_text};

verus! {

/// The views of a sequence of strings.
pub open spec fn texts(v: Seq<String>) -> Seq<Seq<char>> {
    v.map_values(|s: String| s@)
}

/// Which external agent CLI (or the built-in echo client) a deployment uses.
#[derive(Debug, Clone, Copy, PartialEq, Eq, Structural)]
pub enum ProviderKind {
    Gemini,
    Codex,
    Dummy,
}

/// Failures of the language-model layer.
#[derive(Debug, Clone)]
pub enum LlmError {
    ProviderNotConfigured,
    UnknownProvider(String),
    StreamFailure(String),
}

/// Name for what `str::to_lowercase` returns: the Unicode lower-case mapping
/// of each character.
pub uninterp spec fn lower_of(s: Seq<char>) -> Seq<char>;

/// Relies on `str::to_lowercase`: the result depends on the characters alone.
#[verifier::external_body]
fn lowercase(s: &str) -> (r: String)
    ensures
        r@ == lower_of(s@),
{
    s.to_lowercase()
}

/// The provider that a lower-case configuration name denotes, if any.
pub open spec fn provider_named(name: Seq<char>) -> Option<ProviderKind> {
    if name == "gemini"@ {
        Some(ProviderKind::Gemini)
    } else if name == "codex"@ {
        Some(ProviderKind::Codex)
    } else if name == "dummy"@ {
        Some(ProviderKind::Dummy)
    } else {
        None
    }
}

impl ProviderKind {
    /// Resolves an already lower-cased provider name.
    pub fn from_lowercase_name(name: &str) -> (r: Result<ProviderKind, LlmError>)
        ensures
            match provider_named(name@) {
                Some(k) => r == Ok::<ProviderKind, LlmError>(k),
                None => r matches Err(LlmError::UnknownProvider(n)) && n@ == name@,
            },
    {
        proof {
            reveal_strlit("gemini");
            reveal_strlit("codex");
            reveal_strlit("dummy");
        }
        if same_text(name, "gemini") {
            Ok(ProviderKind::Gemini)
        } else if same_text(name, "codex") {
            Ok(ProviderKind::Codex)
        } else if same_text(name, "dummy") {
            Ok(ProviderKind::Dummy)
        } else {
            Err(LlmError::UnknownProvider(copy_text(name)))
        }
    }

    /// Resolves a provider name, ignoring case.
    pub fn parse(s: &str) -> (r: Result<ProviderKind, LlmError>)
        ensures
            match provider_named(lower_of(s@)) {
                Some(k) => r == Ok::<ProviderKind, LlmError>(k),
                None => r matches Err(LlmError::UnknownProvider(n)) && n@ == lower_of(s@),
            },
    {
        let lower = lowercase(s);
        ProviderKind::from_lowercase_name(lower.as_str())
    }
}

/// Builds the command line that launches one provider's agent CLI.
pub trait ProviderAdapter {
    spec fn command_spec(&self) -> Seq<char>;

    spec fn args_spec(&self, prompt_file: Seq<char>, model: Seq<char>) -> Seq<Seq<char>>;

    fn get_command(&self) -> (r: String)
        ensures
            r@ == self.command_spec(),
    ;

    fn get_args(&self, prompt_file: &str, model: &str) -> (r: Vec<String>)
        ensures
            texts(r@) == self.args_spec(prompt_file@, model@),
    ;
}

/// Instruction-file hint that the Codex CLI takes as its prompt.
pub open spec fn read_file_prompt(prompt_file: Seq<char>) -> Seq<char> {
    "Please read "@ + prompt_file + " and follow the instructions."@
}

fn read_file_prompt_text(prompt_file: &str) -> (r: String)
    ensures
        r@ == read_file_prompt(prompt_file@),
{
    let mut s = String::from_str("Please read ");
    s.append(prompt_file);
    s.append(" and follow the instructions.");
    s
}

/// The `gemini` CLI in non-interactive, auto-approving mode.
#[derive(Debug, Clone, Copy, PartialEq, Eq, Structural)]
pub struct GeminiAdapter;

/// The `codex exec` CLI with approvals and sandbox bypassed.
#[derive(Debug, Clone, Copy, PartialEq, Eq, Structural)]
pub struct CodexAdapter;

impl ProviderAdapter for GeminiAdapter {
    open spec fn command_spec(&self) -> Seq<char> {
        "gemini"@
    }

    open spec fn args_spec(&self, prompt_file: Seq<char>, model: Seq<char>) -> Seq<Seq<char>> {
        seq!["-p"@, prompt_file, "--yolo"@, "-m"@, model]
    }

    fn get_command(&self) -> (r: String) {
        String::from_str("gemini")
    }

    fn get_args(&self, prompt_file: &str, model: &str) -> (r: Vec<String>) {
        let r = vec![
            String::from_str("-p"),
            copy_text(prompt_file),
            String::from_str("--yolo"),
            String::from_str("-m"),
            copy_text(model),
        ];
        assert(texts(r@) =~= self.args_spec(prompt_file@, model@));
        r
    }
}

impl ProviderAdapter for CodexAdapter {
    open spec fn command_spec(&self) -> Seq<char> {
        "codex"@
    }

    open spec fn args_spec(&self, prompt_file: Seq<char>, model: Seq<char>) -> Seq<Seq<char>> {
        seq!["exec"@, "--dangerously-bypass-approvals-and-sandbox"@, read_file_prompt(prompt_file)]
    }

    fn get_command(&self) -> (r: String) {
        String::from_str("codex")
    }

    fn get_args(&self, prompt_file: &str, model: &str) -> (r: Vec<String>) {
        let r = vec![
            String::from_str("exec"),
            String::from_str("--dangerously-bypass-approvals-and-sandbox"),
            read_file_prompt_text(prompt_file),
        ];
        assert(texts(r@) =~= self.args_spec(prompt_file@, model@));
        r
    }
}

/// One of the command builders, chosen once from configuration.
#[derive(Debug, Clone, Copy, PartialEq, Eq, Structural)]
pub enum Adapter {
    Gemini(GeminiAdapter),
    Codex(CodexAdapter),
}

impl ProviderAdapter for Adapter {
    open spec fn command_spec(&self) -> Seq<char> {
        match self {
            Adapter::Gemini(a) => a.command_spec(),
            Adapter::Codex(a) => a.command_spec(),
        }
    }

    open spec fn args_spec(&self, prompt_file: Seq<char>, model: Seq<char>) -> Seq<Seq<char>> {
        match self {
            Adapter::Gemini(a) => a.args_spec(prompt_file, model),
            Adapter::Codex(a) => a.args_spec(prompt_file, model),
        }
    }

    fn get_command(&self) -> (r: String) {
        match self {
            Adapter::Gemini(a) => a.get_command(),
            Adapter::Codex(a) => a.get_command(),
        }
    }

    fn get_args(&self, prompt_file: &str, model: &str) -> (r: Vec<String>) {
        match self {
            Adapter::Gemini(a) => a.get_args(prompt_file, model),
            Adapter::Codex(a) => a.get_args(prompt_file, model),
        }
    }
}

/// The command builder of a provider; the echo provider has no CLI of its
/// own and falls back to Gemini's.
pub open spec fn adapter_for(kind: ProviderKind) -> Adapter {
    match kind {
        ProviderKind::Gemini => Adapter::Gemini(GeminiAdapter),
        ProviderKind::Codex => Adapter::Codex(CodexAdapter),
        ProviderKind::Dummy => Adapter::Gemini(GeminiAdapter),
    }
}

/// The command builder configured for `kind`.
pub fn get_adapter(kind: &ProviderKind) -> (r: Adapter)
    ensures
        r == adapter_for(*kind),
{
    match kind {
        ProviderKind::Gemini => Adapter::Gemini(GeminiAdapter),
        ProviderKind::Codex => Adapter::Codex(CodexAdapter),
        ProviderKind::Dummy => Adapter::Gemini(GeminiAdapter),
    }
}

/// Who wrote a chat message.
#[derive(Debug, Clone, Copy, PartialEq, Eq, Structural)]
pub enum MessageRole {
    System,
    User,
    Assistant,
}

/// One chat message.
#[derive(Debug, Clone)]
pub struct LlmMessage {
    pub role: MessageRole,
    pub content: String,
}

/// The content of the most recent message written by the user, if any.
pub open spec fn last_user_content(ms: Seq<LlmMessage>) -> Option<Seq<char>>
    decreases ms.len(),
{
    if ms.len() == 0 {
        None
    } else if ms.last().role == MessageRole::User {
        Some(ms.last().content@)
    } else {
        last_user_content(ms.drop_last())
    }
}

/// The most recent message written by the user, if any.
pub fn last_user_message(messages: &Vec<LlmMessage>) -> (r: Option<&LlmMessage>)
    ensures
        match r {
            Some(m) => m.role == MessageRole::User && last_user_content(messages@) == Some(m.content@)
                && exists|i: int| 0 <= i < messages@.len() && messages@[i] == *m,
            None => last_user_content(messages@) is None,
        },
{
    let mut i: usize = messages.len();
    assert(messages@.take(i as int) =~= messages@);
    while i > 0
        invariant
            i <= messages@.len(),
            last_user_content(messages@) == last_user_content(messages@.take(i as int)),
        decreases i,
    {
        assert(messages@.take(i as int).drop_last() =~= messages@.take(i - 1));
        assert(messages@.take(i as int).last() == messages@[i - 1]);
        i = i - 1;
        if messages[i].role == MessageRole::User {
            return Some(&messages[i]);
        }
    }
    None
}

/// Name for what `str::split_whitespace` yields: the maximal runs of
/// non-white-space characters, in order.
pub uninterp spec fn words_of(s: Seq<char>) -> Seq<Seq<char>>;

/// Relies on `str::split_whitespace`: the words depend on the characters alone.
#[verifier::external_body]
fn split_words(s: &str) -> (r: Vec<String>)
    ensures
        texts(r@) == words_of(s@),
{
    s.split_whitespace().map(|w| w.to_string()).collect()
}

/// The text the echo client answers with.
pub open spec fn echo_reply(last_user: Option<Seq<char>>) -> Seq<char> {
    match last_user {
        Some(c) => "Echo: "@ + c,
        None => "Agent Hub dummy client ready."@,
    }
}

/// The chunks a reply streams as: each word followed by a space.
pub open spec fn word_chunks(text: Seq<char>) -> Seq<Seq<char>> {
    words_of(text).map_values(|w: Seq<char>| w + " "@)
}

/// Chunks of an already split reply: each word followed by a space.
pub fn chunks_of_words(words: &Vec<String>) -> (r: Vec<String>)
    ensures
        texts(r@) == texts(words@).map_values(|w: Seq<char>| w + " "@),
{
    let mut r: Vec<String> = Vec::new();
    let mut i: usize = 0;
    while i < words.len()
        invariant
            i <= words@.len(),
            texts(r@) == texts(words@.take(i as int)).map_values(|w: Seq<char>| w + " "@),
        decreases words@.len() - i,
    {
        let mut w = words[i].clone();
        w.append(" ");
        let ghost before = r@;
        r.push(w);
        assert(texts(r@) =~= texts(before).push(words@[i as int]@ + " "@));
        assert(words@.take(i + 1) =~= words@.take(i as int).push(words@[i as int]));
        assert(texts(words@.take(i + 1)).map_values(|w: Seq<char>| w + " "@) =~= texts(words@.take(i as int)).map_values(
            |w: Seq<char>| w + " "@,
        ).push(words@[i as int]@ + " "@));
        i = i + 1;
    }
    assert(words@.take(i as int) =~= words@);
    r
}

/// The built-in client that echoes the user's last message back.
#[derive(Debug, Clone, Copy)]
pub struct DummyClient;

impl DummyClient {
    /// The echo client.
    pub fn new() -> (r: DummyClient) {
        DummyClient
    }

    /// The reply to a conversation.
    pub fn reply_text(&self, messages: &Vec<LlmMessage>) -> (r: String)
        ensures
            r@ == echo_reply(last_user_content(messages@)),
    {
        match last_user_message(messages) {
            Some(m) => {
                let mut t = String::from_str("Echo: ");
                t.append(m.content.as_str());
                t
            },
            None => String::from_str("Agent Hub dummy client ready."),
        }
    }

    /// The reply to a conversation, cut into streamable chunks.
    pub fn stream(&self, messages: &Vec<LlmMessage>) -> (r: Vec<String>)
        ensures
            texts(r@) == word_chunks(echo_reply(last_user_content(messages@))),
    {
        let text = self.reply_text(messages);
        let words = split_words(text.as_str());
        chunks_of_words(&words)
    }
}

/// The language-model clients a server can talk to.
#[derive(Debug, Clone, Copy)]
pub struct LlmRegistry {
    dummy: DummyClient,
}

impl LlmRegistry {
    /// A registry holding the echo client.
    pub fn new() -> (r: LlmRegistry) {
        LlmRegistry { dummy: DummyClient::new() }
    }

    /// Streams a reply from `provider`; only the echo client is configured.
    pub fn stream(&self, provider: ProviderKind, messages: &Vec<LlmMessage>) -> (r: Result<Vec<String>, LlmError>)
        ensures
            provider == ProviderKind::Dummy ==> (r matches Ok(c)
                && texts(c@) == word_chunks(echo_reply(last_user_content(messages@)))),
            provider != ProviderKind::Dummy ==> r matches Err(LlmError::ProviderNotConfigured),
    {
        match provider {
            ProviderKind::Dummy => Ok(self.dummy.stream(messages)),
            _ => Err(LlmError::ProviderNotConfigured),
        }
    }
}

} // verus!
