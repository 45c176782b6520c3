//! The assistant side panel: the chat transcript, the rule for sending a
//! message, the replies it accepts, and the provider settings form.
use vstd::prelude::*;

use crate::domain::{AiSettings, BackendCommand, BackendEvent, BridgeError, OperationId};
use crate::strings::{
    chars_of, decimal, decimal_string, lemma_decimal_parses_back, lemma_trim_idempotent,
    parse_u64, parse_unsigned_spec, trim_spec, trimmed,
};

verus! {

broadcast use vstd::string::group_string_axioms;

/// A message of at least this many characters is archived as a `.txt` when
/// sent.
pub const LONG_INPUT_CHARS: usize = 2000;

/// A message of at least this many lines is archived as a `.txt` when sent.
pub const LONG_INPUT_LINES: usize = 100;

/// Timeout used when the form's timeout field does not parse.
pub const DEFAULT_TIMEOUT_SECONDS: u64 = 30;

/// Smallest timeout the settings accept.
pub const MIN_TIMEOUT_SECONDS: u64 = 1;

/// Largest timeout the settings accept.
pub const MAX_TIMEOUT_SECONDS: u64 = 600;

#[verifier::external_type_specification]
#[verifier::external_body]
pub struct ExPathBuf(std::path::PathBuf);

/// `<PathBuf as Clone>::clone`, used by the derived `Clone` of
/// [`AssistantAttachment`]; nothing is claimed of the copy.
pub assume_specification[ <std::path::PathBuf as Clone>::clone ](
    path: &std::path::PathBuf,
) -> std::path::PathBuf;

/// A user message long enough to be archived as a `.txt` file when sent.
#[derive(Clone, Debug)]
pub struct AssistantAttachment {
    pub file_name: String,
    pub path: std::path::PathBuf,
    pub lines: usize,
    pub chars: usize,
}

/// One message of the assistant transcript.
#[derive(Clone, Debug)]
pub struct AssistantTurn {
    pub from_user: bool,
    pub text: String,
    /// Set when this user message was archived; the transcript then shows the
    /// attachment card in place of the raw text.
    pub attachment: Option<AssistantAttachment>,
}

/// The abstract content of an [`AssistantTurn`].
pub struct TurnView {
    pub from_user: bool,
    pub text: Seq<char>,
    pub attachment: Option<AssistantAttachment>,
}

impl View for AssistantTurn {
    type V = TurnView;

    open spec fn view(&self) -> TurnView {
        TurnView { from_user: self.from_user, text: self.text@, attachment: self.attachment }
    }
}

/// The text of an optional string.
pub open spec fn opt_text(s: Option<String>) -> Option<Seq<char>> {
    match s {
        Some(t) => Some(t@),
        None => None,
    }
}

// ---------------------------------------------------------------------------
// Long messages

/// Number of `'\n'` characters in `s`.
pub open spec fn newline_count(s: Seq<char>) -> nat
    decreases s.len(),
{
    if s.len() == 0 {
        0
    } else {
        newline_count(s.drop_last()) + if s.last() == '\n' {
            1nat
        } else {
            0nat
        }
    }
}

/// Number of lines `str::lines` yields: one per line ending, plus a final
/// line that has none.
pub open spec fn line_count(s: Seq<char>) -> nat {
    newline_count(s) + if s.len() > 0 && s.last() != '\n' {
        1nat
    } else {
        0nat
    }
}

/// Whether a message reaches either archiving threshold.
pub open spec fn long_input(s: Seq<char>) -> bool {
    s.len() >= LONG_INPUT_CHARS || line_count(s) >= LONG_INPUT_LINES
}

/// `text.lines().count()`.
pub fn line_count_of(text: &str) -> (count: usize)
    ensures
        count == line_count(text@),
{
    let chars = chars_of(text);
    let mut newlines: usize = 0;
    let mut i: usize = 0;
    while i < chars.len()
        invariant
            i <= chars@.len(),
            chars@ == text@,
            newlines == newline_count(chars@.take(i as int)),
            newlines <= i,
            i > 0 && chars@[i - 1] != '\n' ==> newlines < i,
        decreases chars@.len() - i,
    {
        assert(chars@.take(i + 1).drop_last() =~= chars@.take(i as int));
        if chars[i] == '\n' {
            newlines = newlines + 1;
        }
        i = i + 1;
    }
    assert(chars@.take(chars@.len() as int) =~= chars@);
    if chars.len() > 0 && chars[chars.len() - 1] != '\n' {
        newlines + 1
    } else {
        newlines
    }
}

/// Whether a message is long enough to be archived when sent: at least
/// [`LONG_INPUT_CHARS`] characters or [`LONG_INPUT_LINES`] lines.
pub fn is_long_input(text: &str) -> (long: bool)
    ensures
        long == long_input(text@),
{
    let chars = chars_of(text);
    chars.len() >= LONG_INPUT_CHARS || line_count_of(text) >= LONG_INPUT_LINES
}

// ---------------------------------------------------------------------------
// Settings form

/// Editable copy of [`AiSettings`] backing the settings dialog; the timeout
/// stays text until the form is saved.
#[derive(Clone, Debug, PartialEq, Eq)]
pub struct AiSettingsForm {
    pub endpoint: String,
    pub model: String,
    pub api_key: String,
    pub timeout: String,
}

/// The abstract content of an [`AiSettingsForm`].
pub struct FormView {
    pub endpoint: Seq<char>,
    pub model: Seq<char>,
    pub api_key: Seq<char>,
    pub timeout: Seq<char>,
}

/// The abstract content of [`AiSettings`].
pub struct SettingsView {
    pub endpoint: Seq<char>,
    pub model: Seq<char>,
    pub api_key: Seq<char>,
    pub timeout_seconds: u64,
}

impl View for AiSettingsForm {
    type V = FormView;

    open spec fn view(&self) -> FormView {
        FormView {
            endpoint: self.endpoint@,
            model: self.model@,
            api_key: self.api_key@,
            timeout: self.timeout@,
        }
    }
}

/// The abstract content of settings.
pub open spec fn settings_view(s: AiSettings) -> SettingsView {
    SettingsView {
        endpoint: s.endpoint@,
        model: s.model@,
        api_key: s.api_key@,
        timeout_seconds: s.timeout_seconds,
    }
}

/// The timeout a form's text stands for: the trimmed text read as a `u64`
/// (30 when it does not parse), clamped to 1..=600.
pub open spec fn timeout_of_text(t: Seq<char>) -> u64 {
    let parsed: nat = match parse_unsigned_spec(trim_spec(t), u64::MAX as nat) {
        Some(v) => v,
        None => DEFAULT_TIMEOUT_SECONDS as nat,
    };
    if parsed < MIN_TIMEOUT_SECONDS {
        MIN_TIMEOUT_SECONDS
    } else if parsed > MAX_TIMEOUT_SECONDS {
        MAX_TIMEOUT_SECONDS
    } else {
        parsed as u64
    }
}

/// The settings a form saves: none unless the trimmed endpoint and model are
/// both non-empty; every text field is trimmed.
pub open spec fn settings_of_form(form: FormView) -> Option<SettingsView> {
    if trim_spec(form.endpoint).len() == 0 || trim_spec(form.model).len() == 0 {
        None
    } else {
        Some(
            SettingsView {
                endpoint: trim_spec(form.endpoint),
                model: trim_spec(form.model),
                api_key: trim_spec(form.api_key),
                timeout_seconds: timeout_of_text(form.timeout),
            },
        )
    }
}

/// The form that edits the given settings (blank without settings).
pub open spec fn form_of_settings(settings: Option<SettingsView>) -> FormView {
    match settings {
        Some(s) => FormView {
            endpoint: s.endpoint,
            model: s.model,
            api_key: s.api_key,
            timeout: decimal(s.timeout_seconds as nat),
        },
        None => FormView {
            endpoint: Seq::empty(),
            model: Seq::empty(),
            api_key: Seq::empty(),
            timeout: Seq::empty(),
        },
    }
}

/// Settings as a saved form produces them: trimmed, non-empty endpoint and
/// model, timeout within 1..=600.
pub open spec fn normalized_settings(s: SettingsView) -> bool {
    &&& s.endpoint.len() > 0
    &&& trim_spec(s.endpoint) == s.endpoint
    &&& s.model.len() > 0
    &&& trim_spec(s.model) == s.model
    &&& trim_spec(s.api_key) == s.api_key
    &&& MIN_TIMEOUT_SECONDS <= s.timeout_seconds <= MAX_TIMEOUT_SECONDS
}

/// Whatever a form saves is normalized.
pub proof fn lemma_saved_settings_are_normalized(form: FormView)
    ensures
        settings_of_form(form) matches Some(s) ==> normalized_settings(s),
{
    lemma_trim_idempotent(form.endpoint);
    lemma_trim_idempotent(form.model);
    lemma_trim_idempotent(form.api_key);
}

/// Editing normalized settings in the form and saving without a change gives
/// the same settings back.
pub proof fn lemma_settings_form_round_trip(settings: SettingsView)
    requires
        normalized_settings(settings),
    ensures
        settings_of_form(form_of_settings(Some(settings))) == Some(settings),
{
    lemma_decimal_parses_back(settings.timeout_seconds as nat, u64::MAX as nat);
}

/// Saving a form, reopening the saved settings in the form and saving again
/// gives the same settings as the first save.
pub proof fn lemma_save_reopen_save(form: FormView)
    ensures
        settings_of_form(form) is Some ==> settings_of_form(
            form_of_settings(settings_of_form(form)),
        ) == settings_of_form(form),
{
    lemma_saved_settings_are_normalized(form);
    if let Some(s) = settings_of_form(form) {
        lemma_settings_form_round_trip(s);
    }
}

impl Default for AiSettingsForm {
    fn default() -> (form: Self)
        ensures
            form@ == form_of_settings(None),
    {
        AiSettingsForm {
            endpoint: String::new(),
            model: String::new(),
            api_key: String::new(),
            timeout: String::new(),
        }
    }
}

impl AiSettingsForm {
    /// A form showing the given settings, or a blank form.
    pub fn from_settings(settings: Option<&AiSettings>) -> (form: Self)
        ensures
            form@ == form_of_settings(
                match settings {
                    Some(s) => Some(settings_view(*s)),
                    None => None,
                },
            ),
    {
        match settings {
            Some(s) => AiSettingsForm {
                endpoint: s.endpoint.clone(),
                model: s.model.clone(),
                api_key: s.api_key.clone(),
                timeout: decimal_string(s.timeout_seconds),
            },
            None => AiSettingsForm::default(),
        }
    }

    /// The settings this form saves: `None` while the trimmed endpoint or
    /// model is empty; an empty or unparsable timeout becomes 30 s, and the
    /// timeout is clamped to 1..=600 s.
    pub fn to_settings(&self) -> (settings: Option<AiSettings>)
        ensures
            match settings {
                Some(s) => settings_of_form(self@) == Some(settings_view(s)),
                None => settings_of_form(self@) is None,
            },
    {
        let endpoint = trimmed(self.endpoint.as_str());
        let model = trimmed(self.model.as_str());
        if endpoint.as_str().is_empty() || model.as_str().is_empty() {
            return None;
        }
        let timeout_text = trimmed(self.timeout.as_str());
        let parsed = match parse_u64(timeout_text.as_str()) {
            Some(v) => v,
            None => DEFAULT_TIMEOUT_SECONDS,
        };
        let timeout_seconds = if parsed < MIN_TIMEOUT_SECONDS {
            MIN_TIMEOUT_SECONDS
        } else if parsed > MAX_TIMEOUT_SECONDS {
            MAX_TIMEOUT_SECONDS
        } else {
            parsed
        };
        let api_key = trimmed(self.api_key.as_str());
        Some(AiSettings { endpoint, model, api_key, timeout_seconds })
    }
}

// ---------------------------------------------------------------------------
// Panel state

/// State of the assistant panel.
#[derive(Debug)]
pub struct AssistantPanelState {
    pub turns: Vec<AssistantTurn>,
    pub input: String,
    /// The request awaiting a reply; at most one at a time.
    pub pending: Option<OperationId>,
    /// Whether a provider is configured and reachable.
    pub ready: bool,
    pub model: Option<String>,
    pub unavailable_reason: Option<String>,
    pub error: Option<BridgeError>,
    /// Set when the user asks for the settings dialog; the app resets it.
    pub open_settings: bool,
    /// Set when the panel's close button is used; the app resets it.
    pub close_requested: bool,
}

/// The abstract content of an [`AssistantPanelState`].
pub struct AssistantView {
    pub turns: Seq<TurnView>,
    pub input: Seq<char>,
    pub pending: Option<OperationId>,
    pub ready: bool,
    pub model: Option<Seq<char>>,
    pub unavailable_reason: Option<Seq<char>>,
    pub error: Option<BridgeError>,
    pub open_settings: bool,
    pub close_requested: bool,
}

impl View for AssistantPanelState {
    type V = AssistantView;

    open spec fn view(&self) -> AssistantView {
        AssistantView {
            turns: self.turns@.map_values(|t: AssistantTurn| t@),
            input: self.input@,
            pending: self.pending,
            ready: self.ready,
            model: opt_text(self.model),
            unavailable_reason: opt_text(self.unavailable_reason),
            error: self.error,
            open_settings: self.open_settings,
            close_requested: self.close_requested,
        }
    }
}

/// A fresh panel: empty transcript and composer, no provider, nothing
/// pending.
pub open spec fn initial_assistant() -> AssistantView {
    AssistantView {
        turns: Seq::empty(),
        input: Seq::empty(),
        pending: None,
        ready: false,
        model: None,
        unavailable_reason: None,
        error: None,
        open_settings: false,
        close_requested: false,
    }
}

/// Whether a message can be sent now: a provider is ready and no request is
/// pending.
pub open spec fn composer_enabled(s: AssistantView) -> bool {
    s.ready && s.pending is None
}

/// Whether the composer's content is sent: it is enabled and the trimmed
/// input is not empty.
pub open spec fn sendable(s: AssistantView) -> bool {
    composer_enabled(s) && trim_spec(s.input).len() > 0
}

/// The panel after sending its input as request `id`: the trimmed text joins
/// the transcript as a user turn, the composer is cleared and `id` is
/// pending.
pub open spec fn after_send(s: AssistantView, id: OperationId) -> AssistantView {
    AssistantView {
        turns: s.turns.push(
            TurnView { from_user: true, text: trim_spec(s.input), attachment: None },
        ),
        input: Seq::empty(),
        pending: Some(id),
        ..s
    }
}

/// The panel after a backend event: readiness events set the provider
/// state; a reply or failure is taken only for the pending request.
pub open spec fn after_event(s: AssistantView, event: BackendEvent) -> AssistantView {
    match event {
        BackendEvent::AiReady { model, .. } => AssistantView {
            ready: true,
            model: Some(model@),
            error: None,
            ..s
        },
        BackendEvent::AiUnavailable { reason } => AssistantView {
            ready: false,
            model: None,
            unavailable_reason: Some(reason@),
            ..s
        },
        BackendEvent::AiChatCompleted { request_id, reply } => if s.pending == Some(request_id) {
            AssistantView {
                turns: s.turns.push(TurnView { from_user: false, text: reply@, attachment: None }),
                pending: None,
                error: None,
                ..s
            }
        } else {
            s
        },
        BackendEvent::AiChatFailed { request_id, error } => if s.pending == Some(request_id) {
            AssistantView { pending: None, error: Some(error), ..s }
        } else {
            s
        },
        _ => s,
    }
}

/// A sent message answered by its reply leaves the transcript with the
/// user's trimmed message followed by the reply, nothing pending and no
/// error.
pub proof fn lemma_send_then_reply(s: AssistantView, id: OperationId, reply: String)
    requires
        sendable(s),
    ensures
        ({
            let answered = after_event(
                after_send(s, id),
                BackendEvent::AiChatCompleted { request_id: id, reply },
            );
            &&& answered.turns == s.turns.push(
                TurnView { from_user: true, text: trim_spec(s.input), attachment: None },
            ).push(TurnView { from_user: false, text: reply@, attachment: None })
            &&& answered.pending is None
            &&& answered.error is None
            &&& answered.input.len() == 0
        }),
{
}

/// While a request is pending nothing more is sent, and a reply to any other
/// request changes nothing.
pub proof fn lemma_one_request_at_a_time(s: AssistantView, other: OperationId, reply: String)
    requires
        s.pending is Some,
        s.pending != Some(other),
    ensures
        !sendable(s),
        after_event(s, BackendEvent::AiChatCompleted { request_id: other, reply }) == s,
{
}

impl Default for AssistantPanelState {
    fn default() -> (state: Self)
        ensures
            state@ == initial_assistant(),
    {
        let state = AssistantPanelState {
            turns: Vec::new(),
            input: String::new(),
            pending: None,
            ready: false,
            model: None,
            unavailable_reason: None,
            error: None,
            open_settings: false,
            close_requested: false,
        };
        assert(state@.turns =~= Seq::<TurnView>::empty());
        state
    }
}

impl AssistantPanelState {
    /// Replaces the transcript with a short fixed demo conversation.
    pub fn seed_demo_transcript(&mut self)
        ensures
            final(self)@.turns.len() == 3,
            final(self)@.turns[0] == (TurnView {
                from_user: true,
                text: "帮我看看这台设备的基本情况"@,
                attachment: None,
            }),
            final(self)@.turns[1] == (TurnView {
                from_user: false,
                text: "当前授权范围内没有设备摘要数据。请先在设备管理里连接设备，并授予设备概览上下文后我再帮你解读。"@,
                attachment: None,
            }),
            final(self)@.turns[2] == (TurnView {
                from_user: true,
                text: "好的，顺便解释一下刚才能看到哪些信息、不会上传什么？"@,
                attachment: None,
            }),
            final(self)@ == (AssistantView { turns: final(self)@.turns, ..old(self)@ }),
    {
        let mut turns: Vec<AssistantTurn> = Vec::new();
        turns.push(
            AssistantTurn {
                from_user: true,
                text: "帮我看看这台设备的基本情况".to_owned(),
                attachment: None,
            },
        );
        turns.push(
            AssistantTurn {
                from_user: false,
                text: "当前授权范围内没有设备摘要数据。请先在设备管理里连接设备，并授予设备概览上下文后我再帮你解读。".to_owned(),
                attachment: None,
            },
        );
        turns.push(
            AssistantTurn {
                from_user: true,
                text: "好的，顺便解释一下刚才能看到哪些信息、不会上传什么？".to_owned(),
                attachment: None,
            },
        );
        self.turns = turns;
    }

    /// Applies a backend event; see [`after_event`].
    pub fn handle_event(&mut self, event: &BackendEvent)
        ensures
            final(self)@ == after_event(old(self)@, *event),
    {
        let ghost before = self@;
        match event {
            BackendEvent::AiReady { model, .. } => {
                self.ready = true;
                self.model = Some(model.clone());
                self.error = None;
            },
            BackendEvent::AiUnavailable { reason } => {
                self.ready = false;
                self.model = None;
                self.unavailable_reason = Some(reason.clone());
            },
            BackendEvent::AiChatCompleted { request_id, reply } => {
                if self.awaits(request_id) {
                    self.pending = None;
                    self.error = None;
                    self.turns.push(
                        AssistantTurn { from_user: false, text: reply.clone(), attachment: None },
                    );
                    assert(self@.turns =~= before.turns.push(
                        TurnView { from_user: false, text: reply@, attachment: None },
                    ));
                }
            },
            BackendEvent::AiChatFailed { request_id, error } => {
                if self.awaits(request_id) {
                    self.pending = None;
                    self.error = Some(error.duplicate());
                }
            },
            _ => {},
        }
    }

    /// Whether `request_id` is the pending request.
    fn awaits(&self, request_id: &OperationId) -> (pending: bool)
        ensures
            pending == (self.pending == Some(*request_id)),
    {
        match self.pending {
            Some(id) => id == *request_id,
            None => false,
        }
    }

    /// Whether the composer accepts a message now.
    pub fn can_send(&self) -> (enabled: bool)
        ensures
            enabled == composer_enabled(self@),
    {
        self.ready && self.pending.is_none()
    }

    /// Sends the composer's content: `None` (and no change) unless a provider
    /// is ready, nothing is pending and the trimmed input is not empty.
    /// Otherwise the trimmed text joins the transcript, the full untrimmed
    /// input becomes the prompt of a new request and the composer is cleared.
    pub fn send(&mut self) -> (command: Option<BackendCommand>)
        ensures
            !sendable(old(self)@) ==> command is None && final(self)@ == old(self)@,
            sendable(old(self)@) ==> (command matches Some(
                BackendCommand::SendAiChat { request_id, prompt },
            ) && prompt@ == old(self)@.input && final(self)@ == after_send(
                old(self)@,
                request_id,
            )),
    {
        let ghost before = self@;
        let text = trimmed(self.input.as_str());
        if text.as_str().is_empty() || self.pending.is_some() || !self.ready {
            return None;
        }
        let request_id = OperationId::new();
        self.pending = Some(request_id);
        self.turns.push(AssistantTurn { from_user: true, text, attachment: None });
        let prompt = self.input.clone();
        self.input = String::new();
        assert(self@.turns =~= after_send(before, request_id).turns);
        Some(BackendCommand::SendAiChat { request_id, prompt })
    }

    /// Records the archive of the message just sent on its transcript turn;
    /// nothing changes unless the last turn is the user's.
    pub fn attach_archive(&mut self, attachment: AssistantAttachment)
        ensures
            ({
                let turns = old(self)@.turns;
                if turns.len() > 0 && turns.last().from_user {
                    final(self)@ == (AssistantView {
                        turns: turns.update(
                            turns.len() - 1,
                            TurnView { attachment: Some(attachment), ..turns.last() },
                        ),
                        ..old(self)@
                    })
                } else {
                    final(self)@ == old(self)@
                }
            }),
    {
        let ghost before = self@;
        let n = self.turns.len();
        if n > 0 && self.turns[n - 1].from_user {
            let mut last = self.turns.pop().unwrap();
            last.attachment = Some(attachment);
            self.turns.push(last);
            assert(self@.turns =~= before.turns.update(
                n - 1,
                TurnView { attachment: Some(attachment), ..before.turns.last() },
            ));
        }
    }
}

} // verus!
