//! One generation call as a state machine: the caller selects each token and
//! decodes it; the session decides whether to stop, and which token to feed
//! back to the model at which position.

use vstd::prelude::*;
use vstd::string::StringExecFns;
use crate::text::{contains_char, is_json_object_like, looks_like_json_object, trim_spec, trim_str};

verus! {

/// The abstract state of a generation session.
pub struct SessionModel {
    /// Text accumulated from decoded fragments.
    pub text: Seq<char>,
    /// Position at which the next token is fed to the model.
    pub cursor: int,
    /// Position of the first generated token (the prompt's length).
    pub start: int,
    /// Tokens selected and examined so far.
    pub examined: nat,
    pub max_tokens: nat,
    pub stop_on_newline: bool,
    pub eos: i32,
    /// A stop condition other than the budget was met.
    pub stopped: bool,
}

/// What the caller does after a step.
#[derive(PartialEq, Eq, Structural, Clone, Copy, Debug)]
pub enum StepAction {
    /// Feed `token` to the model at `position`, as a batch of one, then select
    /// the next token from its output.
    Submit { token: i32, position: i64 },
    /// Generation is over.
    Stop,
}

/// One entry of a batch handed to the model.
#[derive(PartialEq, Eq, Structural, Clone, Copy, Debug)]
pub struct BatchEntry {
    pub token: i32,
    pub position: i64,
    /// Whether the model must produce output logits for this entry.
    pub wants_logits: bool,
}

pub open spec fn session_wf(m: SessionModel) -> bool {
    &&& m.examined <= m.max_tokens
    &&& m.start >= 0
    &&& m.start + m.max_tokens <= i64::MAX
    &&& m.cursor == m.start + m.examined - if m.stopped { 1int } else { 0int }
    &&& m.stopped ==> m.examined >= 1
    &&& (!m.stopped && m.stop_on_newline) ==> !m.text.contains('\n')
}

/// The session still wants another token.
pub open spec fn running(m: SessionModel) -> bool {
    !m.stopped && m.examined < m.max_tokens
}

/// Whether accumulated text `t` meets a text-based stop condition.
pub open spec fn halts_on(m: SessionModel, t: Seq<char>) -> bool {
    (m.stop_on_newline && t.contains('\n')) || looks_like_json_object(t)
}

/// The action that follows selecting `token`, whose fragment decoded to
/// `fragment` (`None` when it is not yet a complete piece of text).
pub open spec fn next_action(m: SessionModel, token: i32, fragment: Option<Seq<char>>) -> StepAction {
    if token == m.eos {
        StepAction::Stop
    } else {
        match fragment {
            None => StepAction::Submit { token, position: m.cursor as i64 },
            Some(f) => if halts_on(m, m.text + f) {
                StepAction::Stop
            } else {
                StepAction::Submit { token, position: m.cursor as i64 }
            },
        }
    }
}

/// The text after selecting `token`.
pub open spec fn next_text(m: SessionModel, token: i32, fragment: Option<Seq<char>>) -> Seq<char> {
    if token == m.eos {
        m.text
    } else {
        match fragment {
            None => m.text,
            Some(f) => m.text + f,
        }
    }
}

/// The state after selecting `token`.
pub open spec fn next_state(m: SessionModel, token: i32, fragment: Option<Seq<char>>) -> SessionModel {
    let text = next_text(m, token, fragment);
    match next_action(m, token, fragment) {
        StepAction::Stop => SessionModel { text, examined: m.examined + 1, stopped: true, ..m },
        StepAction::Submit { .. } => SessionModel {
            text,
            examined: m.examined + 1,
            cursor: m.cursor + 1,
            ..m
        },
    }
}

/// The state after feeding `events` in turn, as long as the session runs.
pub open spec fn replay(m: SessionModel, events: Seq<(i32, Option<Seq<char>>)>) -> SessionModel
    decreases events.len(),
{
    if events.len() == 0 || !running(m) {
        m
    } else {
        replay(next_state(m, events[0].0, events[0].1), events.drop_first())
    }
}

pub open spec fn fragment_view(fragment: Option<&str>) -> Option<Seq<char>> {
    match fragment {
        Some(f) => Some(f@),
        None => None,
    }
}

pub proof fn lemma_next_state_wf(m: SessionModel, token: i32, fragment: Option<Seq<char>>)
    requires
        session_wf(m),
        running(m),
    ensures
        session_wf(next_state(m, token, fragment)),
{
}

/// The state of one generation call.
pub struct GenerationSession {
    text: String,
    cursor: i64,
    start: i64,
    examined: usize,
    max_tokens: usize,
    stop_on_newline: bool,
    eos: i32,
    stopped: bool,
}

impl View for GenerationSession {
    type V = SessionModel;

    closed spec fn view(&self) -> SessionModel {
        SessionModel {
            text: self.text@,
            cursor: self.cursor as int,
            start: self.start as int,
            examined: self.examined as nat,
            max_tokens: self.max_tokens as nat,
            stop_on_newline: self.stop_on_newline,
            eos: self.eos,
            stopped: self.stopped,
        }
    }
}

impl GenerationSession {
    /// A session for a prompt of `prompt_len` tokens, with a budget of
    /// `max_tokens` selected tokens and `eos` as end-of-sequence token.
    pub fn new(prompt_len: usize, max_tokens: usize, stop_on_newline: bool, eos: i32) -> (r: Self)
        requires
            prompt_len + max_tokens <= i64::MAX,
        ensures
            session_wf(r@),
            r@.text == Seq::<char>::empty(),
            r@.cursor == prompt_len,
            r@.start == prompt_len,
            r@.examined == 0,
            r@.max_tokens == max_tokens,
            r@.stop_on_newline == stop_on_newline,
            r@.eos == eos,
            !r@.stopped,
    {
        GenerationSession {
            text: String::new(),
            cursor: prompt_len as i64,
            start: prompt_len as i64,
            examined: 0,
            max_tokens,
            stop_on_newline,
            eos,
            stopped: false,
        }
    }

    /// Whether another token is to be selected.
    pub fn is_running(&self) -> (r: bool)
        ensures
            r == running(self@),
    {
        !self.stopped && self.examined < self.max_tokens
    }

    /// The text accumulated so far, untrimmed.
    pub fn text(&self) -> (r: &str)
        ensures
            r@ == self@.text,
    {
        self.text.as_str()
    }

    /// The number of tokens selected so far.
    pub fn tokens_examined(&self) -> (r: usize)
        ensures
            r == self@.examined,
    {
        self.examined
    }

    /// Takes the token selected from the model's output and its decoded
    /// fragment (`None` when decoding failed, as on half of a multi-byte
    /// character), and says what to do next.
    pub fn step(&mut self, token: i32, fragment: Option<&str>) -> (r: StepAction)
        requires
            session_wf(old(self)@),
            running(old(self)@),
        ensures
            final(self)@ == next_state(old(self)@, token, fragment_view(fragment)),
            r == next_action(old(self)@, token, fragment_view(fragment)),
            session_wf(final(self)@),
    {
        proof {
            lemma_next_state_wf(self@, token, fragment_view(fragment));
        }
        self.examined = self.examined + 1;
        if token == self.eos {
            self.stopped = true;
            return StepAction::Stop;
        }
        match fragment {
            None => {
                let position = self.cursor;
                self.cursor = self.cursor + 1;
                StepAction::Submit { token, position }
            },
            Some(f) => {
                self.text.append(f);
                let halt = (self.stop_on_newline && contains_char(self.text.as_str(), '\n'))
                    || is_json_object_like(self.text.as_str());
                if halt {
                    self.stopped = true;
                    StepAction::Stop
                } else {
                    let position = self.cursor;
                    self.cursor = self.cursor + 1;
                    StepAction::Submit { token, position }
                }
            },
        }
    }

    /// The response: the accumulated text with surrounding whitespace removed.
    pub fn finish(&self) -> (r: String)
        ensures
            r@ == trim_spec(self@.text),
    {
        trim_str(self.text.as_str()).to_owned()
    }
}

/// The batch that primes the model with the prompt's tokens: positions
/// `0..n`, with output logits wanted for the last token only.
pub fn prompt_batch(tokens: &Vec<i32>) -> (r: Vec<BatchEntry>)
    requires
        tokens@.len() <= i64::MAX,
    ensures
        r@.len() == tokens@.len(),
        forall|i: int|
            0 <= i < r@.len() ==> (#[trigger] r@[i]).token == tokens@[i] && r@[i].position == i
                && r@[i].wants_logits == (i == tokens@.len() - 1),
{
    let mut r: Vec<BatchEntry> = Vec::new();
    let n = tokens.len();
    let mut i: usize = 0;
    while i < n
        invariant
            n == tokens@.len(),
            n <= i64::MAX,
            i <= n,
            r@.len() == i,
            forall|j: int|
                0 <= j < i ==> (#[trigger] r@[j]).token == tokens@[j] && r@[j].position == j
                    && r@[j].wants_logits == (j == n - 1),
        decreases n - i,
    {
        r.push(BatchEntry { token: tokens[i], position: i as i64, wants_logits: i + 1 == n });
        i = i + 1;
    }
    r
}

/// Feeding the same events to the same state gives the same state, hence the
/// same finished response.
pub proof fn law_replay_deterministic(
    m1: SessionModel,
    m2: SessionModel,
    events: Seq<(i32, Option<Seq<char>>)>,
)
    requires
        m1 == m2,
    ensures
        replay(m1, events) == replay(m2, events),
        trim_spec(replay(m1, events).text) == trim_spec(replay(m2, events).text),
{
}

/// Whatever the model produces, a session never examines more tokens than its
/// budget, stays well formed, and has stopped running once as many events as
/// the budget allows were fed.
pub proof fn law_budget_respected(m: SessionModel, events: Seq<(i32, Option<Seq<char>>)>)
    requires
        session_wf(m),
    ensures
        session_wf(replay(m, events)),
        replay(m, events).examined <= m.max_tokens,
        replay(m, events).max_tokens == m.max_tokens,
        m.examined + events.len() >= m.max_tokens ==> !running(replay(m, events)),
    decreases events.len(),
{
    if events.len() > 0 && running(m) {
        let n = next_state(m, events[0].0, events[0].1);
        lemma_next_state_wf(m, events[0].0, events[0].1);
        law_budget_respected(n, events.drop_first());
    }
}

/// With `stop_on_newline`, a fragment holding a line break ends generation at
/// once; the text before it held no line break, so every line break of the
/// result comes from that last fragment.
pub proof fn law_newline_stops(m: SessionModel, token: i32, f: Seq<char>)
    requires
        session_wf(m),
        running(m),
        m.stop_on_newline,
        token != m.eos,
        f.contains('\n'),
    ensures
        next_action(m, token, Some(f)) == StepAction::Stop,
        next_state(m, token, Some(f)).text == m.text + f,
        !m.text.contains('\n'),
        !running(next_state(m, token, Some(f))),
{
    let t = m.text + f;
    let j = choose|j: int| 0 <= j < f.len() && f[j] == '\n';
    assert(t[m.text.len() + j] == '\n');
}

/// A fragment that completes a balanced JSON-like object ends generation,
/// whatever budget is left.
pub proof fn law_json_object_stops(m: SessionModel, token: i32, f: Seq<char>)
    requires
        running(m),
        token != m.eos,
        looks_like_json_object(m.text + f),
    ensures
        next_action(m, token, Some(f)) == StepAction::Stop,
        next_state(m, token, Some(f)).stopped,
        next_state(m, token, Some(f)).text == m.text + f,
{
}

/// A token whose fragment fails to decode is fed back to the model and
/// generation goes on with the text unchanged; the fragment of the next token
/// is then appended as usual.
pub proof fn law_fragment_repair(m: SessionModel, t1: i32, t2: i32, f: Seq<char>)
    requires
        session_wf(m),
        running(m),
        t1 != m.eos,
        t2 != m.eos,
        m.examined + 2 <= m.max_tokens,
    ensures
        next_action(m, t1, None) == (StepAction::Submit { token: t1, position: m.cursor as i64 }),
        next_state(m, t1, None).text == m.text,
        running(next_state(m, t1, None)),
        next_state(m, t1, None).cursor == m.cursor + 1,
        next_state(next_state(m, t1, None), t2, Some(f)).text == m.text + f,
{
}

} // verus!
