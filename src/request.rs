//! Turning a chat request into the parameters of one generation call.

use vstd::prelude::*;
use crate::preset::{assembled, plain_prompt, plain_prompt_spec, views, CalendarDay, Preset};

verus! {

/// Budget used when neither the request nor a preset gives one.
pub const DEFAULT_MAX_TOKENS: usize = 100;

/// A chat request as a client sends it.
#[derive(Clone, Debug)]
pub struct ChatRequest {
    pub prompt: String,
    pub system_prompt: Option<String>,
    pub max_tokens: Option<usize>,
    pub model: Option<String>,
    pub preset: Option<String>,
}

/// The parameters of one generation call.
#[derive(Clone, Debug)]
pub struct GenerationRequest {
    pub prompt: String,
    pub max_tokens: usize,
    pub stop_on_newline: bool,
}

/// A name that the client gave and that is not known.
#[derive(Clone, Debug)]
pub enum LookupError {
    ModelNotFound(String),
    PresetNotFound(String),
}

/// A failure of the inference backend, fatal to the one request.
#[derive(Clone, Debug)]
pub enum GenerationError {
    Tokenization(String),
    Batch(String),
    Decode(String),
}

impl LookupError {
    /// The HTTP status for this error: a client error.
    pub fn status_code(&self) -> (r: u16)
        ensures
            r == 400,
    {
        400
    }
}

impl GenerationError {
    /// The HTTP status for this error: a server error.
    pub fn status_code(&self) -> (r: u16)
        ensures
            r == 500,
    {
        500
    }
}

/// `i` is the first preset named `name`.
pub open spec fn first_named(presets: Seq<Preset>, name: Seq<char>, i: int) -> bool {
    &&& 0 <= i < presets.len()
    &&& presets[i].name@ == name
    &&& forall|j: int| 0 <= j < i ==> (#[trigger] presets[j]).name@ != name
}

pub open spec fn has_preset(presets: Seq<Preset>, name: Seq<char>) -> bool {
    exists|j: int| 0 <= j < presets.len() && (#[trigger] presets[j]).name@ == name
}

/// `out` is a prompt that `Preset::build_full_prompt` may give for `input`.
pub open spec fn preset_prompt(p: Preset, input: Seq<char>, out: Seq<char>) -> bool {
    if p.include_current_date {
        exists|d: CalendarDay| d.weekday < 7 && out == assembled(p, input, Some(d))
    } else {
        out == assembled(p, input, None)
    }
}

/// The model a request asks for: its own choice, else the first available,
/// else the empty name.
pub open spec fn requested_model(requested: Option<String>, available: Seq<String>) -> Seq<char> {
    match requested {
        Some(m) => m@,
        None => if available.len() > 0 {
            available[0]@
        } else {
            Seq::empty()
        },
    }
}

pub open spec fn opt_view(o: Option<String>) -> Option<Seq<char>> {
    match o {
        Some(s) => Some(s@),
        None => None,
    }
}

/// The index of the first preset named `name`, if any.
pub fn find_preset(presets: &Vec<Preset>, name: &String) -> (r: Option<usize>)
    ensures
        match r {
            Some(i) => first_named(presets@, name@, i as int),
            None => !has_preset(presets@, name@),
        },
{
    let mut i: usize = 0;
    while i < presets.len()
        invariant
            i <= presets@.len(),
            forall|j: int| 0 <= j < i ==> (#[trigger] presets@[j]).name@ != name@,
        decreases presets@.len() - i,
    {
        if presets[i].name == *name {
            return Some(i);
        }
        i = i + 1;
    }
    None
}

/// The model to load for a request, which must be one of `available`.
pub fn resolve_model(requested: &Option<String>, available: &Vec<String>) -> (r: Result<String, LookupError>)
    ensures
        match r {
            Ok(m) => m@ == requested_model(*requested, available@)
                && views(available@).contains(m@),
            Err(e) => e is ModelNotFound && e->ModelNotFound_0@ == requested_model(*requested, available@)
                && !views(available@).contains(requested_model(*requested, available@)),
        },
{
    let name = match requested {
        Some(m) => m.clone(),
        None => if available.len() > 0 {
            available[0].clone()
        } else {
            String::new()
        },
    };
    let ghost v = views(available@);
    let mut i: usize = 0;
    while i < available.len()
        invariant
            v == views(available@),
            name@ == requested_model(*requested, available@),
            i <= available@.len(),
            forall|j: int| 0 <= j < i ==> (#[trigger] available@[j])@ != name@,
        decreases available@.len() - i,
    {
        if available[i] == name {
            assert(v[i as int] == name@);
            return Ok(name);
        }
        i = i + 1;
    }
    proof {
        assert forall|j: int| 0 <= j < v.len() implies v[j] != name@ by {
            assert(v[j] == available@[j]@);
        }
    }
    Err(LookupError::ModelNotFound(name))
}

/// The generation parameters for a chat request: the named preset's prompt,
/// budget and newline rule, or the plain prompt with the default budget. The
/// request's own budget wins over the preset's.
pub fn plan_chat(req: &ChatRequest, presets: &Vec<Preset>) -> (r: Result<GenerationRequest, LookupError>)
    ensures
        match req.preset {
            Some(name) => match r {
                Ok(g) => exists|i: int|
                    first_named(presets@, name@, i) && preset_prompt(presets@[i], req.prompt@, g.prompt@)
                        && g.max_tokens == match req.max_tokens {
                        Some(m) => m,
                        None => presets@[i].max_tokens,
                    } && g.stop_on_newline == presets@[i].stop_on_newline,
                Err(e) => e is PresetNotFound && e->PresetNotFound_0@ == name@
                    && !has_preset(presets@, name@),
            },
            None => match r {
                Ok(g) => g.prompt@ == plain_prompt_spec(opt_view(req.system_prompt), req.prompt@)
                    && g.max_tokens == match req.max_tokens {
                    Some(m) => m,
                    None => DEFAULT_MAX_TOKENS,
                } && !g.stop_on_newline,
                Err(_) => false,
            },
        },
{
    match &req.preset {
        Some(name) => match find_preset(presets, name) {
            Some(i) => {
                let p = &presets[i];
                let prompt = p.build_full_prompt(req.prompt.as_str());
                let max_tokens = match req.max_tokens {
                    Some(m) => m,
                    None => p.max_tokens,
                };
                Ok(GenerationRequest { prompt, max_tokens, stop_on_newline: p.stop_on_newline })
            },
            None => Err(LookupError::PresetNotFound(name.clone())),
        },
        None => {
            let prompt = plain_prompt(&req.system_prompt, req.prompt.as_str());
            let max_tokens = match req.max_tokens {
                Some(m) => m,
                None => DEFAULT_MAX_TOKENS,
            };
            Ok(GenerationRequest { prompt, max_tokens, stop_on_newline: false })
        },
    }
}

/// The generation parameters for one line typed in the interactive chat:
/// the preset's prompt, budget and newline rule, or the line as it is with
/// the default budget.
pub fn interactive_request(preset: Option<&Preset>, input: &str) -> (r: GenerationRequest)
    ensures
        match preset {
            Some(p) => preset_prompt(*p, input@, r.prompt@) && r.max_tokens == p.max_tokens
                && r.stop_on_newline == p.stop_on_newline,
            None => r.prompt@ == input@ && r.max_tokens == DEFAULT_MAX_TOKENS && !r.stop_on_newline,
        },
{
    match preset {
        Some(p) => GenerationRequest {
            prompt: p.build_full_prompt(input),
            max_tokens: p.max_tokens,
            stop_on_newline: p.stop_on_newline,
        },
        None => GenerationRequest {
            prompt: input.to_owned(),
            max_tokens: DEFAULT_MAX_TOKENS,
            stop_on_newline: false,
        },
    }
}

} // verus!
