//! Presets and the assembly of a final prompt from a preset and user input.

use vstd::prelude::*;
use vstd::string::StringExecFns;
use chrono::Datelike;

verus! {

/// One few-shot example: an input and the output expected for it.
#[derive(Clone, Debug)]
pub struct PromptExample {
    pub input: String,
    pub output: String,
}

/// A named generation configuration.
#[derive(Clone, Debug)]
pub struct Preset {
    pub name: String,
    pub description: String,
    pub system_prompt: String,
    pub instruction: Option<String>,
    pub examples: Option<Vec<PromptExample>>,
    pub negative_prompt: Option<String>,
    pub response_format: Option<String>,
    /// Budget of generated tokens.
    pub max_tokens: usize,
    pub stop_on_newline: bool,
    pub include_current_date: bool,
}

/// A calendar day as the prompt shows it: the date already written as
/// `dd.mm.yyyy`, and the day of the week counted from Monday (0) to Sunday (6).
#[derive(Clone, Debug)]
pub struct CalendarDay {
    pub date_text: String,
    pub weekday: u8,
}

pub open spec fn views(v: Seq<String>) -> Seq<Seq<char>> {
    v.map_values(|s: String| s@)
}

/// Blocks joined with a blank line between each two.
pub open spec fn join_blocks(b: Seq<Seq<char>>) -> Seq<char>
    decreases b.len(),
{
    if b.len() == 0 {
        Seq::empty()
    } else if b.len() == 1 {
        b[0]
    } else {
        join_blocks(b.drop_last()) + "\n\n"@ + b.last()
    }
}

pub open spec fn example_text(e: PromptExample) -> Seq<char> {
    "Input: "@ + e.input@ + "\nOutput: "@ + e.output@
}

pub open spec fn examples_block(e: Seq<PromptExample>) -> Seq<char> {
    "Examples:\n"@ + join_blocks(e.map_values(|x: PromptExample| example_text(x)))
}

pub open spec fn weekday_name(w: u8) -> Seq<char> {
    if w == 0 {
        "Monday"@
    } else if w == 1 {
        "Tuesday"@
    } else if w == 2 {
        "Wednesday"@
    } else if w == 3 {
        "Thursday"@
    } else if w == 4 {
        "Friday"@
    } else if w == 5 {
        "Saturday"@
    } else {
        "Sunday"@
    }
}

pub open spec fn date_line(d: CalendarDay) -> Seq<char> {
    "Today is "@ + d.date_text@ + " ("@ + weekday_name(d.weekday) + ")"@
}

pub open spec fn block_if_nonempty(s: Seq<char>) -> Seq<Seq<char>> {
    if s.len() > 0 {
        seq![s]
    } else {
        Seq::empty()
    }
}

pub open spec fn labeled_block(label: Seq<char>, o: Option<String>) -> Seq<Seq<char>> {
    match o {
        Some(s) => seq![label + s@],
        None => Seq::empty(),
    }
}

pub open spec fn date_block(p: Preset, today: Option<CalendarDay>) -> Seq<Seq<char>> {
    match today {
        Some(d) => if p.include_current_date {
            seq![date_line(d)]
        } else {
            Seq::empty()
        },
        None => Seq::empty(),
    }
}

pub open spec fn instruction_block(p: Preset) -> Seq<Seq<char>> {
    match p.instruction {
        Some(i) => block_if_nonempty(i@),
        None => Seq::empty(),
    }
}

pub open spec fn examples_blocks(p: Preset) -> Seq<Seq<char>> {
    match p.examples {
        Some(e) => if e@.len() > 0 {
            seq![examples_block(e@)]
        } else {
            Seq::empty()
        },
        None => Seq::empty(),
    }
}

/// The non-empty blocks of a preset in their fixed order: system prompt,
/// date line (when the preset asks for it and a day is given), instruction,
/// examples, what not to do, response format.
pub open spec fn prompt_blocks(p: Preset, today: Option<CalendarDay>) -> Seq<Seq<char>> {
    block_if_nonempty(p.system_prompt@) + date_block(p, today) + instruction_block(p)
        + examples_blocks(p) + labeled_block("DO NOT: "@, p.negative_prompt)
        + labeled_block("Response format: "@, p.response_format)
}

/// The final prompt for `input` under preset `p`.
pub open spec fn assembled(p: Preset, input: Seq<char>, today: Option<CalendarDay>) -> Seq<char> {
    join_blocks(prompt_blocks(p, today)) + "\n\nInput: "@ + input + "\nOutput:"@
}

/// The prompt without a preset: the input, after the ad-hoc system prompt
/// and a blank line when one is given and non-empty.
pub open spec fn plain_prompt_spec(system_prompt: Option<Seq<char>>, input: Seq<char>) -> Seq<char> {
    match system_prompt {
        Some(s) => if s.len() > 0 {
            s + "\n\n"@ + input
        } else {
            input
        },
        None => input,
    }
}

/// A preset whose optional parts are all absent or empty.
pub open spec fn is_bare(p: Preset) -> bool {
    &&& p.system_prompt@.len() == 0
    &&& p.instruction is None
    &&& p.examples is None
    &&& p.negative_prompt is None
    &&& p.response_format is None
    &&& !p.include_current_date
}

/// Relies on chrono: `Local::now` for the current local date, its `format`
/// with `%d.%m.%Y` for the date text, and `Weekday::num_days_from_monday`,
/// which is below 7.
#[verifier::external_body]
fn current_day() -> (r: CalendarDay)
    ensures
        r.weekday < 7,
{
    let now = chrono::Local::now();
    CalendarDay {
        date_text: now.format("%d.%m.%Y").to_string(),
        weekday: now.weekday().num_days_from_monday() as u8,
    }
}

/// Joins `parts` with a blank line between each two.
pub fn join_parts(parts: &Vec<String>) -> (r: String)
    ensures
        r@ == join_blocks(views(parts@)),
{
    let ghost v = views(parts@);
    let mut r = String::new();
    let mut i: usize = 0;
    while i < parts.len()
        invariant
            v == views(parts@),
            i <= parts@.len(),
            r@ == join_blocks(v.take(i as int)),
        decreases parts@.len() - i,
    {
        proof {
            assert(v.take(i + 1).drop_last() =~= v.take(i as int));
            assert(v.take(i + 1).last() == parts@[i as int]@);
        }
        if i == 0 {
            proof {
                assert(Seq::<char>::empty() + parts@[0]@ =~= parts@[0]@);
            }
        } else {
            r.append("\n\n");
        }
        r.append(parts[i].as_str());
        i = i + 1;
    }
    proof {
        assert(v.take(parts@.len() as int) =~= v);
    }
    r
}

/// The text of a few-shot examples block, without its header.
fn examples_text(examples: &Vec<PromptExample>) -> (r: String)
    ensures
        r@ == join_blocks(examples@.map_values(|x: PromptExample| example_text(x))),
{
    let mut items: Vec<String> = Vec::new();
    let mut i: usize = 0;
    while i < examples.len()
        invariant
            i <= examples@.len(),
            items@.len() == i,
            forall|j: int| 0 <= j < i ==> (#[trigger] items@[j])@ == example_text(examples@[j]),
        decreases examples@.len() - i,
    {
        let e = &examples[i];
        let mut s = "Input: ".to_owned();
        s.append(e.input.as_str());
        s.append("\nOutput: ");
        s.append(e.output.as_str());
        items.push(s);
        i = i + 1;
    }
    proof {
        assert(views(items@) =~= examples@.map_values(|x: PromptExample| example_text(x)));
    }
    join_parts(&items)
}

/// `label` followed by `body`.
fn labeled(label: &str, body: &str) -> (r: String)
    ensures
        r@ == label@ + body@,
{
    let mut s = label.to_owned();
    s.append(body);
    s
}

/// The English name of a day of the week counted from Monday.
pub fn weekday_label(w: u8) -> (r: &'static str)
    ensures
        r@ == weekday_name(w),
{
    if w == 0 {
        "Monday"
    } else if w == 1 {
        "Tuesday"
    } else if w == 2 {
        "Wednesday"
    } else if w == 3 {
        "Thursday"
    } else if w == 4 {
        "Friday"
    } else if w == 5 {
        "Saturday"
    } else {
        "Sunday"
    }
}

/// The blocks of `preset`, in order.
fn prompt_parts(preset: &Preset, today: &Option<CalendarDay>) -> (r: Vec<String>)
    ensures
        views(r@) == prompt_blocks(*preset, *today),
{
    let mut parts: Vec<String> = Vec::new();
    if !preset.system_prompt.as_str().is_empty() {
        parts.push(preset.system_prompt.clone());
    }
    assert(views(parts@) =~= block_if_nonempty(preset.system_prompt@));
    let ghost b1 = views(parts@);
    if preset.include_current_date {
        if let Some(d) = today {
            let mut line = labeled("Today is ", d.date_text.as_str());
            line.append(" (");
            line.append(weekday_label(d.weekday));
            line.append(")");
            parts.push(line);
        }
    }
    assert(views(parts@) =~= b1 + date_block(*preset, *today));
    let ghost b2 = views(parts@);
    if let Some(i) = &preset.instruction {
        if !i.as_str().is_empty() {
            parts.push(i.clone());
        }
    }
    assert(views(parts@) =~= b2 + instruction_block(*preset));
    let ghost b3 = views(parts@);
    if let Some(e) = &preset.examples {
        if e.len() > 0 {
            let body = examples_text(e);
            parts.push(labeled("Examples:\n", body.as_str()));
        }
    }
    assert(views(parts@) =~= b3 + examples_blocks(*preset));
    let ghost b4 = views(parts@);
    if let Some(n) = &preset.negative_prompt {
        parts.push(labeled("DO NOT: ", n.as_str()));
    }
    assert(views(parts@) =~= b4 + labeled_block("DO NOT: "@, preset.negative_prompt));
    let ghost b5 = views(parts@);
    if let Some(f) = &preset.response_format {
        parts.push(labeled("Response format: ", f.as_str()));
    }
    assert(views(parts@) =~= b5 + labeled_block("Response format: "@, preset.response_format));
    parts
}

/// The final prompt for `user_input` under `preset`. The date line stands in
/// it when the preset asks for one and `today` is given.
pub fn assemble(preset: &Preset, user_input: &str, today: &Option<CalendarDay>) -> (r: String)
    ensures
        r@ == assembled(*preset, user_input@, *today),
{
    let parts = prompt_parts(preset, today);
    let mut r = join_parts(&parts);
    r.append("\n\nInput: ");
    r.append(user_input);
    r.append("\nOutput:");
    r
}

/// The prompt without a preset.
pub fn plain_prompt(system_prompt: &Option<String>, user_input: &str) -> (r: String)
    ensures
        r@ == plain_prompt_spec(
            match system_prompt {
                Some(s) => Some(s@),
                None => None,
            },
            user_input@,
        ),
{
    match system_prompt {
        Some(s) => {
            if !s.as_str().is_empty() {
                let mut r = s.clone();
                r.append("\n\n");
                r.append(user_input);
                r
            } else {
                user_input.to_owned()
            }
        },
        None => user_input.to_owned(),
    }
}

impl Preset {
    /// A preset with only its name, description, budget and newline rule set;
    /// everything else takes its default (empty or absent, no date).
    pub fn new(name: String, description: String, max_tokens: usize, stop_on_newline: bool) -> (r: Preset)
        ensures
            r.name == name,
            r.description == description,
            r.max_tokens == max_tokens,
            r.stop_on_newline == stop_on_newline,
            is_bare(r),
    {
        Preset {
            name,
            description,
            system_prompt: String::new(),
            instruction: None,
            examples: None,
            negative_prompt: None,
            response_format: None,
            max_tokens,
            stop_on_newline,
            include_current_date: false,
        }
    }

    /// The final prompt for `user_input`, with today's local date where the
    /// preset asks for it.
    pub fn build_full_prompt(&self, user_input: &str) -> (r: String)
        ensures
            !self.include_current_date ==> r@ == assembled(*self, user_input@, None),
            self.include_current_date ==> exists|d: CalendarDay|
                d.weekday < 7 && r@ == assembled(*self, user_input@, Some(d)),
    {
        if self.include_current_date {
            let today = Some(current_day());
            assemble(self, user_input, &today)
        } else {
            assemble(self, user_input, &None)
        }
    }
}

/// A preset with nothing but its name, description, budget and newline rule
/// wraps the input in the turn marker alone.
pub proof fn law_bare_preset_prompt(p: Preset, input: Seq<char>, today: Option<CalendarDay>)
    requires
        is_bare(p),
    ensures
        assembled(p, input, today) == "\n\nInput: "@ + input + "\nOutput:"@,
{
    assert(prompt_blocks(p, today) =~= Seq::<Seq<char>>::empty());
    assert(Seq::<char>::empty() + "\n\nInput: "@ =~= "\n\nInput: "@);
}

} // verus!
