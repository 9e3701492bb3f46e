//! Keyboard-driven choice from a list, and the commands of the chat loop.

use vstd::prelude::*;

verus! {

/// A key press that the list reacts to.
#[derive(PartialEq, Eq, Structural, Clone, Copy, Debug)]
pub enum MenuKey {
    Up,
    Down,
    Enter,
    Escape,
    Other,
}

/// What a key press does to a list with a highlighted entry.
#[derive(PartialEq, Eq, Structural, Clone, Copy, Debug)]
pub enum MenuOutcome {
    /// The highlight moved to this entry.
    Moved(usize),
    /// Nothing changed.
    Unchanged,
    /// This entry was chosen.
    Chosen(usize),
    /// The list was left without a choice.
    Cancelled,
}

/// What the preset list offers: the presets, then free chat, going back to
/// the model list, and leaving the program.
#[derive(PartialEq, Eq, Structural, Clone, Copy, Debug)]
pub enum PresetChoice {
    Preset(usize),
    FreeChat,
    Back,
    Exit,
}

/// The effect of `key` on a list of `len` entries whose entry `selected` is
/// highlighted. The highlight stays within the list.
pub fn menu_step(selected: usize, len: usize, key: MenuKey) -> (r: MenuOutcome)
    requires
        selected < len,
    ensures
        key == MenuKey::Up ==> r == if selected > 0 {
            MenuOutcome::Moved((selected - 1) as usize)
        } else {
            MenuOutcome::Unchanged
        },
        key == MenuKey::Down ==> r == if selected + 1 < len {
            MenuOutcome::Moved((selected + 1) as usize)
        } else {
            MenuOutcome::Unchanged
        },
        key == MenuKey::Enter ==> r == MenuOutcome::Chosen(selected),
        key == MenuKey::Escape ==> r == MenuOutcome::Cancelled,
        key == MenuKey::Other ==> r == MenuOutcome::Unchanged,
{
    match key {
        MenuKey::Up => if selected > 0 {
            MenuOutcome::Moved(selected - 1)
        } else {
            MenuOutcome::Unchanged
        },
        MenuKey::Down => if selected + 1 < len {
            MenuOutcome::Moved(selected + 1)
        } else {
            MenuOutcome::Unchanged
        },
        MenuKey::Enter => MenuOutcome::Chosen(selected),
        MenuKey::Escape => MenuOutcome::Cancelled,
        MenuKey::Other => MenuOutcome::Unchanged,
    }
}

/// The model behind entry `choice` of a list of `n_models` models followed
/// by an exit entry; `None` for the exit entry.
pub fn model_choice(choice: usize, n_models: usize) -> (r: Option<usize>)
    requires
        choice <= n_models,
    ensures
        r == if choice < n_models {
            Some(choice)
        } else {
            None::<usize>
        },
{
    if choice < n_models {
        Some(choice)
    } else {
        None
    }
}

/// The meaning of entry `choice` of the preset list for `n_presets` presets.
pub fn preset_choice(choice: usize, n_presets: usize) -> (r: PresetChoice)
    requires
        choice < n_presets + 3,
    ensures
        choice < n_presets ==> r == PresetChoice::Preset(choice),
        choice == n_presets ==> r == PresetChoice::FreeChat,
        choice == n_presets + 1 ==> r == PresetChoice::Back,
        choice == n_presets + 2 ==> r == PresetChoice::Exit,
{
    if choice < n_presets {
        PresetChoice::Preset(choice)
    } else if choice == n_presets {
        PresetChoice::FreeChat
    } else if choice == n_presets + 1 {
        PresetChoice::Back
    } else {
        PresetChoice::Exit
    }
}

/// `c` with ASCII upper-case letters made lower-case.
pub open spec fn ascii_lower(c: char) -> char {
    if 'A' <= c && c <= 'Z' {
        ((c as u8) + 32) as char
    } else {
        c
    }
}

pub open spec fn exit_word() -> Seq<char> {
    seq!['e', 'x', 'i', 't']
}

/// Whether a line of input is the word `exit`, in any ASCII case.
pub open spec fn is_exit(s: Seq<char>) -> bool {
    s.len() == 4 && forall|k: int| 0 <= k < 4 ==> ascii_lower(#[trigger] s[k]) == exit_word()[k]
}

fn lower_char(c: char) -> (r: char)
    ensures
        r == ascii_lower(c),
{
    if 'A' <= c && c <= 'Z' {
        ((c as u8) + 32) as char
    } else {
        c
    }
}

/// Whether `input` asks to leave the chat loop.
pub fn is_exit_command(input: &str) -> (r: bool)
    ensures
        r == is_exit(input@),
{
    let word = ['e', 'x', 'i', 't'];
    let mut ok = true;
    let mut n: usize = 0;
    for x in it: input.chars()
        invariant
            it.seq() == input@,
            n == if it.index() <= 5 { it.index() } else { 5 },
            word@ == exit_word(),
            ok == (forall|k: int| 0 <= k < n && k < 4 ==> ascii_lower(#[trigger] input@[k]) == exit_word()[k]),
    {
        if n < 4 {
            if lower_char(x) != word[n] {
                ok = false;
            }
        }
        if n < 5 {
            n = n + 1;
        }
    }
    ok && n == 4
}

} // verus!
