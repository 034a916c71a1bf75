//! What a global shortcut does.
//!
//! The window toolkit registers shortcuts through a plugin whose shortcut type is the
//! `HotKey` of `global_hotkey`. Descriptions of shortcuts are read by that crate here too,
//! so that both mean the same keys.

use vstd::prelude::*;

use crate::startup::SettingsState;
use crate::text::{replace_all, replaced};

verus! {

/// What the keys of a shortcut did.
#[derive(Clone, Copy, Debug, PartialEq, Eq, Structural)]
pub enum ShortcutState {
    Pressed,
    Released,
}

/// What a shortcut does.
#[derive(Clone, Copy, Debug, PartialEq, Eq, Structural)]
pub enum ShortcutAction {
    /// Shows or hides the window.
    ToggleWindow,
    /// Pastes the next item of the queue.
    PasteNext,
    /// Pastes the latest item with its formatting.
    PasteRich,
    FocusSearch,
    /// Pastes the item at a position of the history.
    PasteItem(usize),
}

/// Whether a text holds the letters `or` in a row, in any case, as the keys do that
/// stand for the command key on one system and the control key on another.
pub open spec fn holds_or(text: Seq<char>) -> bool {
    exists|i: int|
        0 <= i && i + 1 < text.len() && (#[trigger] text[i] == 'o' || text[i] == 'O') && (text[i + 1]
            == 'r' || text[i + 1] == 'R')
}

/// The number of the shortcut that a text describes, if it describes one. The keys that
/// name the command or the control key, whichever the system uses, stand for the
/// command key where `command` holds, else for the control key.
pub uninterp spec fn shortcut_number(text: Seq<char>, command: bool) -> Option<u32>;

/// Reads the description of a shortcut, by `HotKey::from_str` of `global_hotkey`, and
/// gives the number that `HotKey::id` has for it.
///
/// The number is made of the modifiers and the key, so that two shortcuts are equal
/// where their numbers are. It depends on the text, and on the system only in how the
/// keys are read that name the command or the control key, whichever the system uses.
/// Each of them holds the letters `or`: without these letters both readings agree. Which
/// of the two the system has is left open.
#[verifier::external_body]
fn parse_shortcut(text: &str) -> (res: Option<u32>)
    ensures
        exists|command: bool| res == #[trigger] shortcut_number(text@, command),
        !holds_or(text@) ==> res == shortcut_number(text@, true) && res == shortcut_number(
            text@,
            false,
        ),
{
    match text.parse::<global_hotkey::hotkey::HotKey>() {
        Ok(hotkey) => Some(hotkey.id()),
        Err(_) => None,
    }
}

/// The numbers of the configured shortcuts; a text that describes none has no number.
#[derive(Clone, Copy, Debug, PartialEq, Eq, Structural)]
pub struct ShortcutNumbers {
    pub main: Option<u32>,
    pub sequential: Option<u32>,
    pub rich: Option<u32>,
    pub search: Option<u32>,
}

/// Whether `number` is the one of a configured shortcut, in which the Windows key may
/// be called `Win`, by one reading of its keys.
pub open spec fn is_number_of(number: Option<u32>, hotkey: Seq<char>) -> bool {
    let text = replaced(hotkey, "Win"@, "Super"@);
    &&& exists|command: bool| number == #[trigger] shortcut_number(text, command)
    &&& !holds_or(text) ==> number == shortcut_number(text, true) && number == shortcut_number(
        text,
        false,
    )
}

impl ShortcutNumbers {
    /// Whether these are the numbers of the shortcuts in `settings`.
    pub open spec fn are_of(self, settings: SettingsState) -> bool {
        &&& is_number_of(self.main, settings.main_hotkey@)
        &&& is_number_of(self.sequential, settings.sequential_paste_hotkey@)
        &&& is_number_of(self.rich, settings.rich_paste_hotkey@)
        &&& is_number_of(self.search, settings.search_hotkey@)
    }
}

fn number_of(hotkey: &str) -> (res: Option<u32>)
    ensures
        is_number_of(res, hotkey@),
{
    let text = replace_all(hotkey, "Win", "Super");
    parse_shortcut(text.as_str())
}

/// What a shortcut does: pressing the main one toggles the window, and the others act
/// when they are released. Pasting in sequence needs its mode, and does not keep the
/// other meanings of the same keys from being tried; of these the first counts.
pub open spec fn shortcut_actions(
    state: ShortcutState,
    shortcut: u32,
    numbers: ShortcutNumbers,
    sequential_mode: bool,
    quick_index: Option<usize>,
) -> Seq<ShortcutAction> {
    match state {
        ShortcutState::Pressed => {
            if numbers.main == Some(shortcut) {
                seq![ShortcutAction::ToggleWindow]
            } else {
                seq![]
            }
        },
        ShortcutState::Released => {
            (if numbers.sequential == Some(shortcut) && sequential_mode {
                seq![ShortcutAction::PasteNext]
            } else {
                seq![]
            }) + if numbers.rich == Some(shortcut) {
                seq![ShortcutAction::PasteRich]
            } else if numbers.search == Some(shortcut) {
                seq![ShortcutAction::FocusSearch]
            } else {
                match quick_index {
                    Some(index) => seq![ShortcutAction::PasteItem(index)],
                    None => seq![],
                }
            }
        },
    }
}

fn is_same(number: Option<u32>, shortcut: u32) -> (res: bool)
    ensures
        res == (number == Some(shortcut)),
{
    match number {
        Some(number) => number == shortcut,
        None => false,
    }
}

/// Decides what a shortcut does, given the numbers of the configured ones.
/// `quick_index` is the history position that the shortcut stands for, if any.
pub fn act_on_shortcut(
    state: ShortcutState,
    shortcut: u32,
    numbers: &ShortcutNumbers,
    sequential_mode: bool,
    quick_index: Option<usize>,
) -> (res: Vec<ShortcutAction>)
    ensures
        res@ == shortcut_actions(state, shortcut, *numbers, sequential_mode, quick_index),
{
    let mut actions: Vec<ShortcutAction> = Vec::new();
    match state {
        ShortcutState::Pressed => {
            if is_same(numbers.main, shortcut) {
                actions.push(ShortcutAction::ToggleWindow);
            }
        },
        ShortcutState::Released => {
            if is_same(numbers.sequential, shortcut) && sequential_mode {
                actions.push(ShortcutAction::PasteNext);
            }
            if is_same(numbers.rich, shortcut) {
                actions.push(ShortcutAction::PasteRich);
            } else if is_same(numbers.search, shortcut) {
                actions.push(ShortcutAction::FocusSearch);
            } else if let Some(index) = quick_index {
                actions.push(ShortcutAction::PasteItem(index));
            }
        },
    }
    actions
}

/// Decides what a shortcut does. `shortcut` is its number, and `quick_index` the
/// history position that it stands for, if any.
pub fn handle_global_shortcut(
    state: ShortcutState,
    shortcut: u32,
    settings: &SettingsState,
    quick_index: Option<usize>,
) -> (res: Vec<ShortcutAction>)
    ensures
        exists|numbers: ShortcutNumbers| #[trigger]
            numbers.are_of(*settings) && res@ == shortcut_actions(
                state,
                shortcut,
                numbers,
                settings.sequential_mode,
                quick_index,
            ),
{
    let numbers = ShortcutNumbers {
        main: number_of(settings.main_hotkey.as_str()),
        sequential: number_of(settings.sequential_paste_hotkey.as_str()),
        rich: number_of(settings.rich_paste_hotkey.as_str()),
        search: number_of(settings.search_hotkey.as_str()),
    };
    assert(numbers.are_of(*settings));
    act_on_shortcut(state, shortcut, &numbers, settings.sequential_mode, quick_index)
}

/// Pressing keys never pastes, and releasing them never toggles the window, so that a
/// shortcut acts once however long it is held.
pub proof fn lemma_press_toggles_and_release_pastes(
    state: ShortcutState,
    shortcut: u32,
    numbers: ShortcutNumbers,
    sequential_mode: bool,
    quick_index: Option<usize>,
    i: int,
)
    requires
        0 <= i < shortcut_actions(state, shortcut, numbers, sequential_mode, quick_index).len(),
    ensures
        state == ShortcutState::Pressed <==> shortcut_actions(
            state,
            shortcut,
            numbers,
            sequential_mode,
            quick_index,
        )[i] == ShortcutAction::ToggleWindow,
{
}

/// A shortcut that nothing is configured for does nothing.
pub proof fn lemma_unknown_shortcut_does_nothing(
    state: ShortcutState,
    shortcut: u32,
    numbers: ShortcutNumbers,
    sequential_mode: bool,
)
    requires
        numbers.main != Some(shortcut),
        numbers.sequential != Some(shortcut),
        numbers.rich != Some(shortcut),
        numbers.search != Some(shortcut),
    ensures
        shortcut_actions(state, shortcut, numbers, sequential_mode, None) == Seq::<
            ShortcutAction,
        >::empty(),
{
}

} // verus!
