//! Laws of the global shortcuts.

use vstd::prelude::*;

use crate::shortcuts::{
    act_on_shortcut, handle_global_shortcut, holds_or, shortcut_number, ShortcutAction,
    ShortcutNumbers, ShortcutState,
};
use crate::startup::SettingsState;
use crate::text::replaced;

verus! {

/// Each action occurs exactly where its keys are pressed or released: the main shortcut
/// toggles on pressing; on releasing, the sequential one pastes the next item only in the
/// sequential mode, and of rich paste, search and quick paste the first that the keys
/// stand for acts alone.
pub proof fn law_each_action_has_its_keys(
    state: ShortcutState,
    shortcut: u32,
    numbers: ShortcutNumbers,
    sequential_mode: bool,
    quick_index: Option<usize>,
    index: usize,
    res: Vec<ShortcutAction>,
)
    requires
        call_ensures(
            act_on_shortcut,
            (state, shortcut, &numbers, sequential_mode, quick_index),
            res,
        ),
    ensures
        res@.contains(ShortcutAction::ToggleWindow) <==> state is Pressed && numbers.main == Some(
            shortcut,
        ),
        res@.contains(ShortcutAction::PasteNext) <==> state is Released && sequential_mode
            && numbers.sequential == Some(shortcut),
        res@.contains(ShortcutAction::PasteRich) <==> state is Released && numbers.rich == Some(
            shortcut,
        ),
        res@.contains(ShortcutAction::FocusSearch) <==> state is Released && numbers.search == Some(
            shortcut,
        ) && numbers.rich != Some(shortcut),
        res@.contains(ShortcutAction::PasteItem(index)) <==> state is Released && quick_index
            == Some(index) && numbers.rich != Some(shortcut) && numbers.search != Some(shortcut),
{
    let second: int = if state is Released && sequential_mode && numbers.sequential == Some(
        shortcut,
    ) {
        1
    } else {
        0
    };
    if res@.len() > 0 {
        assert(res@.contains(res@[0]));
    }
    if res@.len() > second {
        assert(res@.contains(res@[second]));
    }
}

/// Nothing is done twice, pasting the next item comes first, and at most one other action
/// follows it.
pub proof fn law_actions_are_few(
    state: ShortcutState,
    shortcut: u32,
    numbers: ShortcutNumbers,
    sequential_mode: bool,
    quick_index: Option<usize>,
    res: Vec<ShortcutAction>,
)
    requires
        call_ensures(
            act_on_shortcut,
            (state, shortcut, &numbers, sequential_mode, quick_index),
            res,
        ),
    ensures
        res@.len() <= 2,
        res@.len() == 2 ==> res@[0] == ShortcutAction::PasteNext && res@[1]
            != ShortcutAction::PasteNext,
        state is Pressed ==> res@.len() <= 1,
{
}

/// Whether a configured hotkey can mean the shortcut with a number, by one reading of the
/// keys that differ between systems; `Win` in it is called `Super`.
pub open spec fn can_mean(hotkey: Seq<char>, shortcut: u32) -> bool {
    shortcut_number(replaced(hotkey, "Win"@, "Super"@), true) == Some(shortcut) || shortcut_number(
        replaced(hotkey, "Win"@, "Super"@),
        false,
    ) == Some(shortcut)
}

/// Whether a configured hotkey means that shortcut by either reading.
pub open spec fn must_mean(hotkey: Seq<char>, shortcut: u32) -> bool {
    shortcut_number(replaced(hotkey, "Win"@, "Super"@), true) == Some(shortcut) && shortcut_number(
        replaced(hotkey, "Win"@, "Super"@),
        false,
    ) == Some(shortcut)
}

/// Each configured hotkey does what it is configured for, and nothing else: an action
/// occurs only where its own hotkey can mean the shortcut, and does where it must.
pub proof fn law_each_hotkey_has_its_action(
    state: ShortcutState,
    shortcut: u32,
    settings: SettingsState,
    quick_index: Option<usize>,
    index: usize,
    res: Vec<ShortcutAction>,
)
    requires
        call_ensures(handle_global_shortcut, (state, shortcut, &settings, quick_index), res),
    ensures
        res@.contains(ShortcutAction::ToggleWindow) ==> state is Pressed && can_mean(
            settings.main_hotkey@,
            shortcut,
        ),
        state is Pressed && must_mean(settings.main_hotkey@, shortcut) ==> res@.contains(
            ShortcutAction::ToggleWindow,
        ),
        res@.contains(ShortcutAction::PasteNext) ==> state is Released && settings.sequential_mode
            && can_mean(settings.sequential_paste_hotkey@, shortcut),
        state is Released && settings.sequential_mode && must_mean(
            settings.sequential_paste_hotkey@,
            shortcut,
        ) ==> res@.contains(ShortcutAction::PasteNext),
        res@.contains(ShortcutAction::PasteRich) ==> state is Released && can_mean(
            settings.rich_paste_hotkey@,
            shortcut,
        ),
        state is Released && must_mean(settings.rich_paste_hotkey@, shortcut) ==> res@.contains(
            ShortcutAction::PasteRich,
        ),
        res@.contains(ShortcutAction::FocusSearch) ==> state is Released && can_mean(
            settings.search_hotkey@,
            shortcut,
        ) && !must_mean(settings.rich_paste_hotkey@, shortcut),
        state is Released && must_mean(settings.search_hotkey@, shortcut) && !can_mean(
            settings.rich_paste_hotkey@,
            shortcut,
        ) ==> res@.contains(ShortcutAction::FocusSearch),
        res@.contains(ShortcutAction::PasteItem(index)) ==> state is Released && quick_index
            == Some(index) && !must_mean(settings.rich_paste_hotkey@, shortcut) && !must_mean(
            settings.search_hotkey@,
            shortcut,
        ),
        state is Released && quick_index == Some(index) && !can_mean(
            settings.rich_paste_hotkey@,
            shortcut,
        ) && !can_mean(settings.search_hotkey@, shortcut) ==> res@.contains(
            ShortcutAction::PasteItem(index),
        ),
{
    if res@.len() > 0 {
        assert(res@.contains(res@[0]));
    }
    if res@.len() > 1 {
        assert(res@.contains(res@[1]));
    }
}

/// A hotkey without the letters `or` has one meaning alone, whatever the system.
pub proof fn law_plain_hotkeys_are_certain(
    state: ShortcutState,
    shortcut: u32,
    settings: SettingsState,
    quick_index: Option<usize>,
    res: Vec<ShortcutAction>,
)
    requires
        call_ensures(handle_global_shortcut, (state, shortcut, &settings, quick_index), res),
    ensures
        !holds_or(replaced(settings.main_hotkey@, "Win"@, "Super"@)) ==> (can_mean(
            settings.main_hotkey@,
            shortcut,
        ) ==> must_mean(settings.main_hotkey@, shortcut)),
        !holds_or(replaced(settings.sequential_paste_hotkey@, "Win"@, "Super"@)) ==> (can_mean(
            settings.sequential_paste_hotkey@,
            shortcut,
        ) ==> must_mean(settings.sequential_paste_hotkey@, shortcut)),
        !holds_or(replaced(settings.rich_paste_hotkey@, "Win"@, "Super"@)) ==> (can_mean(
            settings.rich_paste_hotkey@,
            shortcut,
        ) ==> must_mean(settings.rich_paste_hotkey@, shortcut)),
        !holds_or(replaced(settings.search_hotkey@, "Win"@, "Super"@)) ==> (can_mean(
            settings.search_hotkey@,
            shortcut,
        ) ==> must_mean(settings.search_hotkey@, shortcut)),
{
}

} // verus!
