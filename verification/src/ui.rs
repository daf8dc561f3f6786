//! The menu: an ordered list of options, one of them highlighted, and what
//! each key press does to it. Drawing the menu and reading the keys is left to
//! the caller, who feeds the keys in one by one until an option is chosen.

use crate::common::{OptionView, UserOption};
use vstd::prelude::*;

verus! {

/// The key that closes the menu without a choice of the user's own.
pub const QUIT_KEY: char = 'q';

/// A key press, as far as the menu tells keys apart.
#[derive(Debug, Clone, Copy, PartialEq, Eq)]
pub enum MenuKey {
    Up,
    Down,
    Enter,
    Esc,
    /// A character key, and whether the control key was held with it.
    Char { c: char, ctrl: bool },
    /// Any other key.
    Other,
}

/// What a key press leads to.
#[derive(Debug, Clone, Copy, PartialEq, Eq)]
pub enum MenuOutcome {
    /// The menu stays open, with the option at this position highlighted.
    Highlighted(usize),
    /// The menu closes, and this key is its result.
    Chosen(char),
}

/// The options as values.
pub open spec fn option_views(options: Seq<UserOption>) -> Seq<OptionView> {
    options.map_values(|o: UserOption| o@)
}

/// The keys of the options are pairwise distinct.
pub open spec fn has_distinct_keys(options: Seq<OptionView>) -> bool {
    forall|i: int, j: int|
        0 <= i < j < options.len() ==> (#[trigger] options[i]).keybind != (
        #[trigger] options[j]).keybind
}

/// One of the options has the key `c`.
pub open spec fn has_key(options: Seq<OptionView>, c: char) -> bool {
    exists|i: int| 0 <= i < options.len() && (#[trigger] options[i]).keybind == c
}

/// The highlight moves one option up, unless it is on the first one.
pub open spec fn moved_up(selected: usize) -> MenuOutcome {
    if selected > 0 {
        MenuOutcome::Highlighted((selected - 1) as usize)
    } else {
        MenuOutcome::Highlighted(selected)
    }
}

/// The highlight moves one option down, unless it is on the last one.
pub open spec fn moved_down(options: Seq<OptionView>, selected: usize) -> MenuOutcome {
    if selected + 1 < options.len() {
        MenuOutcome::Highlighted((selected + 1) as usize)
    } else {
        MenuOutcome::Highlighted(selected)
    }
}

/// A character that is the key of an option chooses it; any other character
/// leaves the menu as it is.
pub open spec fn typed(options: Seq<OptionView>, selected: usize, c: char) -> MenuOutcome {
    if has_key(options, c) {
        MenuOutcome::Chosen(c)
    } else {
        MenuOutcome::Highlighted(selected)
    }
}

/// What the key does to a menu of `options` whose option `selected` is
/// highlighted.
///
/// The arrows move the highlight, and so do `k` and `j`, and `p` and `n` with
/// the control key. A moving character on which the highlight cannot move
/// counts as a typed character. Enter chooses the highlighted option, escape
/// stands for the quit key.
pub open spec fn menu_outcome(options: Seq<OptionView>, selected: usize, key: MenuKey)
    -> MenuOutcome {
    let above = selected > 0;
    let below = selected + 1 < options.len();
    match key {
        MenuKey::Up => moved_up(selected),
        MenuKey::Down => moved_down(options, selected),
        MenuKey::Enter => MenuOutcome::Chosen(options[selected as int].keybind),
        MenuKey::Esc => MenuOutcome::Chosen(QUIT_KEY),
        MenuKey::Char { c, ctrl } => {
            if c == 'k' && above {
                moved_up(selected)
            } else if c == 'j' && below {
                moved_down(options, selected)
            } else if c == 'n' && ctrl && below {
                moved_down(options, selected)
            } else if c == 'p' && ctrl && above {
                moved_up(selected)
            } else {
                typed(options, selected, c)
            }
        },
        MenuKey::Other => MenuOutcome::Highlighted(selected),
    }
}

/// Whether one of the options has the key `c`.
pub fn find_key(options: &Vec<UserOption>, c: char) -> (found: bool)
    ensures
        found == has_key(option_views(options@), c),
{
    let mut i: usize = 0;
    while i < options.len()
        invariant
            0 <= i <= options.len(),
            forall|j: int| 0 <= j < i ==> (#[trigger] option_views(options@)[j]).keybind != c,
        decreases options.len() - i,
    {
        if options[i].keybind == c {
            assert(option_views(options@)[i as int].keybind == c);
            return true;
        }
        i += 1;
    }
    false
}

/// Handles one key press in a menu of `options` whose option `selected` is
/// highlighted.
///
/// While the menu stays open the highlight stays on one of the options.
pub fn menu_step(options: &Vec<UserOption>, selected: usize, key: MenuKey) -> (outcome:
    MenuOutcome)
    requires
        selected < options.len(),
    ensures
        outcome == menu_outcome(option_views(options@), selected, key),
        outcome matches MenuOutcome::Highlighted(next) ==> next < options.len(),
{
    let above = selected > 0;
    let below = selected < options.len() - 1;
    match key {
        MenuKey::Up => {
            if above {
                MenuOutcome::Highlighted(selected - 1)
            } else {
                MenuOutcome::Highlighted(selected)
            }
        },
        MenuKey::Down => {
            if below {
                MenuOutcome::Highlighted(selected + 1)
            } else {
                MenuOutcome::Highlighted(selected)
            }
        },
        MenuKey::Enter => {
            assert(option_views(options@)[selected as int] == options[selected as int]@);
            MenuOutcome::Chosen(options[selected].keybind)
        },
        MenuKey::Esc => MenuOutcome::Chosen(QUIT_KEY),
        MenuKey::Char { c, ctrl } => {
            if (c == 'k' || (c == 'p' && ctrl)) && above {
                MenuOutcome::Highlighted(selected - 1)
            } else if (c == 'j' || (c == 'n' && ctrl)) && below {
                MenuOutcome::Highlighted(selected + 1)
            } else if find_key(options, c) {
                MenuOutcome::Chosen(c)
            } else {
                MenuOutcome::Highlighted(selected)
            }
        },
        MenuKey::Other => MenuOutcome::Highlighted(selected),
    }
}

} // verus!
