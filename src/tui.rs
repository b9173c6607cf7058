//! The decisions of the interactive selector: how tall it is drawn, and how
//! a typed answer is read.

use vstd::prelude::*;
use vstd::string::*;

use crate::text::{has_prefix, same_text, starts_with, trim, trimmed};

verus! {

/// The tallest that the selector is drawn, in lines.
pub const MAX_HEIGHT: u16 = 15;

/// The lines that the selector adds to its items: the search prompt and
/// some padding.
pub const EXTRA_LINES: usize = 2;

/// The interactive selector.
pub struct TuiSelector;

/// The height of the selector for `item_count` items.
pub open spec fn height_for(item_count: nat) -> nat {
    let needed = item_count + EXTRA_LINES;
    if needed < MAX_HEIGHT {
        needed as nat
    } else {
        MAX_HEIGHT as nat
    }
}

/// The entry of the confirmation menu that agrees.
pub const CONFIRM_PREFIX: &'static str = "Yes";

impl TuiSelector {
    /// The height of the selector for `item_count` items: one line per item
    /// and two more, at most fifteen.
    pub fn calculate_height(item_count: usize) -> (r: u16)
        ensures
            r as nat == height_for(item_count as nat),
    {
        if item_count < (MAX_HEIGHT as usize) - EXTRA_LINES {
            (item_count + EXTRA_LINES) as u16
        } else {
            MAX_HEIGHT
        }
    }

    /// The item that a typed number picks, counting from one; none for a
    /// number out of range.
    pub fn choice_from_number(items: &Vec<String>, choice: usize) -> (r: Option<String>)
        ensures
            1 <= choice <= items@.len() ==> (r matches Some(s) && s@ == items@[choice - 1]@),
            !(1 <= choice <= items@.len()) ==> r is None,
    {
        if choice > 0 && choice <= items.len() {
            Some(items[choice - 1].clone())
        } else {
            None
        }
    }

    /// The new branch name typed by the user, without surrounding white
    /// space; none when nothing was typed.
    pub fn new_branch_name(input: &str) -> (r: Option<String>)
        ensures
            trimmed(input@).len() == 0 ==> r is None,
            trimmed(input@).len() > 0 ==> (r matches Some(s) && s@ == trimmed(input@)),
    {
        let name = trim(input);
        if name.as_str().unicode_len() == 0 {
            None
        } else {
            Some(name)
        }
    }

    /// Whether a typed answer, already in lower case, agrees: `y` or `yes`
    /// once surrounding white space is removed.
    pub fn is_affirmative(response: &str) -> (r: bool)
        ensures
            r == (trimmed(response@) == "y"@ || trimmed(response@) == "yes"@),
    {
        let answer = trim(response);
        same_text(answer.as_str(), "y") || same_text(answer.as_str(), "yes")
    }

    /// The entries of the menu that confirms deleting `worktree_name`.
    pub fn confirmation_options(worktree_name: &str) -> (r: Vec<String>)
        ensures
            r@.len() == 2,
            r@[0]@ == "Yes - Delete "@ + worktree_name@,
            r@[1]@ == "No - Cancel"@,
    {
        let mut yes = String::from_str("Yes - Delete ");
        yes.append(worktree_name);
        vec![yes, String::from_str("No - Cancel")]
    }

    /// Whether the chosen entry of the confirmation menu agrees.
    pub fn is_confirmed(selected: &str) -> (r: bool)
        ensures
            r == starts_with(selected@, CONFIRM_PREFIX@),
    {
        has_prefix(selected, CONFIRM_PREFIX)
    }
}

} // verus!
