//! Numbered menus: the player answers with the number of an entry, counted
//! from one.

use vstd::prelude::*;

verus! {

/// The entry that `choice` stands for on `menu`, or `None` where the menu
/// has no entry of that number.
pub open spec fn menu_entry<T>(menu: Seq<T>, choice: int) -> Option<T> {
    if 1 <= choice <= menu.len() {
        Some(menu[choice - 1])
    } else {
        None
    }
}

/// Returns the entry that `choice` stands for on `menu`, or `None` where the
/// menu has no entry of that number.
pub fn pick<T: Copy>(menu: &Vec<T>, choice: usize) -> (entry: Option<T>)
    ensures
        entry == menu_entry(menu@, choice as int),
        entry.is_some() <==> 1 <= choice <= menu@.len(),
{
    if 1 <= choice && choice <= menu.len() {
        Some(menu[choice - 1])
    } else {
        None
    }
}

} // verus!
