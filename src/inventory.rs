//! Moving through the inventory screen: the selected row within a scrolling
//! window, and the circular change of category.
use vstd::prelude::*;
use crate::state::{InventoryState, MainScreenState, ScreenStates};

verus! {

/// The number of rows that the inventory list shows at once.
pub const INVENTORY_ROWS: usize = 18;

#[derive(Clone, Copy, Debug, PartialEq, Eq, Structural, Hash)]
pub enum InvNavDir {
    Up,
    Down,
}

/// The navigation intents of the inventory screen.
#[derive(Clone, Copy, Debug, PartialEq, Eq, Structural, Hash)]
pub enum NavIntent {
    NavigateUp,
    NavigateDown,
    NavigatePrevCategory,
    NavigateNextCategory,
}

/// The selected row (`.0`) and the first row of the shown window (`.1`).
#[derive(Clone, Copy, Debug, Default, PartialEq, Eq, Structural)]
pub struct InvIndex(pub usize, pub usize);

/// The selection after one step `dir` through a list of `inv_size` items.
pub open spec fn stepped_index(i: InvIndex, dir: InvNavDir, inv_size: usize) -> InvIndex {
    match dir {
        InvNavDir::Up => if i.0 > 0 {
            let sel = (i.0 - 1) as usize;
            InvIndex(
                sel,
                if i.1 + 1 > sel && i.1 > 0 {
                    (i.1 - 1) as usize
                } else {
                    i.1
                },
            )
        } else {
            i
        },
        InvNavDir::Down => if i.0 + 1 < inv_size {
            let sel = (i.0 + 1) as usize;
            InvIndex(
                sel,
                if sel + 1 >= i.1 + INVENTORY_ROWS {
                    (i.1 + 1) as usize
                } else {
                    i.1
                },
            )
        } else {
            i
        },
    }
}

impl InvIndex {
    /// Moves the selection one row, scrolling the window to keep it in view; at
    /// either end of the list nothing changes.
    pub fn navigate(&mut self, dir: InvNavDir, inv_size: usize)
        ensures
            *final(self) == stepped_index(*old(self), dir, inv_size),
    {
        match dir {
            InvNavDir::Up => {
                if self.0 > 0 {
                    self.0 = self.0 - 1;
                    if self.1 >= self.0 && self.1 > 0 {
                        self.1 = self.1 - 1;
                    }
                }
            },
            InvNavDir::Down => {
                if inv_size > 0 && self.0 < inv_size - 1 {
                    self.0 = self.0 + 1;
                    if self.0 + 1 >= INVENTORY_ROWS && self.0 + 1 - INVENTORY_ROWS >= self.1 {
                        self.1 = self.1 + 1;
                    }
                }
            },
        }
    }
}

/// Applies an inventory navigation intent. Away from the inventory screen it has no
/// effect. A change of category moves round the circle of categories and returns to
/// the top of the list; a row step moves the selection of the all-items list.
pub fn navigate_inventory(
    states: &mut ScreenStates,
    index: &mut InvIndex,
    intent: NavIntent,
    inv_size: usize,
)
    requires
        old(states).wf(),
    ensures
        final(states).wf(),
        old(states).screen != Some(MainScreenState::Inventory) ==> *final(states) == *old(states)
            && *final(index) == *old(index),
        old(states).screen == Some(MainScreenState::Inventory) ==> match intent {
            NavIntent::NavigatePrevCategory => final(states).inventory == Some(
                old(states).inventory.unwrap().prev_spec(),
            ) && final(states).main == old(states).main && final(states).game == old(
                states,
            ).game && final(states).screen == old(states).screen && *final(index) == InvIndex(
                0,
                0,
            ),
            NavIntent::NavigateNextCategory => final(states).inventory == Some(
                old(states).inventory.unwrap().next_spec(),
            ) && final(states).main == old(states).main && final(states).game == old(
                states,
            ).game && final(states).screen == old(states).screen && *final(index) == InvIndex(
                0,
                0,
            ),
            NavIntent::NavigateUp => *final(states) == *old(states) && *final(index) == if old(
                states,
            ).inventory == Some(InventoryState::All) {
                stepped_index(*old(index), InvNavDir::Up, inv_size)
            } else {
                *old(index)
            },
            NavIntent::NavigateDown => *final(states) == *old(states) && *final(index) == if old(
                states,
            ).inventory == Some(InventoryState::All) {
                stepped_index(*old(index), InvNavDir::Down, inv_size)
            } else {
                *old(index)
            },
        },
{
    if states.screen != Some(MainScreenState::Inventory) {
        return;
    }
    let current = match states.inventory {
        Some(c) => c,
        None => InventoryState::All,
    };
    match intent {
        NavIntent::NavigatePrevCategory => {
            states.inventory = Some(current.prev());
            *index = InvIndex(0, 0);
        },
        NavIntent::NavigateNextCategory => {
            states.inventory = Some(current.next());
            *index = InvIndex(0, 0);
        },
        NavIntent::NavigateUp => {
            if current == InventoryState::All {
                index.navigate(InvNavDir::Up, inv_size);
            }
        },
        NavIntent::NavigateDown => {
            if current == InventoryState::All {
                index.navigate(InvNavDir::Down, inv_size);
            }
        },
    }
}

} // verus!
