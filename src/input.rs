use vstd::prelude::*;

verus! {

/// Watches the quit action.
#[derive(Clone, Copy, Debug, Default)]
pub struct InputSystem;

impl InputSystem {
    /// Whether the game should stop: the quit action is bound and held down.
    pub fn run(&self, quit_down: Option<bool>) -> (r: bool)
        ensures
            r == (quit_down == Some(true)),
    {
        match quit_down {
            Some(down) => down,
            None => false,
        }
    }
}

} // verus!
