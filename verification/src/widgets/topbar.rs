//! The bar at the top of the window.

use vstd::prelude::*;

verus! {

/// What the buttons of the top bar ask for.
#[derive(Debug, Clone, Copy, PartialEq, Eq, Structural)]
pub enum TopBarMessage {
    RefreshServerList,
    ChooseConfigFile,
    ShowAbout,
}

} // verus!
