//! Event-correlation and state-coordination core of an interactive
//! controller for a local wireless-device manager.
//!
//! The library owns the data and the decisions: the device registry with
//! its display ordering and selection cursor, the modal popup state
//! machine that answers pairing questions, and the central dispatcher
//! that folds every event into the application state. The surrounding
//! runtime (terminal, transport adapter, pairing-authority connection)
//! only produces events for the dispatcher and performs the commands it
//! returns.

use vstd::prelude::*;

pub mod agent;
pub mod app;
pub mod events;
pub mod devices;
pub mod popup;
pub mod settings;
pub mod ui;
pub mod text;

verus! {

/// Human-readable name for a peripheral whose advertisement carried none.
pub open spec fn unknown_name() -> Seq<char> {
    "Unknown"@
}

/// A peripheral's display name: its advertised local name, if any,
/// else the fixed placeholder.
pub fn get_periph_name(props: Option<String>) -> (r: String)
    ensures
        match props {
            Some(name) => r@ == name@,
            None => r@ == unknown_name(),
        },
{
    if let Some(name) = props {
        name
    } else {
        "Unknown".to_owned()
    }
}

} // verus!
