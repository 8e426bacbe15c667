//! The central dispatcher: the single authoritative owner of all
//! mutable state.
//!
//! Every producer sends [`AppEvent`] values into one multiplexed
//! channel; the dispatcher consumes them strictly sequentially and is
//! the only code that touches the registry or the popup. Long-running
//! transport work is never executed inline: the dispatcher returns a
//! [`Command`] and the surrounding runtime performs it, reporting the
//! outcome back as a new event.

use std::collections::HashSet;
use vstd::prelude::*;

use crate::agent::{ack_reply, busy_rejection, canceled_outcome, no_input_rejection, AgentEvent};
use crate::devices::{
    has_address, index_of_address, spec_device_order, spec_position, spec_upsert, Device, Devices,
    MacAddress, get_device_order, get_first_device, get_last_device, get_next_device,
    get_previous_device,
};
use crate::events::{AdapterEvent, AppEvent, UserAction};
use crate::popup::{YesNoPopup, YesNoPopupWidget};
use crate::text::{push_decimal, spec_decimal};

verus! {

broadcast use vstd::std_specs::hash::group_hash_axioms;

/// What the surrounding runtime must do after one dispatch step.
/// Connecting and disconnecting are spawned as independent tasks that
/// report back with a transport event, so the dispatcher never blocks.
#[derive(Debug, Clone, Copy, PartialEq, Eq, Structural)]
pub enum Command {
    /// Nothing to do.
    Nothing,
    /// Draw a frame from a snapshot of the state.
    Render,
    /// Start or stop scanning, following the `scanning` flag.
    ToggleScan,
    /// Spawn a task connecting to the device.
    SpawnConnect(MacAddress),
    /// Spawn a task disconnecting from the device.
    SpawnDisconnect(MacAddress),
    /// Put a quit event on the channel.
    PostQuit,
    /// Leave the event loop and release what was acquired at startup.
    Shutdown,
}

/// Where the selection cursor lands after a step towards the end of
/// the display order: the next entry when there is one, clamped at the
/// last entry; an unset cursor jumps to the first entry.
pub open spec fn spec_nav_down(s: Seq<Device>, sel: Option<usize>, show_unknown: bool) -> Option<
    usize,
> {
    let order = spec_device_order(s, show_unknown);
    let target = match sel {
        None => if order.len() > 0 {
            Some(order[0])
        } else {
            None::<MacAddress>
        },
        Some(i) => match spec_position(order, s[i as int].address) {
            Some(p) => if p + 1 < order.len() {
                Some(order[p + 1])
            } else {
                None::<MacAddress>
            },
            None => None::<MacAddress>,
        },
    };
    match target {
        Some(a) => if has_address(s, a.value) {
            Some(index_of_address(s, a.value) as usize)
        } else {
            sel
        },
        None => sel,
    }
}

/// Where the selection cursor lands after a step towards the start of
/// the display order: the previous entry when there is one, clamped at
/// the first entry; an unset cursor jumps to the last entry.
pub open spec fn spec_nav_up(s: Seq<Device>, sel: Option<usize>, show_unknown: bool) -> Option<
    usize,
> {
    let order = spec_device_order(s, show_unknown);
    let target = match sel {
        None => if order.len() > 0 {
            Some(order[order.len() - 1])
        } else {
            None::<MacAddress>
        },
        Some(i) => match spec_position(order, s[i as int].address) {
            Some(p) => if p > 0 {
                Some(order[p - 1])
            } else {
                None::<MacAddress>
            },
            None => None::<MacAddress>,
        },
    };
    match target {
        Some(a) => if has_address(s, a.value) {
            Some(index_of_address(s, a.value) as usize)
        } else {
            sel
        },
        None => sel,
    }
}

/// The state the dispatcher owns: the registry, the modal popup, the
/// scan flag, and the addresses with an operation in flight.
pub struct AppState {
    devices: Devices,
    popup: Option<YesNoPopup>,
    scanning: bool,
    show_unknown: bool,
    connecting: HashSet<u64>,
    disconnecting: HashSet<u64>,
}

impl AppState {
    /// The registry is consistent and a pending popup still holds its
    /// reply slot.
    pub open spec fn wf(&self) -> bool {
        &&& self.spec_devices().wf()
        &&& match self.spec_popup() {
            Some(p) => p.wf(),
            None => true,
        }
    }

    /// The registry, as a value.
    pub closed spec fn spec_devices(&self) -> Devices {
        self.devices
    }

    /// The popup, as a value.
    pub closed spec fn spec_popup(&self) -> Option<YesNoPopup> {
        self.popup
    }

    /// Whether the adapter is scanning, as the dispatcher believes.
    pub closed spec fn spec_scanning(&self) -> bool {
        self.scanning
    }

    /// Whether nameless devices are listed.
    pub closed spec fn spec_show_unknown(&self) -> bool {
        self.show_unknown
    }

    /// Addresses with a connect in flight.
    pub closed spec fn spec_connecting(&self) -> Set<u64> {
        self.connecting@
    }

    /// Addresses with a disconnect in flight.
    pub closed spec fn spec_disconnecting(&self) -> Set<u64> {
        self.disconnecting@
    }

    /// A fresh state: empty registry, no popup, not scanning, nameless
    /// devices hidden.
    pub fn new() -> (r: AppState)
        ensures
            r.wf(),
            r.spec_devices()@ == Seq::<Device>::empty(),
            r.spec_devices().spec_selected() is None,
            r.spec_popup() is None,
            !r.spec_scanning(),
            !r.spec_show_unknown(),
            r.spec_connecting() == Set::<u64>::empty(),
            r.spec_disconnecting() == Set::<u64>::empty(),
    {
        AppState {
            devices: Devices::new(),
            popup: None,
            scanning: false,
            show_unknown: false,
            connecting: HashSet::new(),
            disconnecting: HashSet::new(),
        }
    }

    /// The registry, for rendering and inspection.
    pub fn devices(&self) -> (r: &Devices)
        ensures
            *r == self.spec_devices(),
    {
        &self.devices
    }

    /// The record under the selection cursor.
    pub fn selected_device(&self) -> (r: Option<Device>)
        requires
            self.wf(),
        ensures
            match self.spec_devices().spec_selected() {
                Some(i) => r == Some(self.spec_devices()@[i as int]),
                None => r is None,
            },
    {
        self.devices.get_selected_device()
    }

    /// Whether a question is pending.
    pub fn popup_is_active(&self) -> (r: bool)
        ensures
            r == (self.spec_popup() is Some),
    {
        self.popup.is_some()
    }

    /// A drawable copy of the pending question, if any.
    pub fn popup_widget(&self) -> (r: Option<YesNoPopupWidget>)
        ensures
            match self.spec_popup() {
                Some(p) => r matches Some(w) && w.question@ == p.spec_question() && w.selected
                    == p.spec_selected(),
                None => r is None,
            },
    {
        match &self.popup {
            Some(p) => Some(p.get_widget()),
            None => None,
        }
    }

    /// The option cursor of the pending question, if any.
    pub fn popup_selected_index(&self) -> (r: Option<usize>)
        ensures
            r == match self.spec_popup() {
                Some(p) => p.spec_selected(),
                None => None::<usize>,
            },
    {
        match &self.popup {
            Some(p) => p.selected_index(),
            None => None,
        }
    }

    /// Whether the dispatcher believes the adapter is scanning.
    pub fn is_scanning(&self) -> (r: bool)
        ensures
            r == self.spec_scanning(),
    {
        self.scanning
    }

    /// Whether nameless devices are listed.
    pub fn get_show_unknown(&self) -> (r: bool)
        ensures
            r == self.spec_show_unknown(),
    {
        self.show_unknown
    }

    /// Chooses whether nameless devices are listed; set once at
    /// startup from the display settings.
    pub fn set_show_unknown(&mut self, show: bool)
        ensures
            final(self).wf() == old(self).wf(),
            final(self).spec_devices() == old(self).spec_devices(),
            final(self).spec_popup() == old(self).spec_popup(),
            final(self).spec_scanning() == old(self).spec_scanning(),
            final(self).spec_show_unknown() == show,
            final(self).spec_connecting() == old(self).spec_connecting(),
            final(self).spec_disconnecting() == old(self).spec_disconnecting(),
    {
        self.show_unknown = show;
    }

    /// Whether a connect to this address is in flight.
    pub fn is_connecting(&self, address: &MacAddress) -> (r: bool)
        ensures
            r == self.spec_connecting().contains(address.value),
    {
        self.connecting.contains(&address.value)
    }

    /// Whether a disconnect from this address is in flight.
    pub fn is_disconnecting(&self, address: &MacAddress) -> (r: bool)
        ensures
            r == self.spec_disconnecting().contains(address.value),
    {
        self.disconnecting.contains(&address.value)
    }

    /// Moves the selection one step down the current display order.
    fn nav_down(&mut self)
        requires
            old(self).wf(),
        ensures
            final(self).wf(),
            final(self).spec_devices()@ == old(self).spec_devices()@,
            final(self).spec_devices().spec_selected() == spec_nav_down(
                old(self).spec_devices()@,
                old(self).spec_devices().spec_selected(),
                old(self).spec_show_unknown(),
            ),
            final(self).spec_popup() == old(self).spec_popup(),
            final(self).spec_scanning() == old(self).spec_scanning(),
            final(self).spec_show_unknown() == old(self).spec_show_unknown(),
            final(self).spec_connecting() == old(self).spec_connecting(),
            final(self).spec_disconnecting() == old(self).spec_disconnecting(),
    {
        proof {
            self.devices.lemma_selected_in_bounds();
        }
        let order = get_device_order(&self.devices, self.show_unknown);
        let target: Option<MacAddress> = match self.devices.selected_index() {
            None => get_first_device(&order),
            Some(i) => {
                let d = self.devices.device_at(i);
                get_next_device(&order, &d.address)
            },
        };
        match target {
            Some(a) => {
                match self.devices.get_index_by_mac_address(&a) {
                    Some(index) => self.devices.select(Some(index)),
                    None => {},
                }
            },
            None => {},
        }
    }

    /// Moves the selection one step up the current display order.
    fn nav_up(&mut self)
        requires
            old(self).wf(),
        ensures
            final(self).wf(),
            final(self).spec_devices()@ == old(self).spec_devices()@,
            final(self).spec_devices().spec_selected() == spec_nav_up(
                old(self).spec_devices()@,
                old(self).spec_devices().spec_selected(),
                old(self).spec_show_unknown(),
            ),
            final(self).spec_popup() == old(self).spec_popup(),
            final(self).spec_scanning() == old(self).spec_scanning(),
            final(self).spec_show_unknown() == old(self).spec_show_unknown(),
            final(self).spec_connecting() == old(self).spec_connecting(),
            final(self).spec_disconnecting() == old(self).spec_disconnecting(),
    {
        proof {
            self.devices.lemma_selected_in_bounds();
        }
        let order = get_device_order(&self.devices, self.show_unknown);
        let target: Option<MacAddress> = match self.devices.selected_index() {
            None => get_last_device(&order),
            Some(i) => {
                let d = self.devices.device_at(i);
                get_previous_device(&order, &d.address)
            },
        };
        match target {
            Some(a) => {
                match self.devices.get_index_by_mac_address(&a) {
                    Some(index) => self.devices.select(Some(index)),
                    None => {},
                }
            },
            None => {},
        }
    }
}

impl Default for AppState {
    /// The startup state.
    fn default() -> (r: AppState)
        ensures
            r.wf(),
            r.spec_devices()@ == Seq::<Device>::empty(),
            r.spec_popup() is None,
            !r.spec_scanning(),
            !r.spec_show_unknown(),
    {
        AppState::new()
    }
}

/// Everything but the popup is as it was.
pub open spec fn only_popup_differs(pre: AppState, post: AppState) -> bool {
    &&& post.spec_devices() == pre.spec_devices()
    &&& post.spec_scanning() == pre.spec_scanning()
    &&& post.spec_show_unknown() == pre.spec_show_unknown()
    &&& post.spec_connecting() == pre.spec_connecting()
    &&& post.spec_disconnecting() == pre.spec_disconnecting()
}

/// Nothing observable changed at all.
pub open spec fn state_unchanged(pre: AppState, post: AppState) -> bool {
    &&& only_popup_differs(pre, post)
    &&& post.spec_popup() == pre.spec_popup()
}

/// The popup's option cursor after one step down: clamped to the
/// second option; unset lands on the first.
pub open spec fn popup_cursor_down(sel: Option<usize>) -> Option<usize> {
    match sel {
        Some(i) => if i < 1 {
            Some((i + 1) as usize)
        } else {
            Some(1usize)
        },
        None => Some(0usize),
    }
}

/// The popup's option cursor after one step up: clamped to the first
/// option; unset lands on the first.
pub open spec fn popup_cursor_up(sel: Option<usize>) -> Option<usize> {
    match sel {
        Some(i) => if i > 0 {
            Some((i - 1) as usize)
        } else {
            Some(0usize)
        },
        None => Some(0usize),
    }
}

/// The popup after a cursor move: same question, same live slot, the
/// cursor stepped.
pub open spec fn popup_moved(
    pre: Option<YesNoPopup>,
    post: Option<YesNoPopup>,
    cursor: Option<usize>,
) -> bool {
    match pre {
        Some(p) => post matches Some(q) && q.wf() == p.wf() && q.spec_question()
            == p.spec_question() && q.spec_selected() == cursor,
        None => post is None,
    }
}

/// What one operator action does to the state, and which command it
/// hands the runtime.
pub open spec fn user_action_post(
    pre: AppState,
    post: AppState,
    action: UserAction,
    cmd: Command,
) -> bool {
    match pre.spec_popup() {
        // The input-routing gate: while a question is pending, input
        // is the popup's; the registry cursor never moves.
        Some(p) => only_popup_differs(pre, post) && cmd == Command::Nothing && match action {
            UserAction::MoveDown => popup_moved(
                pre.spec_popup(),
                post.spec_popup(),
                popup_cursor_down(p.spec_selected()),
            ),
            UserAction::MoveUp => popup_moved(
                pre.spec_popup(),
                post.spec_popup(),
                popup_cursor_up(p.spec_selected()),
            ),
            UserAction::Confirm => post.spec_popup() is None,
            _ => post.spec_popup() == pre.spec_popup(),
        },
        None => match action {
            UserAction::TriggerScan => {
                &&& post.spec_devices() == pre.spec_devices()
                &&& post.spec_popup() is None
                &&& post.spec_scanning() == !pre.spec_scanning()
                &&& post.spec_show_unknown() == pre.spec_show_unknown()
                &&& post.spec_connecting() == pre.spec_connecting()
                &&& post.spec_disconnecting() == pre.spec_disconnecting()
                &&& cmd == Command::ToggleScan
            },
            UserAction::Connect => match pre.spec_devices().spec_selected() {
                Some(i) => {
                    let d = pre.spec_devices()@[i as int];
                    &&& post.spec_devices() == pre.spec_devices()
                    &&& post.spec_popup() is None
                    &&& post.spec_scanning() == pre.spec_scanning()
                    &&& post.spec_show_unknown() == pre.spec_show_unknown()
                    &&& post.spec_connecting() == pre.spec_connecting().insert(d.address.value)
                    &&& post.spec_disconnecting() == pre.spec_disconnecting()
                    &&& cmd == Command::SpawnConnect(d.address)
                },
                None => state_unchanged(pre, post) && cmd == Command::Nothing,
            },
            UserAction::Disconnect => match pre.spec_devices().spec_selected() {
                Some(i) => {
                    let d = pre.spec_devices()@[i as int];
                    &&& post.spec_devices() == pre.spec_devices()
                    &&& post.spec_popup() is None
                    &&& post.spec_scanning() == pre.spec_scanning()
                    &&& post.spec_show_unknown() == pre.spec_show_unknown()
                    &&& post.spec_connecting() == pre.spec_connecting()
                    &&& post.spec_disconnecting() == pre.spec_disconnecting().insert(
                        d.address.value,
                    )
                    &&& cmd == Command::SpawnDisconnect(d.address)
                },
                None => state_unchanged(pre, post) && cmd == Command::Nothing,
            },
            UserAction::MoveDown => {
                &&& post.spec_devices()@ == pre.spec_devices()@
                &&& post.spec_devices().spec_selected() == spec_nav_down(
                    pre.spec_devices()@,
                    pre.spec_devices().spec_selected(),
                    pre.spec_show_unknown(),
                )
                &&& post.spec_popup() is None
                &&& post.spec_scanning() == pre.spec_scanning()
                &&& post.spec_show_unknown() == pre.spec_show_unknown()
                &&& post.spec_connecting() == pre.spec_connecting()
                &&& post.spec_disconnecting() == pre.spec_disconnecting()
                &&& cmd == Command::Nothing
            },
            UserAction::MoveUp => {
                &&& post.spec_devices()@ == pre.spec_devices()@
                &&& post.spec_devices().spec_selected() == spec_nav_up(
                    pre.spec_devices()@,
                    pre.spec_devices().spec_selected(),
                    pre.spec_show_unknown(),
                )
                &&& post.spec_popup() is None
                &&& post.spec_scanning() == pre.spec_scanning()
                &&& post.spec_show_unknown() == pre.spec_show_unknown()
                &&& post.spec_connecting() == pre.spec_connecting()
                &&& post.spec_disconnecting() == pre.spec_disconnecting()
                &&& cmd == Command::Nothing
            },
            UserAction::Confirm => state_unchanged(pre, post) && cmd == Command::Nothing,
            UserAction::Quit => state_unchanged(pre, post) && cmd == Command::PostQuit,
        },
    }
}

/// The popup after a question arrives: a fresh popup with that question
/// and no option chosen — unless one was already pending, which stays;
/// the newcomer is then rejected at once with a busy error.
pub open spec fn popup_after_question(pre: AppState, post: AppState, question: Seq<char>) -> bool {
    match pre.spec_popup() {
        Some(_) => post.spec_popup() == pre.spec_popup(),
        None => post.spec_popup() matches Some(p) && p.wf() && p.spec_question() == question
            && p.spec_selected() is None,
    }
}

/// What one pairing-authority event does to the state, and which
/// command it hands the runtime. Free-form input requests are rejected
/// at once: this design has no text-entry popup.
pub open spec fn agent_event_post(
    pre: AppState,
    post: AppState,
    event: AgentEvent,
    cmd: Command,
) -> bool {
    &&& only_popup_differs(pre, post)
    &&& match event {
        AgentEvent::Release { .. } => post.spec_popup() == pre.spec_popup() && cmd
            == Command::PostQuit,
        AgentEvent::Cancel { .. } => post.spec_popup() is None && cmd == Command::Nothing,
        AgentEvent::RequestConfirmation { passkey, .. } => popup_after_question(
            pre,
            post,
            "Confirm pairing with passkey "@ + spec_decimal(passkey as nat),
        ) && cmd == Command::Nothing,
        AgentEvent::AuthorizeService { uuid, .. } => popup_after_question(
            pre,
            post,
            "Confirm service authorization ("@ + uuid@ + ")"@,
        ) && cmd == Command::Nothing,
        AgentEvent::RequestAuthorization { .. } => popup_after_question(
            pre,
            post,
            "Accept pairing authorization ?"@,
        ) && cmd == Command::Nothing,
        AgentEvent::DisplayPasskey { passkey, .. } => popup_after_question(
            pre,
            post,
            "Passkey : "@ + spec_decimal(passkey as nat),
        ) && cmd == Command::Nothing,
        AgentEvent::DisplayPincode { pincode, .. } => popup_after_question(
            pre,
            post,
            "Pincode : "@ + pincode@,
        ) && cmd == Command::Nothing,
        AgentEvent::RequestPasskey { .. } => post.spec_popup() == pre.spec_popup() && cmd
            == Command::Nothing,
        AgentEvent::RequestPincode { .. } => post.spec_popup() == pre.spec_popup() && cmd
            == Command::Nothing,
    }
}

/// What one transport event does to the state: an upsert, or a change
/// to the in-flight operation sets; never the popup, the cursor, or
/// the scan flag.
pub open spec fn adapter_event_post(
    pre: AppState,
    post: AppState,
    event: AdapterEvent,
    cmd: Command,
) -> bool {
    &&& post.spec_popup() == pre.spec_popup()
    &&& post.spec_scanning() == pre.spec_scanning()
    &&& post.spec_show_unknown() == pre.spec_show_unknown()
    &&& post.spec_devices().spec_selected() == pre.spec_devices().spec_selected()
    &&& cmd == Command::Nothing
    &&& match event {
        AdapterEvent::Discovered(d) => {
            &&& post.spec_devices()@ == spec_upsert(pre.spec_devices()@, d)
            &&& post.spec_connecting() == pre.spec_connecting()
            &&& post.spec_disconnecting() == pre.spec_disconnecting()
        },
        AdapterEvent::Updated(d) => {
            &&& post.spec_devices()@ == spec_upsert(pre.spec_devices()@, d)
            &&& post.spec_connecting() == pre.spec_connecting()
            &&& post.spec_disconnecting() == pre.spec_disconnecting()
        },
        AdapterEvent::Connecting(d) => {
            &&& post.spec_devices()@ == pre.spec_devices()@
            &&& post.spec_connecting() == pre.spec_connecting().insert(d.address.value)
            &&& post.spec_disconnecting() == pre.spec_disconnecting()
        },
        AdapterEvent::Connected(d) => {
            &&& post.spec_devices()@ == spec_upsert(pre.spec_devices()@, d)
            &&& post.spec_connecting() == pre.spec_connecting().remove(d.address.value)
            &&& post.spec_disconnecting() == pre.spec_disconnecting()
        },
        AdapterEvent::FailedToConnect(d) => {
            &&& post.spec_devices()@ == pre.spec_devices()@
            &&& post.spec_connecting() == pre.spec_connecting().remove(d.address.value)
            &&& post.spec_disconnecting() == pre.spec_disconnecting()
        },
        AdapterEvent::Disconnecting(d) => {
            &&& post.spec_devices()@ == pre.spec_devices()@
            &&& post.spec_connecting() == pre.spec_connecting()
            &&& post.spec_disconnecting() == pre.spec_disconnecting().insert(d.address.value)
        },
        AdapterEvent::Disconnected(d) => {
            &&& post.spec_devices()@ == spec_upsert(pre.spec_devices()@, d)
            &&& post.spec_connecting() == pre.spec_connecting()
            &&& post.spec_disconnecting() == pre.spec_disconnecting().remove(d.address.value)
        },
        AdapterEvent::FailedToDisconnect(d) => {
            &&& post.spec_devices()@ == pre.spec_devices()@
            &&& post.spec_connecting() == pre.spec_connecting()
            &&& post.spec_disconnecting() == pre.spec_disconnecting().remove(d.address.value)
        },
    }
}

/// What one dispatch step does, whatever the event: the union of the
/// per-producer contracts, plus the tick that only renders and the
/// quit that clears a pending question before shutdown.
pub open spec fn dispatch_post(
    pre: AppState,
    post: AppState,
    event: AppEvent,
    cmd: Command,
) -> bool {
    match event {
        AppEvent::Input(action) => user_action_post(pre, post, action, cmd),
        AppEvent::Tick => state_unchanged(pre, post) && cmd == Command::Render,
        AppEvent::Adapter(e) => adapter_event_post(pre, post, e, cmd),
        AppEvent::Agent(e) => agent_event_post(pre, post, e, cmd),
        AppEvent::Quit => only_popup_differs(pre, post) && post.spec_popup() is None && cmd
            == Command::Shutdown,
    }
}

/// Single resolution, as the state machine shows it: while a question
/// is pending, a dispatch step either leaves it pending with its reply
/// slot still held, or closes it — and the only closing steps are the
/// operator's confirmation, a cancellation from the authority, and
/// shutdown, each of which resolves the slot exactly once as it takes
/// the popup apart. No step abandons a pending question with its slot
/// already spent.
pub proof fn lemma_single_resolution(
    pre: AppState,
    post: AppState,
    event: AppEvent,
    cmd: Command,
)
    requires
        pre.wf(),
        pre.spec_popup() is Some,
        dispatch_post(pre, post, event, cmd),
    ensures
        match post.spec_popup() {
            Some(q) => q.wf(),
            None => event matches AppEvent::Input(UserAction::Confirm) || event matches AppEvent::Agent(
                AgentEvent::Cancel { .. },
            ) || event is Quit,
        },
{
}

impl AppState {
    /// Routes one operator action: to the popup's key handling while a
    /// question is pending, to the main key handling otherwise.
    pub fn handle_user_action(&mut self, action: &UserAction) -> (cmd: Command)
        requires
            old(self).wf(),
        ensures
            final(self).wf(),
            user_action_post(*old(self), *final(self), *action, cmd),
    {
        if self.popup.is_some() {
            match action {
                UserAction::MoveDown => {
                    if let Some(p) = &mut self.popup {
                        p.move_selector_down();
                    }
                    Command::Nothing
                },
                UserAction::MoveUp => {
                    if let Some(p) = &mut self.popup {
                        p.move_selector_up();
                    }
                    Command::Nothing
                },
                UserAction::Confirm => {
                    match self.popup.take() {
                        Some(mut p) => p.confirm(),
                        None => {},
                    }
                    Command::Nothing
                },
                _ => Command::Nothing,
            }
        } else {
            match action {
                UserAction::TriggerScan => {
                    self.scanning = !self.scanning;
                    Command::ToggleScan
                },
                UserAction::Connect => {
                    match self.devices.get_selected_device() {
                        Some(d) => {
                            self.connecting.insert(d.address.value);
                            Command::SpawnConnect(d.address)
                        },
                        None => Command::Nothing,
                    }
                },
                UserAction::Disconnect => {
                    match self.devices.get_selected_device() {
                        Some(d) => {
                            self.disconnecting.insert(d.address.value);
                            Command::SpawnDisconnect(d.address)
                        },
                        None => Command::Nothing,
                    }
                },
                UserAction::MoveDown => {
                    self.nav_down();
                    Command::Nothing
                },
                UserAction::MoveUp => {
                    self.nav_up();
                    Command::Nothing
                },
                UserAction::Confirm => Command::Nothing,
                UserAction::Quit => Command::PostQuit,
            }
        }
    }

    /// Handles one pairing-authority event. Questions open the popup;
    /// a second question while one is pending is answered at once with
    /// [`busy_rejection`] rather than silently dropping the first;
    /// `Cancel` clears the popup — resolving its slot with
    /// [`canceled_outcome`] — and is acknowledged with [`ack_reply`];
    /// `Release` is acknowledged likewise and asks for shutdown;
    /// free-form entry requests are answered at once with
    /// [`no_input_rejection`]. Every constant handed to a reply slot
    /// comes from one of those functions, whose contracts pin it.
    pub fn handle_agent_event(&mut self, event: AgentEvent) -> (cmd: Command)
        requires
            old(self).wf(),
        ensures
            final(self).wf(),
            agent_event_post(*old(self), *final(self), event, cmd),
    {
        match event {
            AgentEvent::Release { tx } => {
                let _ = tx.send(ack_reply());
                Command::PostQuit
            },
            AgentEvent::Cancel { tx } => {
                match self.popup.take() {
                    Some(mut p) => p.cancel(),
                    None => {},
                }
                let _ = tx.send(ack_reply());
                Command::Nothing
            },
            AgentEvent::RequestConfirmation { passkey, tx, address: _ } => {
                if self.popup.is_some() {
                    let _ = tx.send(busy_rejection());
                } else {
                    let mut q = String::from_str("Confirm pairing with passkey ");
                    push_decimal(&mut q, passkey as u64);
                    self.popup = Some(YesNoPopup::new(q, tx));
                }
                Command::Nothing
            },
            AgentEvent::AuthorizeService { uuid, tx, address: _ } => {
                if self.popup.is_some() {
                    let _ = tx.send(busy_rejection());
                } else {
                    let mut q = String::from_str("Confirm service authorization (");
                    q.append(uuid.as_str());
                    q.append(")");
                    self.popup = Some(YesNoPopup::new(q, tx));
                }
                Command::Nothing
            },
            AgentEvent::RequestAuthorization { tx, address: _ } => {
                if self.popup.is_some() {
                    let _ = tx.send(busy_rejection());
                } else {
                    let q = String::from_str("Accept pairing authorization ?");
                    self.popup = Some(YesNoPopup::new(q, tx));
                }
                Command::Nothing
            },
            AgentEvent::DisplayPasskey { passkey, tx, address: _ } => {
                if self.popup.is_some() {
                    let _ = tx.send(busy_rejection());
                } else {
                    let mut q = String::from_str("Passkey : ");
                    push_decimal(&mut q, passkey as u64);
                    self.popup = Some(YesNoPopup::new(q, tx));
                }
                Command::Nothing
            },
            AgentEvent::DisplayPincode { pincode, tx, address: _ } => {
                if self.popup.is_some() {
                    let _ = tx.send(busy_rejection());
                } else {
                    let mut q = String::from_str("Pincode : ");
                    q.append(pincode.as_str());
                    self.popup = Some(YesNoPopup::new(q, tx));
                }
                Command::Nothing
            },
            AgentEvent::RequestPasskey { tx, address: _ } => {
                let _ = tx.send(no_input_rejection());
                Command::Nothing
            },
            AgentEvent::RequestPincode { tx, address: _ } => {
                let _ = tx.send(no_input_rejection());
                Command::Nothing
            },
        }
    }

    /// Handles one transport event: upserts the reported record and
    /// tracks which addresses have an operation in flight, so a render
    /// pass can show transient status.
    pub fn handle_adapter_event(&mut self, event: AdapterEvent) -> (cmd: Command)
        requires
            old(self).wf(),
        ensures
            final(self).wf(),
            adapter_event_post(*old(self), *final(self), event, cmd),
    {
        match event {
            AdapterEvent::Discovered(d) => {
                self.devices.update(d);
            },
            AdapterEvent::Updated(d) => {
                self.devices.update(d);
            },
            AdapterEvent::Connecting(d) => {
                self.connecting.insert(d.address.value);
            },
            AdapterEvent::Connected(d) => {
                self.connecting.remove(&d.address.value);
                self.devices.update(d);
            },
            AdapterEvent::FailedToConnect(d) => {
                self.connecting.remove(&d.address.value);
            },
            AdapterEvent::Disconnecting(d) => {
                self.disconnecting.insert(d.address.value);
            },
            AdapterEvent::Disconnected(d) => {
                self.disconnecting.remove(&d.address.value);
                self.devices.update(d);
            },
            AdapterEvent::FailedToDisconnect(d) => {
                self.disconnecting.remove(&d.address.value);
            },
        }
        Command::Nothing
    }

    /// Consumes one multiplexed event, mutating state strictly
    /// sequentially: this is the only mutation path. A tick only asks
    /// for a render; a quit clears any pending popup — resolving its
    /// slot with a cancellation, never leaving it dangling — and asks
    /// the runtime to shut down.
    pub fn handle_event(&mut self, event: AppEvent) -> (cmd: Command)
        requires
            old(self).wf(),
        ensures
            final(self).wf(),
            dispatch_post(*old(self), *final(self), event, cmd),
    {
        match event {
            AppEvent::Input(action) => self.handle_user_action(&action),
            AppEvent::Tick => Command::Render,
            AppEvent::Adapter(e) => self.handle_adapter_event(e),
            AppEvent::Agent(e) => self.handle_agent_event(e),
            AppEvent::Quit => {
                match self.popup.take() {
                    Some(mut p) => p.cancel(),
                    None => {},
                }
                Command::Shutdown
            },
        }
    }
}

} // verus!
