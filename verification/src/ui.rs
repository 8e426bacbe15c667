//! The text a render pass shows: list rows, detail lines, and the
//! small fixed widgets' state.
//!
//! Layout, color and the terminal belong to the runtime; what the rows
//! and lines say is decided and proved here.

use vstd::prelude::*;

use crate::app::AppState;
use crate::devices::{
    get_device_order, index_of_address, lemma_order_addresses_known, spec_device_order,
    spec_mac_string, Device, Devices,
};
use crate::text::{i64_to_string, spec_signed_decimal};
use crate::unknown_name;

verus! {

/// A device's display name: its advertised name, or the placeholder.
pub open spec fn spec_label(d: Device) -> Seq<char> {
    match d.name {
        Some(n) => n@,
        None => unknown_name(),
    }
}

/// A device's row in the list: its name — or the placeholder with the
/// address — followed by a marker for each transient or settled state.
pub open spec fn spec_row_label(d: Device, connecting: bool, disconnecting: bool) -> Seq<char> {
    (match d.name {
        Some(n) => n@,
        None => "Unknown ("@ + spec_mac_string(d.address.value as int) + ")"@,
    }) + (if connecting {
        " (Connecting)"@
    } else {
        Seq::<char>::empty()
    }) + (if disconnecting {
        " (Disconnecting)"@
    } else {
        Seq::<char>::empty()
    }) + (if d.connected {
        " (Connected)"@
    } else {
        Seq::<char>::empty()
    }) + (if d.paired {
        " (Paired)"@
    } else {
        Seq::<char>::empty()
    })
}

/// A device's display name.
pub fn device_label(d: &Device) -> (r: String)
    ensures
        r@ == spec_label(*d),
{
    match &d.name {
        Some(n) => n.clone(),
        None => String::from_str("Unknown"),
    }
}

/// A device's row in the list.
pub fn device_row(d: &Device, connecting: bool, disconnecting: bool) -> (r: String)
    ensures
        r@ == spec_row_label(*d, connecting, disconnecting),
{
    let mut row = match &d.name {
        Some(n) => n.clone(),
        None => {
            let mut u = String::from_str("Unknown (");
            let mac = d.address.display_string();
            u.append(mac.as_str());
            u.append(")");
            u
        },
    };
    if connecting {
        row.append(" (Connecting)");
    }
    if disconnecting {
        row.append(" (Disconnecting)");
    }
    if d.connected {
        row.append(" (Connected)");
    }
    if d.paired {
        row.append(" (Paired)");
    }
    row
}

/// The signal strength or transmit power a record reports, zero when
/// the transport gave none.
pub open spec fn spec_dbm(v: Option<i16>) -> int {
    match v {
        Some(x) => x as int,
        None => 0,
    }
}

/// The detail lines for the selected device: name, address, signal
/// strength, transmit power and connection state — or one empty line
/// when nothing is selected.
pub fn get_device_details(selected_device: Option<Device>) -> (r: Vec<String>)
    ensures
        match selected_device {
            Some(d) => {
                &&& r@.len() == 5
                &&& r@[0]@ == spec_label(d)
                &&& r@[1]@ == "Address : "@ + spec_mac_string(d.address.value as int)
                &&& r@[2]@ == "Signal strenth : "@ + spec_signed_decimal(spec_dbm(d.rssi))
                    + " dBm"@
                &&& r@[3]@ == "Tx power : "@ + spec_signed_decimal(spec_dbm(d.tx_power)) + " dBm"@
                &&& r@[4]@ == "Connected : "@ + (if d.connected {
                    "yes"@
                } else {
                    "no"@
                })
            },
            None => r@.len() == 1 && r@[0]@ == Seq::<char>::empty(),
        },
{
    let mut lines: Vec<String> = Vec::new();
    match selected_device {
        Some(d) => {
            lines.push(device_label(&d));
            let mut address_line = String::from_str("Address : ");
            let mac = d.address.display_string();
            address_line.append(mac.as_str());
            lines.push(address_line);
            let rssi: i64 = match d.rssi {
                Some(v) => v as i64,
                None => 0,
            };
            let mut rssi_line = String::from_str("Signal strenth : ");
            let rssi_str = i64_to_string(rssi);
            rssi_line.append(rssi_str.as_str());
            rssi_line.append(" dBm");
            lines.push(rssi_line);
            let tx: i64 = match d.tx_power {
                Some(v) => v as i64,
                None => 0,
            };
            let mut tx_line = String::from_str("Tx power : ");
            let tx_str = i64_to_string(tx);
            tx_line.append(tx_str.as_str());
            tx_line.append(" dBm");
            lines.push(tx_line);
            let mut connected_line = String::from_str("Connected : ");
            if d.connected {
                connected_line.append("yes");
            } else {
                connected_line.append("no");
            }
            lines.push(connected_line);
        },
        None => {
            lines.push(String::new());
        },
    }
    lines
}

impl Devices {
    /// One display name per record, in registry order.
    pub fn list_items(&self) -> (r: Vec<String>)
        ensures
            r@.len() == self@.len(),
            forall|i: int| 0 <= i < self@.len() ==> (#[trigger] r@[i])@ == spec_label(self@[i]),
    {
        let n = self.len();
        let mut items: Vec<String> = Vec::new();
        let mut i: usize = 0;
        while i < n
            invariant
                i <= n,
                n == self@.len(),
                items@.len() == i,
                forall|j: int| 0 <= j < i ==> (#[trigger] items@[j])@ == spec_label(self@[j]),
            decreases n - i,
        {
            let d = self.device_at(i);
            items.push(device_label(&d));
            i = i + 1;
        }
        items
    }
}

/// One row per entry of the current display order, each carrying the
/// device's name and its transient and settled state markers.
pub fn device_list_rows(state: &AppState) -> (r: Vec<String>)
    requires
        state.wf(),
    ensures
        ({
            let s = state.spec_devices()@;
            let order = spec_device_order(s, state.spec_show_unknown());
            &&& r@.len() == order.len()
            &&& forall|k: int|
                0 <= k < order.len() ==> (#[trigger] r@[k])@ == spec_row_label(
                    s[index_of_address(s, order[k].value)],
                    state.spec_connecting().contains(order[k].value),
                    state.spec_disconnecting().contains(order[k].value),
                )
        }),
{
    let ghost s = state.spec_devices()@;
    let order = get_device_order(state.devices(), state.get_show_unknown());
    let n = order.len();
    let mut rows: Vec<String> = Vec::new();
    let mut k: usize = 0;
    while k < n
        invariant
            k <= n,
            n == order@.len(),
            order@ == spec_device_order(s, state.spec_show_unknown()),
            s == state.spec_devices()@,
            state.wf(),
            rows@.len() == k,
            forall|j: int|
                0 <= j < k ==> (#[trigger] rows@[j])@ == spec_row_label(
                    s[index_of_address(s, order@[j].value)],
                    state.spec_connecting().contains(order@[j].value),
                    state.spec_disconnecting().contains(order@[j].value),
                ),
        decreases n - k,
    {
        let a = order[k];
        proof {
            lemma_order_addresses_known(s, state.spec_show_unknown(), k as int);
        }
        let row = match state.devices().get_by_mac_address(&a) {
            Some(d) => device_row(&d, state.is_connecting(&a), state.is_disconnecting(&a)),
            None => {
                proof {
                    assert(false);
                }
                String::new()
            },
        };
        rows.push(row);
        k = k + 1;
    }
    rows
}

/// The application title shown at the top.
pub struct Title {}

impl Title {
    /// The title widget has no state.
    pub fn new() -> Title {
        Title {  }
    }
}

/// The log pane.
pub struct Logger {}

impl Logger {
    /// The log pane draws from the logger's own store; it has no state
    /// of its own.
    pub fn new() -> Logger {
        Logger {  }
    }
}

/// The key hints shown under the device list.
pub struct MainCommands {
    pub scanning: bool,
    pub show_unknwown: bool,
}

impl MainCommands {
    /// The hints follow the scan state and the visibility switch.
    pub fn new(state: &AppState, show_unknwown: bool) -> (r: MainCommands)
        ensures
            r.scanning == state.spec_scanning(),
            r.show_unknwown == show_unknwown,
    {
        MainCommands { scanning: state.is_scanning(), show_unknwown }
    }
}

} // verus!
