//! Hardware addresses, device records, and the device registry.
//!
//! The registry is the single authoritative collection of known
//! peripherals: an insertion-ordered sequence of records, an index from
//! hardware address to position, and a movable selection cursor. Every
//! address maps to at most one record, the index always agrees with the
//! sequence, and the cursor, when present, is a valid position.

use std::collections::HashMap;
use vstd::prelude::*;

use crate::text::{digit_char, digit_to_char, string_push};

verus! {

broadcast use vstd::std_specs::hash::group_hash_axioms;

/// A 48-bit hardware address, stored as one integer: the first byte of
/// the printed form is the most significant byte of the value.
#[derive(Clone, Copy, Debug, PartialEq, Eq, Structural, Hash)]
pub struct MacAddress {
    pub value: u64,
}

/// The numeric value of one hexadecimal digit character, `-1` for any
/// other character.
pub open spec fn hex_value(c: char) -> int {
    if c == '0' {
        0
    } else if c == '1' {
        1
    } else if c == '2' {
        2
    } else if c == '3' {
        3
    } else if c == '4' {
        4
    } else if c == '5' {
        5
    } else if c == '6' {
        6
    } else if c == '7' {
        7
    } else if c == '8' {
        8
    } else if c == '9' {
        9
    } else if c == 'a' || c == 'A' {
        10
    } else if c == 'b' || c == 'B' {
        11
    } else if c == 'c' || c == 'C' {
        12
    } else if c == 'd' || c == 'D' {
        13
    } else if c == 'e' || c == 'E' {
        14
    } else if c == 'f' || c == 'F' {
        15
    } else {
        -1
    }
}

/// Two upper-case hexadecimal digits for one byte value.
pub open spec fn spec_hex_byte(b: int) -> Seq<char> {
    seq![digit_char(b / 16), digit_char(b % 16)]
}

/// The printed form of a hardware address: six colon-separated
/// upper-case hexadecimal byte pairs, most significant byte first.
pub open spec fn spec_mac_string(v: int) -> Seq<char> {
    spec_hex_byte(v / 0x10000000000 % 0x100) + seq![':'] + spec_hex_byte(v / 0x100000000 % 0x100)
        + seq![':'] + spec_hex_byte(v / 0x1000000 % 0x100) + seq![':'] + spec_hex_byte(
        v / 0x10000 % 0x100,
    ) + seq![':'] + spec_hex_byte(v / 0x100 % 0x100) + seq![':'] + spec_hex_byte(v % 0x100)
}

/// Index of the first character of the last `'/'`-separated segment of
/// a path, or `0` when the path holds no `'/'`.
pub open spec fn seg_start(s: Seq<char>) -> int
    decreases s.len(),
{
    if s.len() == 0 {
        0
    } else if s[s.len() - 1] == '/' {
        s.len() as int
    } else {
        seg_start(s.drop_last())
    }
}

/// Whether a path segment has the shape `dev` followed by six
/// `'_'`-prefixed two-digit hexadecimal groups.
pub open spec fn valid_dev_segment(seg: Seq<char>) -> bool {
    &&& seg.len() == 21
    &&& seg[0] == 'd'
    &&& seg[1] == 'e'
    &&& seg[2] == 'v'
    &&& seg[3] == '_' && hex_value(seg[4]) >= 0 && hex_value(seg[5]) >= 0
    &&& seg[6] == '_' && hex_value(seg[7]) >= 0 && hex_value(seg[8]) >= 0
    &&& seg[9] == '_' && hex_value(seg[10]) >= 0 && hex_value(seg[11]) >= 0
    &&& seg[12] == '_' && hex_value(seg[13]) >= 0 && hex_value(seg[14]) >= 0
    &&& seg[15] == '_' && hex_value(seg[16]) >= 0 && hex_value(seg[17]) >= 0
    &&& seg[18] == '_' && hex_value(seg[19]) >= 0 && hex_value(seg[20]) >= 0
}

/// The byte spelled by the two hexadecimal digits at `i` and `i + 1`.
pub open spec fn seg_byte(seg: Seq<char>, i: int) -> int {
    hex_value(seg[i]) * 16 + hex_value(seg[i + 1])
}

/// The address value spelled by a valid `dev` segment.
pub open spec fn seg_value(seg: Seq<char>) -> int {
    seg_byte(seg, 4) * 0x10000000000 + seg_byte(seg, 7) * 0x100000000 + seg_byte(seg, 10)
        * 0x1000000 + seg_byte(seg, 13) * 0x10000 + seg_byte(seg, 16) * 0x100 + seg_byte(seg, 19)
}

/// The address encoded in the last segment of an object path, if that
/// segment has the `dev_XX_XX_XX_XX_XX_XX` shape.
pub open spec fn spec_path_mac(s: Seq<char>) -> Option<int> {
    let seg = s.subrange(seg_start(s), s.len() as int);
    if valid_dev_segment(seg) {
        Some(seg_value(seg))
    } else {
        None
    }
}

/// The value of one hexadecimal digit character, `None` for any other.
fn hex_digit_value(c: char) -> (r: Option<u8>)
    ensures
        match r {
            Some(v) => hex_value(c) == v as int,
            None => hex_value(c) == -1,
        },
{
    match c {
        '0' => Some(0),
        '1' => Some(1),
        '2' => Some(2),
        '3' => Some(3),
        '4' => Some(4),
        '5' => Some(5),
        '6' => Some(6),
        '7' => Some(7),
        '8' => Some(8),
        '9' => Some(9),
        'a' => Some(10),
        'A' => Some(10),
        'b' => Some(11),
        'B' => Some(11),
        'c' => Some(12),
        'C' => Some(12),
        'd' => Some(13),
        'D' => Some(13),
        'e' => Some(14),
        'E' => Some(14),
        'f' => Some(15),
        'F' => Some(15),
        _ => None,
    }
}

/// One `'_'`-prefixed two-digit hexadecimal group starting at `at`.
fn read_group(path: &str, at: usize) -> (r: Option<u8>)
    requires
        at + 2 < path@.len(),
        path@.len() <= usize::MAX,
    ensures
        match r {
            Some(b) => path@[at as int] == '_' && hex_value(path@[at + 1]) >= 0 && hex_value(
                path@[at + 2],
            ) >= 0 && b as int == hex_value(path@[at + 1]) * 16 + hex_value(path@[at + 2]),
            None => !(path@[at as int] == '_' && hex_value(path@[at + 1]) >= 0 && hex_value(
                path@[at + 2],
            ) >= 0),
        },
{
    if path.get_char(at) != '_' {
        return None;
    }
    let hi = match hex_digit_value(path.get_char(at + 1)) {
        Some(v) => v,
        None => {
            return None;
        },
    };
    let lo = match hex_digit_value(path.get_char(at + 2)) {
        Some(v) => v,
        None => {
            return None;
        },
    };
    Some(hi * 16 + lo)
}

impl MacAddress {
    /// The address fits in 48 bits.
    pub open spec fn wf(self) -> bool {
        self.value < 0x1000000000000
    }

    /// Builds an address from its six bytes, most significant first.
    pub fn from_bytes(b0: u8, b1: u8, b2: u8, b3: u8, b4: u8, b5: u8) -> (r: MacAddress)
        ensures
            r.wf(),
            r.value == b0 * 0x10000000000 + b1 * 0x100000000 + b2 * 0x1000000 + b3 * 0x10000 + b4
                * 0x100 + b5,
    {
        MacAddress {
            value: b0 as u64 * 0x10000000000 + b1 as u64 * 0x100000000 + b2 as u64 * 0x1000000
                + b3 as u64 * 0x10000 + b4 as u64 * 0x100 + b5 as u64,
        }
    }

    /// Reads the address out of a transport object path whose last
    /// segment is `dev_` followed by the six address bytes.
    pub fn from_dbus_path(path: &str) -> (r: Option<MacAddress>)
        ensures
            match r {
                Some(m) => m.wf() && spec_path_mac(path@) == Some(m.value as int),
                None => spec_path_mac(path@) is None,
            },
    {
        let n = path.unicode_len();
        let ghost s = path@;
        proof {
            assert(s.take(n as int) =~= s);
        }
        let mut j: usize = n;
        let mut start: usize = 0;
        let mut found = false;
        while j > 0 && !found
            invariant
                j <= n,
                n == s.len(),
                s == path@,
                !found ==> start == 0 && seg_start(s) == seg_start(s.take(j as int)),
                found ==> seg_start(s) == start as int && start <= n,
            decreases j + if found {
                0int
            } else {
                1int
            },
        {
            if path.get_char(j - 1) == '/' {
                start = j;
                found = true;
                proof {
                    assert(s.take(j as int).len() == j);
                    assert(s.take(j as int)[j - 1] == '/');
                    assert(seg_start(s.take(j as int)) == j);
                }
            } else {
                proof {
                    assert(s.take(j as int).drop_last() =~= s.take(j as int - 1));
                    assert(seg_start(s.take(j as int)) == seg_start(s.take(j as int - 1)));
                }
                j = j - 1;
            }
        }
        proof {
            if !found {
                assert(j == 0);
                assert(s.take(0) =~= Seq::<char>::empty());
                assert(seg_start(Seq::<char>::empty()) == 0);
            }
            assert(seg_start(s) == start as int);
            assert(start <= n);
        }
        let ghost seg = s.subrange(start as int, s.len() as int);
        if n - start != 21 {
            return None;
        }
        proof {
            assert(seg.len() == 21);
        }
        if path.get_char(start) != 'd' || path.get_char(start + 1) != 'e' || path.get_char(
            start + 2,
        ) != 'v' {
            return None;
        }
        let b0 = match read_group(path, start + 3) {
            Some(b) => b,
            None => {
                return None;
            },
        };
        let b1 = match read_group(path, start + 6) {
            Some(b) => b,
            None => {
                return None;
            },
        };
        let b2 = match read_group(path, start + 9) {
            Some(b) => b,
            None => {
                return None;
            },
        };
        let b3 = match read_group(path, start + 12) {
            Some(b) => b,
            None => {
                return None;
            },
        };
        let b4 = match read_group(path, start + 15) {
            Some(b) => b,
            None => {
                return None;
            },
        };
        let b5 = match read_group(path, start + 18) {
            Some(b) => b,
            None => {
                return None;
            },
        };
        let r = MacAddress::from_bytes(b0, b1, b2, b3, b4, b5);
        proof {
            assert(valid_dev_segment(seg));
            assert(seg_value(seg) == r.value);
        }
        Some(r)
    }

    /// The printed form of the address, `XX:XX:XX:XX:XX:XX`.
    pub fn display_string(&self) -> (r: String)
        ensures
            r@ == spec_mac_string(self.value as int),
    {
        let mut s = String::new();
        push_hex_byte(&mut s, self.value / 0x10000000000 % 0x100);
        string_push(&mut s, ':');
        push_hex_byte(&mut s, self.value / 0x100000000 % 0x100);
        string_push(&mut s, ':');
        push_hex_byte(&mut s, self.value / 0x1000000 % 0x100);
        string_push(&mut s, ':');
        push_hex_byte(&mut s, self.value / 0x10000 % 0x100);
        string_push(&mut s, ':');
        push_hex_byte(&mut s, self.value / 0x100 % 0x100);
        string_push(&mut s, ':');
        push_hex_byte(&mut s, self.value % 0x100);
        proof {
            assert(s@ =~= spec_mac_string(self.value as int));
        }
        s
    }
}

/// One known peripheral, replaced wholesale on every update from the
/// transport layer.
#[derive(Debug)]
pub struct Device {
    pub name: Option<String>,
    pub address: MacAddress,
    pub connected: bool,
    pub paired: bool,
    pub rssi: Option<i16>,
    pub tx_power: Option<i16>,
}

impl Device {
    /// Builds a record for a freshly reported peripheral: never paired
    /// until the transport says so.
    pub fn new(
        address: MacAddress,
        name: Option<String>,
        connected: bool,
        rssi: Option<i16>,
        tx_power: Option<i16>,
    ) -> (r: Device)
        ensures
            r == (Device { name, address, connected, paired: false, rssi, tx_power }),
    {
        Device { name, address, connected, paired: false, rssi, tx_power }
    }
}

impl Clone for Device {
    fn clone(&self) -> (r: Self)
        ensures
            r == *self,
    {
        Device {
            name: match &self.name {
                Some(n) => Some(n.clone()),
                None => None,
            },
            address: self.address,
            connected: self.connected,
            paired: self.paired,
            rssi: self.rssi,
            tx_power: self.tx_power,
        }
    }
}

impl PartialEq for Device {
    /// Two records are the same device when their addresses agree.
    fn eq(&self, other: &Device) -> (r: bool) {
        self.address.value == other.address.value
    }
}

impl vstd::std_specs::cmp::PartialEqSpecImpl for Device {
    open spec fn obeys_eq_spec() -> bool {
        true
    }

    open spec fn eq_spec(&self, other: &Device) -> bool {
        self.address.value == other.address.value
    }
}

/// Whether some record in the sequence carries this address value.
pub open spec fn has_address(s: Seq<Device>, a: u64) -> bool {
    exists|i: int| 0 <= i < s.len() && (#[trigger] s[i]).address.value == a
}

/// The position of the record carrying this address value.
pub open spec fn index_of_address(s: Seq<Device>, a: u64) -> int {
    choose|i: int| 0 <= i < s.len() && (#[trigger] s[i]).address.value == a
}

/// What an upsert leaves behind: the record replaced in place when the
/// address is known, appended otherwise.
pub open spec fn spec_upsert(s: Seq<Device>, d: Device) -> Seq<Device> {
    if has_address(s, d.address.value) {
        s.update(index_of_address(s, d.address.value), d)
    } else {
        s.push(d)
    }
}

/// The registry of known peripherals: an insertion-ordered sequence of
/// records, an index from hardware address to position, and a movable
/// selection cursor.
pub struct Devices {
    devices: Vec<Device>,
    mac_address_index_map: HashMap<u64, usize>,
    selected: Option<usize>,
}

impl View for Devices {
    type V = Seq<Device>;

    closed spec fn view(&self) -> Seq<Device> {
        self.devices@
    }
}

impl Devices {
    /// Addresses are unique, the index agrees with the sequence, and
    /// the cursor, when present, is a valid position.
    pub closed spec fn wf(&self) -> bool {
        &&& forall|i: int, j: int|
            0 <= i < j < self.devices@.len() ==> (#[trigger] self.devices@[i]).address.value != (
            #[trigger] self.devices@[j]).address.value
        &&& forall|i: int|
            0 <= i < self.devices@.len() ==> self.mac_address_index_map@.contains_key(
                (#[trigger] self.devices@[i]).address.value,
            ) && self.mac_address_index_map@[self.devices@[i].address.value] == i
        &&& forall|k: u64|
            #[trigger] self.mac_address_index_map@.contains_key(k) ==> has_address(
                self.devices@,
                k,
            )
        &&& match self.selected {
            Some(i) => (i as int) < self.devices@.len(),
            None => true,
        }
    }

    /// The selection cursor.
    pub closed spec fn spec_selected(&self) -> Option<usize> {
        self.selected
    }

    /// A consistent registry's cursor, when present, is a valid
    /// position.
    pub proof fn lemma_selected_in_bounds(&self)
        requires
            self.wf(),
        ensures
            match self.spec_selected() {
                Some(i) => (i as int) < self@.len(),
                None => true,
            },
    {
    }

    /// An empty registry with no selection.
    pub fn new() -> (r: Devices)
        ensures
            r.wf(),
            r@ == Seq::<Device>::empty(),
            r.spec_selected() is None,
    {
        Devices {
            devices: Vec::new(),
            mac_address_index_map: HashMap::new(),
            selected: None,
        }
    }

    /// How many devices the registry holds.
    pub fn len(&self) -> (r: usize)
        ensures
            r == self@.len(),
    {
        self.devices.len()
    }

    /// The record at one registry position.
    pub fn device_at(&self, index: usize) -> (r: Device)
        requires
            index < self@.len(),
        ensures
            r == self@[index as int],
    {
        self.devices[index].clone()
    }

    /// The selection cursor, as a registry position.
    pub fn selected_index(&self) -> (r: Option<usize>)
        ensures
            r == self.spec_selected(),
    {
        self.selected
    }

    /// Appends a record whose address is new to the registry.
    pub fn add(&mut self, device: Device)
        requires
            old(self).wf(),
            !has_address(old(self)@, device.address.value),
        ensures
            final(self).wf(),
            final(self)@ == old(self)@.push(device),
            final(self).spec_selected() == old(self).spec_selected(),
    {
        let index = self.devices.len();
        let key = device.address.value;
        self.devices.push(device);
        self.mac_address_index_map.insert(key, index);
        proof {
            assert forall|k: u64| #[trigger]
                self.mac_address_index_map@.contains_key(k) implies has_address(
                self.devices@,
                k,
            ) by {
                if k == key {
                    assert(self.devices@[index as int].address.value == k);
                } else {
                    assert(has_address(old(self).devices@, k));
                    let i = index_of_address(old(self).devices@, k);
                    assert(self.devices@[i].address.value == k);
                }
            }
            assert forall|i: int|
                0 <= i < self.devices@.len() implies self.mac_address_index_map@.contains_key(
                (#[trigger] self.devices@[i]).address.value,
            ) && self.mac_address_index_map@[self.devices@[i].address.value] == i by {
                if i < index {
                    assert(old(self).devices@[i] == self.devices@[i]);
                }
            }
        }
    }

    /// Upserts a record: replaces in place, preserving the registry
    /// position, when the address is known; appends otherwise. The
    /// selection cursor never moves.
    pub fn update(&mut self, device: Device)
        requires
            old(self).wf(),
        ensures
            final(self).wf(),
            final(self)@ == spec_upsert(old(self)@, device),
            final(self).spec_selected() == old(self).spec_selected(),
    {
        let key = device.address.value;
        let index_opt = match self.mac_address_index_map.get(&key) {
            Some(i) => Some(*i),
            None => None,
        };
        match index_opt {
            Some(index) => {
                proof {
                    assert(has_address(self.devices@, key));
                    let j = index_of_address(self.devices@, key);
                    assert(self.devices@[j].address.value == key);
                    assert(self.mac_address_index_map@[key] == j);
                }
                self.devices.set(index, device);
                proof {
                    let s0 = old(self).devices@;
                    let idx = index as int;
                    assert forall|k: u64| #[trigger]
                        self.mac_address_index_map@.contains_key(k) implies has_address(
                        self.devices@,
                        k,
                    ) by {
                        let i = index_of_address(s0, k);
                        if i == idx {
                            assert(s0[i].address.value == key);
                            assert(self.devices@[idx].address.value == k);
                        } else {
                            assert(self.devices@[i].address.value == k);
                        }
                    }
                }
            },
            None => {
                proof {
                    if has_address(self.devices@, key) {
                        let i = index_of_address(self.devices@, key);
                        assert(self.mac_address_index_map@.contains_key(
                            self.devices@[i].address.value,
                        ));
                    }
                }
                self.add(device);
            },
        }
    }

    /// Upserts a record; the transport reports every change this way.
    pub fn insert_or_replace(&mut self, device: Device)
        requires
            old(self).wf(),
        ensures
            final(self).wf(),
            final(self)@ == spec_upsert(old(self)@, device),
            final(self).spec_selected() == old(self).spec_selected(),
    {
        self.update(device);
    }

    /// The record carrying this address, if the registry knows it.
    pub fn get_by_mac_address(&self, mac_address: &MacAddress) -> (r: Option<Device>)
        requires
            self.wf(),
        ensures
            match r {
                Some(d) => has_address(self@, mac_address.value) && d == self@[index_of_address(
                    self@,
                    mac_address.value,
                )],
                None => !has_address(self@, mac_address.value),
            },
    {
        match self.get_index_by_mac_address(mac_address) {
            Some(index) => Some(self.devices[index].clone()),
            None => None,
        }
    }

    /// The registry position of this address, if the registry knows it.
    pub fn get_index_by_mac_address(&self, mac_address: &MacAddress) -> (r: Option<usize>)
        requires
            self.wf(),
        ensures
            match r {
                Some(i) => has_address(self@, mac_address.value) && i as int == index_of_address(
                    self@,
                    mac_address.value,
                ),
                None => !has_address(self@, mac_address.value),
            },
    {
        let key = mac_address.value;
        match self.mac_address_index_map.get(&key) {
            Some(i) => {
                proof {
                    assert(has_address(self.devices@, key));
                    let j = index_of_address(self.devices@, key);
                    assert(self.devices@[j].address.value == key);
                }
                Some(*i)
            },
            None => {
                proof {
                    if has_address(self.devices@, key) {
                        let i = index_of_address(self.devices@, key);
                        assert(self.mac_address_index_map@.contains_key(
                            self.devices@[i].address.value,
                        ));
                    }
                }
                None
            },
        }
    }

    /// The record under the selection cursor.
    pub fn get_selected_device(&self) -> (r: Option<Device>)
        requires
            self.wf(),
        ensures
            match self.spec_selected() {
                Some(i) => r == Some(self@[i as int]),
                None => r is None,
            },
    {
        match self.selected {
            Some(index) => Some(self.devices[index].clone()),
            None => None,
        }
    }

    /// Moves the selection cursor to the given registry position.
    pub fn select(&mut self, index: Option<usize>)
        requires
            old(self).wf(),
            match index {
                Some(i) => (i as int) < old(self)@.len(),
                None => true,
            },
        ensures
            final(self).wf(),
            final(self)@ == old(self)@,
            final(self).spec_selected() == index,
    {
        self.selected = index;
    }

    /// Moves the cursor one step towards the end, clamping at the last
    /// position; an unset cursor jumps to the first element.
    pub fn move_selector_down(&mut self)
        requires
            old(self).wf(),
        ensures
            final(self).wf(),
            final(self)@ == old(self)@,
            final(self).spec_selected() == match old(self).spec_selected() {
                Some(i) => if i + 1 < old(self)@.len() {
                    Some((i + 1) as usize)
                } else {
                    Some((old(self)@.len() - 1) as usize)
                },
                None => if old(self)@.len() > 0 {
                    Some(0usize)
                } else {
                    None::<usize>
                },
            },
    {
        match self.selected {
            Some(index) => {
                let last = self.devices.len() - 1;
                if index < last {
                    self.selected = Some(index + 1);
                } else {
                    self.selected = Some(last);
                }
            },
            None => {
                if self.devices.len() > 0 {
                    self.selected = Some(0);
                }
            },
        }
    }

    /// Moves the cursor one step towards the start, clamping at the
    /// first position; an unset cursor jumps to the last element.
    pub fn move_selector_up(&mut self)
        requires
            old(self).wf(),
        ensures
            final(self).wf(),
            final(self)@ == old(self)@,
            final(self).spec_selected() == match old(self).spec_selected() {
                Some(i) => if i > 0 {
                    Some((i - 1) as usize)
                } else {
                    Some(0usize)
                },
                None => if old(self)@.len() > 0 {
                    Some((old(self)@.len() - 1) as usize)
                } else {
                    None::<usize>
                },
            },
    {
        match self.selected {
            Some(index) => {
                if index > 0 {
                    self.selected = Some(index - 1);
                } else {
                    self.selected = Some(0);
                }
            },
            None => {
                if self.devices.len() > 0 {
                    self.selected = Some(self.devices.len() - 1);
                }
            },
        }
    }
}

/// First display tier: connected devices.
pub open spec fn is_tier1(d: Device) -> bool {
    d.connected
}

/// Second display tier: paired but disconnected devices.
pub open spec fn is_tier2(d: Device) -> bool {
    !d.connected && d.paired
}

/// Third display tier: everything else, filtered to exclude nameless
/// devices unless they are explicitly shown.
pub open spec fn is_tier3(d: Device, show_unknown: bool) -> bool {
    !d.connected && !d.paired && (d.name is Some || show_unknown)
}

/// Addresses of the first-tier devices, in registry order.
pub open spec fn tier1_addrs(s: Seq<Device>) -> Seq<MacAddress>
    decreases s.len(),
{
    if s.len() == 0 {
        Seq::empty()
    } else {
        let rest = tier1_addrs(s.drop_last());
        if is_tier1(s.last()) {
            rest.push(s.last().address)
        } else {
            rest
        }
    }
}

/// Addresses of the second-tier devices, in registry order.
pub open spec fn tier2_addrs(s: Seq<Device>) -> Seq<MacAddress>
    decreases s.len(),
{
    if s.len() == 0 {
        Seq::empty()
    } else {
        let rest = tier2_addrs(s.drop_last());
        if is_tier2(s.last()) {
            rest.push(s.last().address)
        } else {
            rest
        }
    }
}

/// Addresses of the third-tier devices, in registry order.
pub open spec fn tier3_addrs(s: Seq<Device>, show_unknown: bool) -> Seq<MacAddress>
    decreases s.len(),
{
    if s.len() == 0 {
        Seq::empty()
    } else {
        let rest = tier3_addrs(s.drop_last(), show_unknown);
        if is_tier3(s.last(), show_unknown) {
            rest.push(s.last().address)
        } else {
            rest
        }
    }
}

/// The derived display order: a partition into connected, then paired
/// but disconnected, then the rest, each tier preserving the registry's
/// insertion order. First discovered, first listed; no other sort key.
pub open spec fn spec_device_order(s: Seq<Device>, show_unknown: bool) -> Seq<MacAddress> {
    tier1_addrs(s) + tier2_addrs(s) + tier3_addrs(s, show_unknown)
}

/// Recomputes the display order of the registry for one render pass.
pub fn get_device_order(devices: &Devices, show_unknown: bool) -> (r: Vec<MacAddress>)
    ensures
        r@ == spec_device_order(devices@, show_unknown),
{
    let ghost s = devices@;
    let n = devices.len();
    let mut order: Vec<MacAddress> = Vec::new();
    let mut i: usize = 0;
    while i < n
        invariant
            i <= n,
            n == s.len(),
            s == devices@,
            order@ == tier1_addrs(s.take(i as int)),
        decreases n - i,
    {
        let d = devices.device_at(i);
        proof {
            assert(s.take(i + 1).drop_last() =~= s.take(i as int));
            assert(s.take(i + 1).last() == s[i as int]);
        }
        if d.connected {
            order.push(d.address);
        }
        i = i + 1;
    }
    proof {
        assert(s.take(n as int) =~= s);
    }
    i = 0;
    while i < n
        invariant
            i <= n,
            n == s.len(),
            s == devices@,
            order@ == tier1_addrs(s) + tier2_addrs(s.take(i as int)),
        decreases n - i,
    {
        let d = devices.device_at(i);
        proof {
            assert(s.take(i + 1).drop_last() =~= s.take(i as int));
            assert(s.take(i + 1).last() == s[i as int]);
        }
        if !d.connected && d.paired {
            order.push(d.address);
            proof {
                assert(order@ =~= tier1_addrs(s) + tier2_addrs(s.take(i + 1)));
            }
        }
        i = i + 1;
    }
    i = 0;
    while i < n
        invariant
            i <= n,
            n == s.len(),
            s == devices@,
            order@ == tier1_addrs(s) + tier2_addrs(s) + tier3_addrs(s.take(i as int), show_unknown),
        decreases n - i,
    {
        let d = devices.device_at(i);
        proof {
            assert(s.take(i + 1).drop_last() =~= s.take(i as int));
            assert(s.take(i + 1).last() == s[i as int]);
        }
        if !d.connected && !d.paired && (d.name.is_some() || show_unknown) {
            order.push(d.address);
            proof {
                assert(order@ =~= tier1_addrs(s) + tier2_addrs(s) + tier3_addrs(
                    s.take(i + 1),
                    show_unknown,
                ));
            }
        }
        i = i + 1;
    }
    order
}

/// Position of the first occurrence of an address in a display order.
pub open spec fn spec_position(order: Seq<MacAddress>, a: MacAddress) -> Option<int>
    decreases order.len(),
{
    if order.len() == 0 {
        None
    } else if order[0] == a {
        Some(0int)
    } else {
        match spec_position(order.drop_first(), a) {
            Some(p) => Some(p + 1),
            None => None,
        }
    }
}

proof fn lemma_position_found(order: Seq<MacAddress>, a: MacAddress, i: int)
    requires
        0 <= i < order.len(),
        order[i] == a,
        forall|j: int| 0 <= j < i ==> order[j] != a,
    ensures
        spec_position(order, a) == Some(i),
    decreases i,
{
    if i > 0 {
        lemma_position_found(order.drop_first(), a, i - 1);
    }
}

proof fn lemma_position_missing(order: Seq<MacAddress>, a: MacAddress)
    requires
        forall|j: int| 0 <= j < order.len() ==> order[j] != a,
    ensures
        spec_position(order, a) is None,
    decreases order.len(),
{
    if order.len() > 0 {
        lemma_position_missing(order.drop_first(), a);
    }
}

/// Finds the first occurrence of an address in a display order.
pub fn position_in_order(order: &Vec<MacAddress>, a: &MacAddress) -> (r: Option<usize>)
    ensures
        match r {
            Some(i) => spec_position(order@, *a) == Some(i as int) && i < order@.len()
                && order@[i as int] == *a,
            None => spec_position(order@, *a) is None,
        },
{
    let n = order.len();
    let mut i: usize = 0;
    while i < n
        invariant
            i <= n,
            n == order@.len(),
            forall|j: int| 0 <= j < i ==> order@[j] != *a,
        decreases n - i,
    {
        if order[i].value == a.value {
            proof {
                lemma_position_found(order@, *a, i as int);
            }
            return Some(i);
        }
        i = i + 1;
    }
    proof {
        lemma_position_missing(order@, *a);
    }
    None
}

/// The entry after the given one in the display order, if any.
pub fn get_next_device(order: &Vec<MacAddress>, selected_device: &MacAddress) -> (r: Option<
    MacAddress,
>)
    ensures
        r == (match spec_position(order@, *selected_device) {
            Some(p) => if p + 1 < order@.len() {
                Some(order@[p + 1])
            } else {
                None::<MacAddress>
            },
            None => None::<MacAddress>,
        }),
{
    let n = order.len();
    match position_in_order(order, selected_device) {
        Some(p) => {
            if p < n - 1 {
                Some(order[p + 1])
            } else {
                None
            }
        },
        None => None,
    }
}

/// The entry before the given one in the display order, if any.
pub fn get_previous_device(order: &Vec<MacAddress>, selected_device: &MacAddress) -> (r: Option<
    MacAddress,
>)
    ensures
        r == (match spec_position(order@, *selected_device) {
            Some(p) => if p > 0 {
                Some(order@[p - 1])
            } else {
                None::<MacAddress>
            },
            None => None::<MacAddress>,
        }),
{
    match position_in_order(order, selected_device) {
        Some(p) => {
            if p > 0 {
                Some(order[p - 1])
            } else {
                None
            }
        },
        None => None,
    }
}

/// The first entry of the display order, if any.
pub fn get_first_device(order: &Vec<MacAddress>) -> (r: Option<MacAddress>)
    ensures
        r == (if order@.len() > 0 {
            Some(order@[0])
        } else {
            None::<MacAddress>
        }),
{
    if order.len() > 0 {
        Some(order[0])
    } else {
        None
    }
}

/// The last entry of the display order, if any.
pub fn get_last_device(order: &Vec<MacAddress>) -> (r: Option<MacAddress>)
    ensures
        r == (if order@.len() > 0 {
            Some(order@[order@.len() - 1])
        } else {
            None::<MacAddress>
        }),
{
    if order.len() > 0 {
        Some(order[order.len() - 1])
    } else {
        None
    }
}

/// No two records carry the same address.
pub open spec fn unique_addresses(s: Seq<Device>) -> bool {
    forall|i: int, j: int|
        0 <= i < j < s.len() ==> (#[trigger] s[i]).address.value != (#[trigger] s[j]).address.value
}

/// How many records carry this address value.
pub open spec fn count_address(s: Seq<Device>, a: u64) -> int
    decreases s.len(),
{
    if s.len() == 0 {
        0
    } else {
        count_address(s.drop_last(), a) + if s.last().address.value == a {
            1int
        } else {
            0int
        }
    }
}

/// With unique addresses, an address occurs once if at all.
pub proof fn lemma_count_unique(s: Seq<Device>, a: u64)
    requires
        unique_addresses(s),
    ensures
        count_address(s, a) == if has_address(s, a) {
            1int
        } else {
            0int
        },
    decreases s.len(),
{
    if s.len() > 0 {
        let t = s.drop_last();
        assert(unique_addresses(t)) by {
            assert forall|i: int, j: int| 0 <= i < j < t.len() implies (#[trigger] t[i]).address.value
                != (#[trigger] t[j]).address.value by {
                assert(t[i] == s[i] && t[j] == s[j]);
            }
        }
        lemma_count_unique(t, a);
        if s.last().address.value == a {
            assert(has_address(s, a)) by {
                assert(s[s.len() - 1].address.value == a);
            }
            assert(!has_address(t, a)) by {
                if has_address(t, a) {
                    let i = index_of_address(t, a);
                    assert(s[i].address.value == a);
                    assert(s[s.len() - 1].address.value == a);
                }
            }
        } else {
            assert(has_address(s, a) <==> has_address(t, a)) by {
                if has_address(s, a) {
                    let i = index_of_address(s, a);
                    assert(i < t.len() && t[i] == s[i]);
                }
                if has_address(t, a) {
                    let i = index_of_address(t, a);
                    assert(s[i] == t[i]);
                }
            }
        }
    }
}

/// With unique addresses, the index of an address is the index of any
/// record that carries it.
pub proof fn lemma_index_of_unique(s: Seq<Device>, a: u64, i: int)
    requires
        unique_addresses(s),
        0 <= i < s.len(),
        s[i].address.value == a,
    ensures
        has_address(s, a),
        index_of_address(s, a) == i,
{
    assert(has_address(s, a));
    let j = index_of_address(s, a);
    assert(0 <= j < s.len() && s[j].address.value == a);
    if j != i {
        assert(false);
    }
}

/// Upserting the same address twice leaves exactly one record at that
/// address, and the most recent record wins; nothing else moves, and
/// the registry grows by at most the one appended record.
pub proof fn lemma_upsert_idempotent(s: Seq<Device>, d1: Device, d2: Device)
    requires
        unique_addresses(s),
        d1.address.value == d2.address.value,
    ensures
        ({
            let s2 = spec_upsert(spec_upsert(s, d1), d2);
            &&& unique_addresses(s2)
            &&& has_address(s2, d2.address.value)
            &&& count_address(s2, d2.address.value) == 1
            &&& s2[index_of_address(s2, d2.address.value)] == d2
            &&& s2.len() == (if has_address(s, d1.address.value) {
                s.len()
            } else {
                s.len() + 1
            })
            &&& forall|k: int|
                0 <= k < s2.len() && k != index_of_address(s2, d2.address.value) ==> s2[k] == s[k]
        }),
{
    let a = d1.address.value;
    if has_address(s, a) {
        let i = index_of_address(s, a);
        assert(0 <= i < s.len() && s[i].address.value == a);
        let s1 = s.update(i, d1);
        assert(spec_upsert(s, d1) == s1);
        assert(unique_addresses(s1)) by {
            assert forall|p: int, q: int| 0 <= p < q < s1.len() implies (
            #[trigger] s1[p]).address.value != (#[trigger] s1[q]).address.value by {
                assert(s1[p] == if p == i {
                    d1
                } else {
                    s[p]
                });
                assert(s1[q] == if q == i {
                    d1
                } else {
                    s[q]
                });
                assert(s[p].address.value != s[q].address.value);
            }
        }
        lemma_index_of_unique(s1, a, i);
        let s2 = s1.update(i, d2);
        assert(spec_upsert(s1, d2) == s2);
        assert(unique_addresses(s2)) by {
            assert forall|p: int, q: int| 0 <= p < q < s2.len() implies (
            #[trigger] s2[p]).address.value != (#[trigger] s2[q]).address.value by {
                assert(s[p].address.value != s[q].address.value);
            }
        }
        lemma_index_of_unique(s2, a, i);
        lemma_count_unique(s2, a);
        assert(s2[i] == d2);
    } else {
        let s1 = s.push(d1);
        assert(spec_upsert(s, d1) == s1);
        assert(unique_addresses(s1)) by {
            assert forall|p: int, q: int| 0 <= p < q < s1.len() implies (
            #[trigger] s1[p]).address.value != (#[trigger] s1[q]).address.value by {
                if q == s.len() {
                    assert(s1[p] == s[p]);
                    if s[p].address.value == a {
                        assert(has_address(s, a));
                    }
                } else {
                    assert(s1[p] == s[p] && s1[q] == s[q]);
                }
            }
        }
        lemma_index_of_unique(s1, a, s.len() as int);
        let s2 = s1.update(s.len() as int, d2);
        assert(spec_upsert(s1, d2) == s2);
        assert(unique_addresses(s2)) by {
            assert forall|p: int, q: int| 0 <= p < q < s2.len() implies (
            #[trigger] s2[p]).address.value != (#[trigger] s2[q]).address.value by {
                assert(s1[p].address.value != s1[q].address.value);
            }
        }
        lemma_index_of_unique(s2, a, s.len() as int);
        lemma_count_unique(s2, a);
        assert(s2[s.len() as int] == d2);
    }
}

impl Default for Devices {
    /// The empty registry.
    fn default() -> (r: Devices)
        ensures
            r.wf(),
            r@ == Seq::<Device>::empty(),
            r.spec_selected() is None,
    {
        Devices::new()
    }
}

impl Devices {
    /// A consistent registry has unique addresses.
    pub proof fn lemma_wf_unique(&self)
        requires
            self.wf(),
        ensures
            unique_addresses(self@),
    {
    }
}

/// The addresses of the first tier are exactly those of the connected
/// devices.
pub proof fn lemma_tier1_membership(s: Seq<Device>)
    ensures
        forall|a: MacAddress| #[trigger]
            tier1_addrs(s).contains(a) <==> exists|i: int|
                0 <= i < s.len() && is_tier1(#[trigger] s[i]) && s[i].address == a,
    decreases s.len(),
{
    broadcast use vstd::seq_lib::lemma_seq_contains_after_push;

    if s.len() > 0 {
        let t = s.drop_last();
        lemma_tier1_membership(t);
        assert forall|a: MacAddress| #[trigger] tier1_addrs(s).contains(a) implies exists|i: int|
            0 <= i < s.len() && is_tier1(#[trigger] s[i]) && s[i].address == a by {
            if is_tier1(s.last()) && a == s.last().address {
                assert(is_tier1(s[s.len() - 1]) && s[s.len() - 1].address == a);
            } else {
                assert(tier1_addrs(t).contains(a));
                let i = choose|i: int| 0 <= i < t.len() && is_tier1(#[trigger] t[i]) && t[i].address
                    == a;
                assert(is_tier1(s[i]) && s[i].address == a);
            }
        }
        assert forall|a: MacAddress|
            exists|i: int|
                0 <= i < s.len() && is_tier1(#[trigger] s[i]) && s[i].address
                    == a implies #[trigger] tier1_addrs(s).contains(a) by {
            let i = choose|i: int| 0 <= i < s.len() && is_tier1(#[trigger] s[i]) && s[i].address
                == a;
            if i == s.len() - 1 {
                assert(tier1_addrs(s).contains(a));
            } else {
                assert(t[i] == s[i]);
                assert(tier1_addrs(t).contains(a));
            }
        }
    }
}

/// The addresses of the second tier are exactly those of the paired
/// but disconnected devices.
pub proof fn lemma_tier2_membership(s: Seq<Device>)
    ensures
        forall|a: MacAddress| #[trigger]
            tier2_addrs(s).contains(a) <==> exists|i: int|
                0 <= i < s.len() && is_tier2(#[trigger] s[i]) && s[i].address == a,
    decreases s.len(),
{
    broadcast use vstd::seq_lib::lemma_seq_contains_after_push;

    if s.len() > 0 {
        let t = s.drop_last();
        lemma_tier2_membership(t);
        assert forall|a: MacAddress| #[trigger] tier2_addrs(s).contains(a) implies exists|i: int|
            0 <= i < s.len() && is_tier2(#[trigger] s[i]) && s[i].address == a by {
            if is_tier2(s.last()) && a == s.last().address {
                assert(is_tier2(s[s.len() - 1]) && s[s.len() - 1].address == a);
            } else {
                assert(tier2_addrs(t).contains(a));
                let i = choose|i: int| 0 <= i < t.len() && is_tier2(#[trigger] t[i]) && t[i].address
                    == a;
                assert(is_tier2(s[i]) && s[i].address == a);
            }
        }
        assert forall|a: MacAddress|
            exists|i: int|
                0 <= i < s.len() && is_tier2(#[trigger] s[i]) && s[i].address
                    == a implies #[trigger] tier2_addrs(s).contains(a) by {
            let i = choose|i: int| 0 <= i < s.len() && is_tier2(#[trigger] s[i]) && s[i].address
                == a;
            if i == s.len() - 1 {
                assert(tier2_addrs(s).contains(a));
            } else {
                assert(t[i] == s[i]);
                assert(tier2_addrs(t).contains(a));
            }
        }
    }
}

/// The addresses of the third tier are exactly those of the remaining
/// devices that are shown.
pub proof fn lemma_tier3_membership(s: Seq<Device>, show_unknown: bool)
    ensures
        forall|a: MacAddress| #[trigger]
            tier3_addrs(s, show_unknown).contains(a) <==> exists|i: int|
                0 <= i < s.len() && is_tier3(#[trigger] s[i], show_unknown) && s[i].address == a,
    decreases s.len(),
{
    broadcast use vstd::seq_lib::lemma_seq_contains_after_push;

    if s.len() > 0 {
        let t = s.drop_last();
        lemma_tier3_membership(t, show_unknown);
        assert forall|a: MacAddress| #[trigger]
            tier3_addrs(s, show_unknown).contains(a) implies exists|i: int|
            0 <= i < s.len() && is_tier3(#[trigger] s[i], show_unknown) && s[i].address == a by {
            if is_tier3(s.last(), show_unknown) && a == s.last().address {
                assert(is_tier3(s[s.len() - 1], show_unknown) && s[s.len() - 1].address == a);
            } else {
                assert(tier3_addrs(t, show_unknown).contains(a));
                let i = choose|i: int|
                    0 <= i < t.len() && is_tier3(#[trigger] t[i], show_unknown) && t[i].address
                        == a;
                assert(is_tier3(s[i], show_unknown) && s[i].address == a);
            }
        }
        assert forall|a: MacAddress|
            exists|i: int|
                0 <= i < s.len() && is_tier3(#[trigger] s[i], show_unknown) && s[i].address
                    == a implies #[trigger] tier3_addrs(s, show_unknown).contains(a) by {
            let i = choose|i: int|
                0 <= i < s.len() && is_tier3(#[trigger] s[i], show_unknown) && s[i].address == a;
            if i == s.len() - 1 {
                assert(tier3_addrs(s, show_unknown).contains(a));
            } else {
                assert(t[i] == s[i]);
                assert(tier3_addrs(t, show_unknown).contains(a));
            }
        }
    }
}

/// The display order is a partition: it is the concatenation of the
/// three tiers, a device's address is listed exactly when its tier
/// admits it, and — the tiers' predicates being mutually exclusive —
/// no address of a uniquely-addressed registry is listed under two
/// tiers. Being a function of the registry and the visibility switch
/// alone, the order is stable under repeated calls given unchanged
/// input.
pub proof fn lemma_display_order_partition(s: Seq<Device>, show_unknown: bool)
    requires
        unique_addresses(s),
    ensures
        spec_device_order(s, show_unknown) == tier1_addrs(s) + tier2_addrs(s) + tier3_addrs(
            s,
            show_unknown,
        ),
        forall|i: int|
            0 <= i < s.len() ==> (#[trigger] tier1_addrs(s).contains(s[i].address) <==> is_tier1(
                s[i],
            )),
        forall|i: int|
            0 <= i < s.len() ==> (#[trigger] tier2_addrs(s).contains(s[i].address) <==> is_tier2(
                s[i],
            )),
        forall|i: int|
            0 <= i < s.len() ==> (#[trigger] tier3_addrs(s, show_unknown).contains(s[i].address)
                <==> is_tier3(s[i], show_unknown)),
{
    lemma_tier1_membership(s);
    lemma_tier2_membership(s);
    lemma_tier3_membership(s, show_unknown);
    assert forall|i: int|
        0 <= i < s.len() implies (#[trigger] tier1_addrs(s).contains(s[i].address) <==> is_tier1(
        s[i],
    )) by {
        if tier1_addrs(s).contains(s[i].address) {
            let j = choose|j: int|
                0 <= j < s.len() && is_tier1(#[trigger] s[j]) && s[j].address == s[i].address;
            if i != j {
                assert(s[i].address.value == s[j].address.value);
                assert(false);
            }
        }
        if is_tier1(s[i]) {
            assert(0 <= i < s.len() && is_tier1(s[i]) && s[i].address == s[i].address);
        }
    }
    assert forall|i: int|
        0 <= i < s.len() implies (#[trigger] tier2_addrs(s).contains(s[i].address) <==> is_tier2(
        s[i],
    )) by {
        if tier2_addrs(s).contains(s[i].address) {
            let j = choose|j: int|
                0 <= j < s.len() && is_tier2(#[trigger] s[j]) && s[j].address == s[i].address;
            if i != j {
                assert(s[i].address.value == s[j].address.value);
                assert(false);
            }
        }
        if is_tier2(s[i]) {
            assert(0 <= i < s.len() && is_tier2(s[i]) && s[i].address == s[i].address);
        }
    }
    assert forall|i: int|
        0 <= i < s.len() implies (#[trigger] tier3_addrs(s, show_unknown).contains(s[i].address)
        <==> is_tier3(s[i], show_unknown)) by {
        if tier3_addrs(s, show_unknown).contains(s[i].address) {
            let j = choose|j: int|
                0 <= j < s.len() && is_tier3(#[trigger] s[j], show_unknown) && s[j].address
                    == s[i].address;
            if i != j {
                assert(s[i].address.value == s[j].address.value);
                assert(false);
            }
        }
        if is_tier3(s[i], show_unknown) {
            assert(0 <= i < s.len() && is_tier3(s[i], show_unknown) && s[i].address
                == s[i].address);
        }
    }
}

/// Every address the display order lists is in the registry.
pub proof fn lemma_order_addresses_known(s: Seq<Device>, show_unknown: bool, k: int)
    requires
        0 <= k < spec_device_order(s, show_unknown).len(),
    ensures
        has_address(s, spec_device_order(s, show_unknown)[k].value),
{
    broadcast use vstd::seq_lib::lemma_seq_contains_after_push;

    lemma_tier1_membership(s);
    lemma_tier2_membership(s);
    lemma_tier3_membership(s, show_unknown);
    let order = spec_device_order(s, show_unknown);
    let a = order[k];
    let n1 = tier1_addrs(s).len();
    let n2 = tier2_addrs(s).len();
    if k < n1 {
        assert(tier1_addrs(s)[k] == a);
        assert(tier1_addrs(s).contains(a));
        let i = choose|i: int| 0 <= i < s.len() && is_tier1(#[trigger] s[i]) && s[i].address == a;
        assert(s[i].address.value == a.value);
    } else if k < n1 + n2 {
        assert(tier2_addrs(s)[k - n1] == a);
        assert(tier2_addrs(s).contains(a));
        let i = choose|i: int| 0 <= i < s.len() && is_tier2(#[trigger] s[i]) && s[i].address == a;
        assert(s[i].address.value == a.value);
    } else {
        assert(tier3_addrs(s, show_unknown)[k - n1 - n2] == a);
        assert(tier3_addrs(s, show_unknown).contains(a));
        let i = choose|i: int|
            0 <= i < s.len() && is_tier3(#[trigger] s[i], show_unknown) && s[i].address == a;
        assert(s[i].address.value == a.value);
    }
}

/// Appends the two hexadecimal digits of one byte value.
fn push_hex_byte(s: &mut String, b: u64)
    requires
        b < 256,
    ensures
        final(s)@ == old(s)@ + spec_hex_byte(b as int),
    {
    string_push(s, digit_to_char(b / 16));
    string_push(s, digit_to_char(b % 16));
    assert(s@ =~= old(s)@ + spec_hex_byte(b as int));
}

} // verus!
