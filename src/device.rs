//! Hot-plugged controllers: their classification and the registry of those present.
use vstd::prelude::*;

verus! {

/// The four supported kinds of controller: two families, each wired or wireless.
#[derive(Clone, Copy, Debug, PartialEq, Eq, Structural)]
pub enum DSType {
    DS4BT,
    DS4USB,
    SenseBT,
    SenseUSB,
}

/// Whether the controller is reached over the wireless transport.
pub open spec fn is_wireless(t: DSType) -> bool {
    t == DSType::DS4BT || t == DSType::SenseBT
}

/// Whether the controller belongs to the first family.
pub open spec fn is_first_family(t: DSType) -> bool {
    t == DSType::DS4BT || t == DSType::DS4USB
}

impl DSType {
    pub fn is_bt(&self) -> (r: bool)
        ensures
            r == is_wireless(*self),
    {
        match self {
            DSType::DS4BT | DSType::SenseBT => true,
            _ => false,
        }
    }
}

/// The network address of a peer: an IP address (IPv4 in the low 32 bits when
/// `is_v6` is false), a port, and for IPv6 the flow label and scope.
#[derive(Clone, Copy, Debug, PartialEq, Eq, Structural, Hash)]
pub struct PeerAddr {
    pub is_v6: bool,
    pub ip: u128,
    pub port: u16,
    pub flowinfo: u32,
    pub scope_id: u32,
}

/// A controller that is present: its kind, the raw device file to open, and the
/// peer that it is assigned to, if any.
#[derive(Debug)]
pub struct DSGamepad {
    pub gamepad_type: DSType,
    pub hidraw_path: String,
    pub used_by: Option<PeerAddr>,
}

/// The byte that separates the fields of a HID identifier.
pub const HID_ID_SEPARATOR: u8 = 0x3A;

/// The fields of `s` between occurrences of `sep`, as `str::split` gives them.
pub open spec fn split_on(s: Seq<u8>, sep: u8) -> Seq<Seq<u8>>
    decreases s.len(),
{
    if s.len() == 0 {
        seq![Seq::<u8>::empty()]
    } else {
        let init = split_on(s.drop_last(), sep);
        if s.last() == sep {
            init.push(Seq::<u8>::empty())
        } else {
            init.update(init.len() - 1, init.last().push(s.last()))
        }
    }
}

/// The contents of a list of byte buffers.
pub open spec fn contents(v: Seq<Vec<u8>>) -> Seq<Seq<u8>> {
    v.map_values(|b: Vec<u8>| b@)
}

/// Splits `s` at every occurrence of `sep`.
pub fn split_fields(s: &[u8], sep: u8) -> (r: Vec<Vec<u8>>)
    ensures
        contents(r@) == split_on(s@, sep),
{
    let mut fields: Vec<Vec<u8>> = Vec::new();
    let mut cur: Vec<u8> = Vec::new();
    let mut i: usize = 0;
    assert(s@.take(0) =~= Seq::<u8>::empty());
    assert(contents(fields@).push(cur@) =~= split_on(s@.take(0), sep));
    while i < s.len()
        invariant
            i <= s@.len(),
            contents(fields@).push(cur@) == split_on(s@.take(i as int), sep),
        decreases s@.len() - i,
    {
        let ghost prev = s@.take(i as int);
        assert(s@.take(i as int + 1).drop_last() =~= prev);
        assert(s@.take(i as int + 1).last() == s@[i as int]);
        if s[i] == sep {
            fields.push(cur);
            cur = Vec::new();
            assert(contents(fields@).push(cur@) =~= split_on(s@.take(i as int + 1), sep));
        } else {
            cur.push(s[i]);
            assert(contents(fields@).push(cur@) =~= split_on(s@.take(i as int + 1), sep));
        }
        i = i + 1;
    }
    assert(s@.take(i as int) =~= s@);
    fields.push(cur);
    assert(contents(fields@) =~= split_on(s@, sep));
    fields
}

/// "0000054C", the vendor field of both families' HID identifier.
pub open spec fn vendor_id() -> Seq<u8> {
    seq![0x30u8, 0x30, 0x30, 0x30, 0x30, 0x35, 0x34, 0x43]
}

/// "000009CC", the product field of the first family.
pub open spec fn ds4_product_id() -> Seq<u8> {
    seq![0x30u8, 0x30, 0x30, 0x30, 0x30, 0x39, 0x43, 0x43]
}

/// "00000CE6", the product field of the second family.
pub open spec fn dsense_product_id() -> Seq<u8> {
    seq![0x30u8, 0x30, 0x30, 0x30, 0x30, 0x43, 0x45, 0x36]
}

/// The controller kind named by a HID identifier ("bus:vendor:product") and the
/// transport, or none for other hardware.
pub open spec fn hid_variant(hid_id: Seq<u8>, is_bt: bool) -> Option<DSType> {
    let f = split_on(hid_id, HID_ID_SEPARATOR);
    if f.len() < 3 || f[1] != vendor_id() {
        None
    } else if f[2] == ds4_product_id() {
        Some(if is_bt { DSType::DS4BT } else { DSType::DS4USB })
    } else if f[2] == dsense_product_id() {
        Some(if is_bt { DSType::SenseBT } else { DSType::SenseUSB })
    } else {
        None
    }
}

fn same_bytes(a: &[u8], b: &[u8]) -> (r: bool)
    ensures
        r == (a@ == b@),
{
    if a.len() != b.len() {
        return false;
    }
    let mut i: usize = 0;
    while i < a.len()
        invariant
            i <= a@.len() == b@.len(),
            a@.take(i as int) == b@.take(i as int),
        decreases a@.len() - i,
    {
        if a[i] != b[i] {
            assert(a@[i as int] != b@[i as int]);
            return false;
        }
        assert(a@.take(i as int + 1) =~= a@.take(i as int).push(a@[i as int]));
        assert(b@.take(i as int + 1) =~= b@.take(i as int).push(b@[i as int]));
        i = i + 1;
    }
    assert(a@ =~= a@.take(i as int));
    assert(b@ =~= b@.take(i as int));
    true
}

/// Classifies a controller by its HID identifier and transport.
pub fn classify(hid_id: &[u8], is_bt: bool) -> (r: Option<DSType>)
    ensures
        r == hid_variant(hid_id@, is_bt),
{
    let f = split_fields(hid_id, HID_ID_SEPARATOR);
    proof {
        assert(contents(f@).len() == f@.len());
    }
    if f.len() < 3 {
        return None;
    }
    let vendor: [u8; 8] = [0x30, 0x30, 0x30, 0x30, 0x30, 0x35, 0x34, 0x43];
    let ds4: [u8; 8] = [0x30, 0x30, 0x30, 0x30, 0x30, 0x39, 0x43, 0x43];
    let dsense: [u8; 8] = [0x30, 0x30, 0x30, 0x30, 0x30, 0x43, 0x45, 0x36];
    assert(vendor@ =~= vendor_id());
    assert(ds4@ =~= ds4_product_id());
    assert(dsense@ =~= dsense_product_id());
    assert(f@[1]@ == contents(f@)[1]);
    assert(f@[2]@ == contents(f@)[2]);
    if !same_bytes(f[1].as_slice(), vendor.as_slice()) {
        return None;
    }
    if same_bytes(f[2].as_slice(), ds4.as_slice()) {
        Some(if is_bt { DSType::DS4BT } else { DSType::DS4USB })
    } else if same_bytes(f[2].as_slice(), dsense.as_slice()) {
        Some(if is_bt { DSType::SenseBT } else { DSType::SenseUSB })
    } else {
        None
    }
}

/// The record of a newly seen controller, or none when it is not one of the
/// supported kinds.
pub fn filter_gamepads(hid_id: &[u8], is_bt: bool, hidraw_path: String) -> (r: Option<DSGamepad>)
    ensures
        hid_variant(hid_id@, is_bt) is None ==> r is None,
        hid_variant(hid_id@, is_bt) is Some ==> r == Some(
            DSGamepad {
                gamepad_type: hid_variant(hid_id@, is_bt)->Some_0,
                hidraw_path: hidraw_path,
                used_by: None,
            },
        ),
{
    match classify(hid_id, is_bt) {
        Some(t) => Some(DSGamepad { gamepad_type: t, hidraw_path, used_by: None }),
        None => None,
    }
}

/// Whether no two entries share a path.
pub open spec fn keys_unique(s: Seq<(String, DSGamepad)>) -> bool {
    forall|i: int, j: int| 0 <= i < j < s.len() ==> s[i].0@ != s[j].0@
}

/// Whether an entry has the given path.
pub open spec fn has_path(s: Seq<(String, DSGamepad)>, path: Seq<char>) -> bool {
    exists|i: int| 0 <= i < s.len() && s[i].0@ == path
}

/// The entry with the given path, when there is one.
pub open spec fn path_index(s: Seq<(String, DSGamepad)>, path: Seq<char>) -> int {
    choose|i: int| 0 <= i < s.len() && s[i].0@ == path
}

/// The registry with a controller recorded under a path, replacing the one
/// recorded there.
pub open spec fn inserted(s: Seq<(String, DSGamepad)>, path: String, g: DSGamepad) -> Seq<
    (String, DSGamepad),
> {
    if has_path(s, path@) {
        s.update(path_index(s, path@), (path, g))
    } else {
        s.push((path, g))
    }
}

/// The registry without the controller recorded under a path.
pub open spec fn removed(s: Seq<(String, DSGamepad)>, path: Seq<char>) -> Seq<(String, DSGamepad)> {
    if has_path(s, path) {
        s.remove(path_index(s, path))
    } else {
        s
    }
}

/// Whether a controller is assigned to no peer.
pub open spec fn is_free(g: DSGamepad) -> bool {
    g.used_by is None
}

/// Whether some controller is free.
pub open spec fn has_free(s: Seq<(String, DSGamepad)>) -> bool {
    exists|i: int| 0 <= i < s.len() && is_free(s[i].1)
}

/// Whether entry `i` is the first free one.
pub open spec fn is_first_free(s: Seq<(String, DSGamepad)>, i: int) -> bool {
    &&& 0 <= i < s.len()
    &&& is_free(s[i].1)
    &&& forall|j: int| 0 <= j < i ==> !is_free(s[j].1)
}

/// The registry after entry `i` was assigned to `peer`.
pub open spec fn assign_at(s: Seq<(String, DSGamepad)>, i: int, peer: PeerAddr) -> Seq<
    (String, DSGamepad),
> {
    s.update(i, (s[i].0, DSGamepad { used_by: Some(peer), ..s[i].1 }))
}

/// A controller with an assignment to `peer` taken back.
pub open spec fn released(g: DSGamepad, peer: PeerAddr) -> DSGamepad {
    if g.used_by == Some(peer) {
        DSGamepad { used_by: None, ..g }
    } else {
        g
    }
}

/// The registry with every assignment to `peer` taken back.
pub open spec fn release_all(s: Seq<(String, DSGamepad)>, peer: PeerAddr) -> Seq<(String, DSGamepad)> {
    s.map_values(|e: (String, DSGamepad)| (e.0, released(e.1, peer)))
}

/// The controllers that are present, keyed by their hot-plug path, in the order
/// in which they arrived.
#[derive(Debug)]
pub struct DeviceRegistry {
    entries: Vec<(String, DSGamepad)>,
}

impl View for DeviceRegistry {
    type V = Seq<(String, DSGamepad)>;

    closed spec fn view(&self) -> Seq<(String, DSGamepad)> {
        self.entries@
    }
}

impl DeviceRegistry {
    /// No two entries share a path.
    pub open spec fn wf(&self) -> bool {
        keys_unique(self@)
    }

    pub fn new() -> (r: DeviceRegistry)
        ensures
            r.wf(),
            r@ == Seq::<(String, DSGamepad)>::empty(),
    {
        DeviceRegistry { entries: Vec::new() }
    }

    pub fn len(&self) -> (r: usize)
        ensures
            r == self@.len(),
    {
        self.entries.len()
    }

    fn position(&self, path: &String) -> (r: Option<usize>)
        ensures
            r is None ==> !has_path(self@, path@),
            r is Some ==> r->Some_0 < self@.len() && self@[r->Some_0 as int].0@ == path@,
    {
        let mut i: usize = 0;
        while i < self.entries.len()
            invariant
                i <= self@.len(),
                forall|j: int| 0 <= j < i ==> self@[j].0@ != path@,
            decreases self@.len() - i,
        {
            if self.entries[i].0 == *path {
                return Some(i);
            }
            i = i + 1;
        }
        None
    }

    /// Records a controller under its path, replacing the one recorded there.
    pub fn insert(&mut self, path: String, gamepad: DSGamepad)
        requires
            old(self).wf(),
        ensures
            final(self).wf(),
            final(self)@ == inserted(old(self)@, path, gamepad),
    {
        match self.position(&path) {
            Some(i) => {
                assert(path_index(self@, path@) == i);
                self.entries.set(i, (path, gamepad));
            },
            None => {
                self.entries.push((path, gamepad));
            },
        }
    }

    /// Forgets the controller recorded under a path, whether assigned or not.
    pub fn remove(&mut self, path: &String)
        requires
            old(self).wf(),
        ensures
            final(self).wf(),
            final(self)@ == removed(old(self)@, path@),
    {
        match self.position(path) {
            Some(i) => {
                assert(path_index(self@, path@) == i);
                self.entries.remove(i);
                proof {
                    assert forall|a: int, b: int| 0 <= a < b < self.entries@.len() implies self.entries@[a].0@
                        != self.entries@[b].0@ by {
                        let oa = if a < i { a } else { a + 1 };
                        let ob = if b < i { b } else { b + 1 };
                        assert(self.entries@[a] == old(self)@[oa]);
                        assert(self.entries@[b] == old(self)@[ob]);
                    }
                }
            },
            None => {},
        }
    }

    /// The assignment of the controller recorded under a path, if one is.
    pub fn assigned_to(&self, path: &String) -> (r: Option<Option<PeerAddr>>)
        requires
            self.wf(),
        ensures
            !has_path(self@, path@) ==> r is None,
            forall|i: int|
                0 <= i < self@.len() && self@[i].0@ == path@ ==> r == Some(self@[i].1.used_by),
    {
        match self.position(path) {
            Some(i) => Some(self.entries[i].1.used_by),
            None => None,
        }
    }

    /// Assigns the first free controller to `peer` and returns its kind and device
    /// file; leaves the registry as it is when none is free.
    pub fn assign_first_free(&mut self, peer: PeerAddr) -> (r: Option<(DSType, String)>)
        requires
            old(self).wf(),
        ensures
            final(self).wf(),
            !has_free(old(self)@) ==> r is None && final(self)@ == old(self)@,
            forall|i: int|
                is_first_free(old(self)@, i) ==> {
                    &&& final(self)@ == assign_at(old(self)@, i, peer)
                    &&& r is Some
                    &&& r->Some_0.0 == old(self)@[i].1.gamepad_type
                    &&& r->Some_0.1@ == old(self)@[i].1.hidraw_path@
                },
    {
        let mut i: usize = 0;
        while i < self.entries.len()
            invariant
                i <= self@.len(),
                self@ == old(self)@,
                self.wf(),
                forall|j: int| 0 <= j < i ==> !is_free(self@[j].1),
            decreases self@.len() - i,
        {
            if self.entries[i].1.used_by.is_none() {
                let ghost before = self@;
                assert(is_free(before[i as int].1));
                let t = self.entries[i].1.gamepad_type;
                let path = self.entries[i].1.hidraw_path.clone();
                self.entries[i].1.used_by = Some(peer);
                assert(self@ =~= assign_at(before, i as int, peer));
                assert forall|a: int, b: int| 0 <= a < b < self@.len() implies self@[a].0@
                    != self@[b].0@ by {
                    assert(self@[a].0 == before[a].0);
                    assert(self@[b].0 == before[b].0);
                }
                assert(forall|k: int| is_first_free(before, k) ==> k == i);
                return Some((t, path));
            }
            i = i + 1;
        }
        None
    }

    /// Takes back every assignment to `peer`.
    pub fn release(&mut self, peer: PeerAddr)
        requires
            old(self).wf(),
        ensures
            final(self).wf(),
            final(self)@ == release_all(old(self)@, peer),
    {
        let ghost start = self@;
        let mut i: usize = 0;
        while i < self.entries.len()
            invariant
                i <= self@.len() == start.len(),
                forall|j: int| 0 <= j < i ==> self@[j] == (start[j].0, released(start[j].1, peer)),
                forall|j: int| i <= j < self@.len() ==> self@[j] == start[j],
            decreases self@.len() - i,
        {
            if self.entries[i].1.used_by == Some(peer) {
                self.entries[i].1.used_by = None;
            }
            i = i + 1;
        }
        assert(self@ =~= release_all(start, peer));
    }
}

/// A hot-plug notification, with what the watcher read of the device.
#[derive(Debug)]
pub enum DeviceEvent {
    /// A raw device appeared: its path, the HID identifier of its HID parent (none
    /// when it has no such parent or property), whether it hangs off a wireless
    /// link, and its device file.
    Add { sysname: String, hid_id: Option<Vec<u8>>, is_bt: bool, devname: Option<String> },
    /// A raw device disappeared.
    Remove { sysname: String },
}

/// The kind that an added device is recorded as, or none when it is ignored.
pub open spec fn added_kind(hid_id: Option<Vec<u8>>, is_bt: bool, devname: Option<String>) -> Option<
    DSType,
> {
    match (hid_id, devname) {
        (Some(h), Some(_)) => hid_variant(h@, is_bt),
        _ => None,
    }
}

/// Applies a hot-plug notification to the registry: a supported controller that
/// appears is recorded as free under its path; whatever disappears is forgotten,
/// assigned or not.
pub fn handle_event(event: DeviceEvent, registry: &mut DeviceRegistry)
    requires
        old(registry).wf(),
    ensures
        final(registry).wf(),
        match event {
            DeviceEvent::Add { sysname, hid_id, is_bt, devname } => match added_kind(
                hid_id,
                is_bt,
                devname,
            ) {
                Some(t) => final(registry)@ == inserted(
                    old(registry)@,
                    sysname,
                    (DSGamepad { gamepad_type: t, hidraw_path: devname->Some_0, used_by: None }),
                ),
                None => final(registry)@ == old(registry)@,
            },
            DeviceEvent::Remove { sysname } => final(registry)@ == removed(old(registry)@, sysname@),
        },
{
    match event {
        DeviceEvent::Add { sysname, hid_id, is_bt, devname } => {
            match (hid_id, devname) {
                (Some(h), Some(d)) => {
                    if let Some(gamepad) = filter_gamepads(h.as_slice(), is_bt, d) {
                        registry.insert(sysname, gamepad);
                    }
                },
                _ => {},
            }
        },
        DeviceEvent::Remove { sysname } => {
            registry.remove(&sysname);
        },
    }
}

} // verus!
