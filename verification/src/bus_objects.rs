//! The device contract, and the bus that routes each access to the device that owns the
//! address.

use crate::bus_objects::device::{Device, DeviceModel, printed_by};
use std::cmp::Ordering;
use vstd::prelude::*;

pub mod device;
pub mod exit;
pub mod memory;
pub mod printer;

verus! {

/// A position in an address space: the half-open range of `size` addresses from `start`.
#[derive(Clone, Copy, Debug)]
pub struct MemoryMapping {
    pub start: u32,
    pub size: u32,
}

impl MemoryMapping {
    /// The first address past the range.
    pub open spec fn end(self) -> int {
        self.start + self.size
    }

    /// Whether `addr` lies in the range.
    pub open spec fn contains(self, addr: u32) -> bool {
        self.start <= addr < self.end()
    }

    /// Whether the two ranges share an address.
    pub open spec fn overlaps(self, other: MemoryMapping) -> bool {
        self.size > 0 && other.size > 0 && self.start < other.end() && other.start < self.end()
    }

    /// Two ranges overlap exactly when some address lies in both.
    pub proof fn overlaps_is_shared_address(self, other: MemoryMapping)
        ensures
            self.overlaps(other) <==> exists|addr: u32|
                self.contains(addr) && other.contains(addr),
    {
        if self.overlaps(other) {
            let addr: u32 = if self.start < other.start {
                other.start
            } else {
                self.start
            };
            assert(self.contains(addr) && other.contains(addr));
        }
    }

    /// Compares two positions by their base addresses, which is the order of the devices
    /// on a bus.
    pub fn cmp(&self, other: &MemoryMapping) -> (r: Ordering)
        ensures
            match r {
                Ordering::Less => self.start < other.start,
                Ordering::Equal => self.start == other.start,
                Ordering::Greater => self.start > other.start,
            },
    {
        if self.start > other.start {
            Ordering::Greater
        } else if self.start < other.start {
            Ordering::Less
        } else {
            Ordering::Equal
        }
    }

    /// Whether `addr` lies in the range.
    pub fn holds(&self, addr: u32) -> (b: bool)
        ensures
            b == self.contains(addr),
    {
        self.start <= addr && addr - self.start < self.size
    }
}

/// A memory-mapped device: it reports where it lies in the address space and serves reads
/// and writes of bytes, half-words and words at addresses relative to its own base.
///
/// The contracts speak of a device through its model, a value that holds the device's
/// state as plain data. A device says which accesses it serves; the others are left out
/// by the `requires` of the six access methods, and `accepts` tests for them.
pub trait BusObject: Sized {
    /// The device's state as the contracts see it.
    type Model;

    /// The state of this device.
    spec fn model(&self) -> Self::Model;

    /// The states that a device of this kind can be in.
    spec fn inv(m: Self::Model) -> bool;

    /// Where the device lies in the address space.
    spec fn spec_mapping(m: Self::Model) -> MemoryMapping;

    /// Whether the device serves an access of `width` bytes at the relative address `addr`.
    spec fn serves(m: Self::Model, addr: u32, width: u32) -> bool;

    /// The byte that a read at `addr` returns.
    spec fn spec_read_byte(m: Self::Model, addr: u32) -> u8;

    /// The half-word that a read at `addr` returns.
    spec fn spec_read_hw(m: Self::Model, addr: u32) -> u16;

    /// The word that a read at `addr` returns.
    spec fn spec_read_w(m: Self::Model, addr: u32) -> u32;

    /// The state after a write of the byte `val` at `addr`.
    spec fn spec_write_byte(m: Self::Model, addr: u32, val: u8) -> Self::Model;

    /// The state after a write of the half-word `val` at `addr`.
    spec fn spec_write_hw(m: Self::Model, addr: u32, val: u16) -> Self::Model;

    /// The state after a write of the word `val` at `addr`.
    spec fn spec_write_w(m: Self::Model, addr: u32, val: u32) -> Self::Model;

    /// A served write of a byte leaves a device of the same kind, at the same position,
    /// that serves the same accesses.
    proof fn write_byte_keeps(m: Self::Model, addr: u32, val: u8)
        requires
            Self::inv(m),
            Self::serves(m, addr, 1),
        ensures
            Self::inv(Self::spec_write_byte(m, addr, val)),
            Self::spec_mapping(Self::spec_write_byte(m, addr, val)) == Self::spec_mapping(m),
            forall|a: u32, w: u32| #[trigger]
                Self::serves(Self::spec_write_byte(m, addr, val), a, w) == Self::serves(m, a, w),
    ;

    /// A served write of a half-word leaves a device of the same kind, at the same
    /// position, that serves the same accesses.
    proof fn write_hw_keeps(m: Self::Model, addr: u32, val: u16)
        requires
            Self::inv(m),
            Self::serves(m, addr, 2),
        ensures
            Self::inv(Self::spec_write_hw(m, addr, val)),
            Self::spec_mapping(Self::spec_write_hw(m, addr, val)) == Self::spec_mapping(m),
            forall|a: u32, w: u32| #[trigger]
                Self::serves(Self::spec_write_hw(m, addr, val), a, w) == Self::serves(m, a, w),
    ;

    /// A served write of a word leaves a device of the same kind, at the same position,
    /// that serves the same accesses.
    proof fn write_w_keeps(m: Self::Model, addr: u32, val: u32)
        requires
            Self::inv(m),
            Self::serves(m, addr, 4),
        ensures
            Self::inv(Self::spec_write_w(m, addr, val)),
            Self::spec_mapping(Self::spec_write_w(m, addr, val)) == Self::spec_mapping(m),
            forall|a: u32, w: u32| #[trigger]
                Self::serves(Self::spec_write_w(m, addr, val), a, w) == Self::serves(m, a, w),
    ;

    fn mapping(&self) -> (r: MemoryMapping)
        requires
            Self::inv(self.model()),
        ensures
            r == Self::spec_mapping(self.model()),
    ;

    /// Whether the device serves an access of `width` bytes at the relative address `addr`.
    fn accepts(&self, addr: u32, width: u32) -> (b: bool)
        requires
            Self::inv(self.model()),
        ensures
            b == Self::serves(self.model(), addr, width),
    ;

    fn read_byte(&self, addr: u32) -> (v: u8)
        requires
            Self::inv(self.model()),
            Self::serves(self.model(), addr, 1),
        ensures
            v == Self::spec_read_byte(self.model(), addr),
    ;

    fn read_hw(&self, addr: u32) -> (v: u16)
        requires
            Self::inv(self.model()),
            Self::serves(self.model(), addr, 2),
        ensures
            v == Self::spec_read_hw(self.model(), addr),
    ;

    fn read_w(&self, addr: u32) -> (v: u32)
        requires
            Self::inv(self.model()),
            Self::serves(self.model(), addr, 4),
        ensures
            v == Self::spec_read_w(self.model(), addr),
    ;

    fn write_byte(&mut self, addr: u32, val: u8)
        requires
            Self::inv(old(self).model()),
            Self::serves(old(self).model(), addr, 1),
        ensures
            final(self).model() == Self::spec_write_byte(old(self).model(), addr, val),
    ;

    fn write_hw(&mut self, addr: u32, val: u16)
        requires
            Self::inv(old(self).model()),
            Self::serves(old(self).model(), addr, 2),
        ensures
            final(self).model() == Self::spec_write_hw(old(self).model(), addr, val),
    ;

    fn write_w(&mut self, addr: u32, val: u32)
        requires
            Self::inv(old(self).model()),
            Self::serves(old(self).model(), addr, 4),
        ensures
            final(self).model() == Self::spec_write_w(old(self).model(), addr, val),
    ;
}

/// The bus: devices at positions that do not overlap, in ascending order of their base
/// addresses, and the position of the bus itself for when it is a device of an outer bus.
pub struct Bus<D: BusObject> {
    bus_objects: Vec<D>,
    pos: MemoryMapping,
}

/// The state of a bus: the states of its devices in the order of the bus, and its own
/// position.
pub struct BusModel<M> {
    pub devices: Seq<M>,
    pub pos: MemoryMapping,
}

/// The states of the devices of `v`, in the same order.
pub open spec fn models_of<D: BusObject>(v: Seq<D>) -> Seq<D::Model> {
    v.map_values(|d: D| d.model())
}

/// The position of each device of `devices`, in the same order.
pub open spec fn mappings_of<D: BusObject>(devices: Seq<D::Model>) -> Seq<MemoryMapping> {
    devices.map_values(|m: D::Model| D::spec_mapping(m))
}

/// Whether two of the positions share an address.
pub open spec fn any_overlap(mappings: Seq<MemoryMapping>) -> bool {
    exists|i: int, j: int|
        0 <= i < mappings.len() && 0 <= j < mappings.len() && i != j && (#[trigger] mappings[i]).overlaps(
            #[trigger] mappings[j],
        )
}

/// Whether the positions are in ascending order of their base addresses.
pub open spec fn ascending(mappings: Seq<MemoryMapping>) -> bool {
    forall|i: int, j: int|
        0 <= i <= j < mappings.len() ==> (#[trigger] mappings[i]).start <= (#[trigger] mappings[j]).start
}

/// The index of the position that holds `addr`, if one does. Where no two positions
/// overlap there is at most one.
pub open spec fn route(mappings: Seq<MemoryMapping>, addr: u32) -> Option<int> {
    if exists|i: int| 0 <= i < mappings.len() && (#[trigger] mappings[i]).contains(addr) {
        Some(choose|i: int| 0 <= i < mappings.len() && (#[trigger] mappings[i]).contains(addr))
    } else {
        None
    }
}

/// Routing finds the one binding that holds the address: where no two positions overlap
/// and position `i` holds `addr`, `route` gives `i`.
pub proof fn route_finds_the_binding(mappings: Seq<MemoryMapping>, i: int, addr: u32)
    requires
        !any_overlap(mappings),
        0 <= i < mappings.len(),
        mappings[i].contains(addr),
    ensures
        route(mappings, addr) == Some(i),
{
    let j = route(mappings, addr)->Some_0;
    if j != i {
        assert(mappings[i].overlaps(mappings[j]));
    }
}

/// Routing fails exactly for the addresses that no position holds.
pub proof fn route_fails_outside(mappings: Seq<MemoryMapping>, addr: u32)
    ensures
        route(mappings, addr) is None <==> forall|i: int|
            0 <= i < mappings.len() ==> !(#[trigger] mappings[i]).contains(addr),
        route(mappings, addr) matches Some(i) ==> 0 <= i < mappings.len()
            && mappings[i].contains(addr),
{
}

/// On a bus every address in the range of a device is routed to that device, at the
/// address relative to its base; an address in no range is routed nowhere.
pub proof fn bus_routes_to_owner<D: BusObject>(m: BusModel<D::Model>, i: int, addr: u32)
    requires
        Bus::<D>::inv(m),
    ensures
        0 <= i < m.devices.len() && D::spec_mapping(m.devices[i]).contains(addr) ==> Bus::<D>::owner(
            m,
            addr,
        ) == Some(i) && Bus::<D>::offset(m, i, addr) == addr - D::spec_mapping(m.devices[i]).start,
        (forall|j: int| 0 <= j < m.devices.len() ==> !D::spec_mapping(#[trigger] m.devices[j]).contains(addr))
            ==> Bus::<D>::owner(m, addr) is None && !Bus::<D>::serves(m, addr, 1) && !Bus::<D>::serves(
            m,
            addr,
            2,
        ) && !Bus::<D>::serves(m, addr, 4),
{
    let mappings = Bus::<D>::mappings(m);
    if 0 <= i < m.devices.len() && D::spec_mapping(m.devices[i]).contains(addr) {
        assert(mappings[i] == D::spec_mapping(m.devices[i]));
        route_finds_the_binding(mappings, i, addr);
    }
    if forall|j: int| 0 <= j < m.devices.len() ==> !D::spec_mapping(#[trigger] m.devices[j]).contains(addr) {
        assert forall|j: int| 0 <= j < mappings.len() implies !(#[trigger] mappings[j]).contains(addr) by {
            assert(mappings[j] == D::spec_mapping(m.devices[j]));
        }
    }
}

impl<M> BusModel<M> {
    /// The state with device `i` replaced by `device`.
    pub open spec fn with_device(self, i: int, device: M) -> BusModel<M> {
        BusModel { devices: self.devices.update(i, device), pos: self.pos }
    }
}

impl<D: BusObject> Bus<D> {
    /// The positions of the devices of the bus.
    pub open spec fn mappings(m: BusModel<D::Model>) -> Seq<MemoryMapping> {
        mappings_of::<D>(m.devices)
    }

    /// The index of the device that owns `addr`, if one does.
    pub open spec fn owner(m: BusModel<D::Model>, addr: u32) -> Option<int> {
        route(Self::mappings(m), addr)
    }

    /// The address `addr` relative to the base of device `i`.
    pub open spec fn offset(m: BusModel<D::Model>, i: int, addr: u32) -> u32 {
        (addr - D::spec_mapping(m.devices[i]).start) as u32
    }

    /// Builds a bus at the position `start`, `size` from the given devices, which may come
    /// in any order; the bus holds them in ascending order of their base addresses. Fails
    /// when two of the devices overlap.
    pub fn new(start: u32, size: u32, bus_objs: Vec<D>) -> (r: Option<Bus<D>>)
        requires
            forall|i: int| 0 <= i < bus_objs.len() ==> D::inv(#[trigger] bus_objs[i].model()),
        ensures
            r is None <==> any_overlap(mappings_of::<D>(models_of(bus_objs@))),
            match r {
                Some(bus) => {
                    &&& Self::inv(bus.model())
                    &&& bus.model().pos == (MemoryMapping { start, size })
                    &&& bus.model().devices.len() == bus_objs.len()
                    &&& bus.model().devices.to_multiset() == models_of(bus_objs@).to_multiset()
                    &&& arranged::<D>(models_of(bus_objs@), bus.model().devices)
                },
                None => true,
            },
    {
        let ghost given = models_of(bus_objs@);
        let (sorted, Ghost(origin), Ghost(place)) = sort_by_start(bus_objs);
        let ghost mappings = mappings_of::<D>(models_of(sorted@));
        let ghost given_mappings = mappings_of::<D>(given);
        let mut end: u64 = 0;
        let ghost mut last: int = 0;
        let mut index: usize = 0;
        while index < sorted.len()
            invariant
                index <= sorted.len(),
                mappings == mappings_of::<D>(models_of(sorted@)),
                ascending(mappings),
                forall|i: int| 0 <= i < sorted.len() ==> D::inv(#[trigger] sorted[i].model()),
                forall|i: int, j: int|
                    0 <= i < index && 0 <= j < index && i != j ==> !(#[trigger] mappings[i]).overlaps(
                        #[trigger] mappings[j],
                    ),
                forall|i: int|
                    0 <= i < index && (#[trigger] mappings[i]).size > 0 ==> mappings[i].end() <= end,
                end > 0 ==> 0 <= last < index && mappings[last].size > 0 && mappings[last].end() == end,
                given == models_of(bus_objs@),
                given_mappings == mappings_of::<D>(given),
                permuted(origin, place, mappings.len()),
                order_kept(mappings, origin),
                given.len() == mappings.len(),
                forall|k: int| 0 <= k < mappings.len() ==> (#[trigger] models_of(sorted@)[k]) == given[origin[k]],
                given_mappings.len() == mappings.len(),
                forall|i: int| 0 <= i < mappings.len() ==> #[trigger] mappings[i] == given_mappings[origin[i]],
            decreases sorted.len() - index,
        {
            assert(sorted[index as int].model() == models_of(sorted@)[index as int]);
            let mapping = sorted[index].mapping();
            assert(mapping == mappings[index as int]);
            if mapping.size > 0 {
                if (mapping.start as u64) < end {
                    proof {
                        assert(mappings[last].overlaps(mappings[index as int]));
                        let i = origin[last];
                        let j = origin[index as int];
                        assert(place[i] == last && place[j] == index);
                        assert(mappings[last] == given_mappings[i]);
                        assert(mappings[index as int] == given_mappings[j]);
                        assert(given_mappings[i].overlaps(given_mappings[j]));
                        assert(any_overlap(given_mappings));
                    }
                    return None;
                }
                end = mapping.start as u64 + mapping.size as u64;
                proof {
                    last = index as int;
                }
            }
            index += 1;
        }
        proof {
            if any_overlap(given_mappings) {
                let (i, j) = choose|i: int, j: int|
                    0 <= i < given_mappings.len() && 0 <= j < given_mappings.len() && i != j && (
                    #[trigger] given_mappings[i]).overlaps(#[trigger] given_mappings[j]);
                assert(mappings[place[i]] == given_mappings[i]);
                assert(mappings[place[j]] == given_mappings[j]);
                assert(mappings[place[i]].overlaps(mappings[place[j]]));
            }
            assert(arranged_by::<D>(given, models_of(sorted@), origin, place));
        }
        Some(Bus { bus_objects: sorted, pos: MemoryMapping { start, size } })
    }

    /// The number of devices on the bus.
    pub fn len(&self) -> (n: usize)
        ensures
            n == self.model().devices.len(),
    {
        self.bus_objects.len()
    }

    /// The device at `index`, in ascending order of base addresses.
    pub fn device(&self, index: usize) -> (d: &D)
        requires
            index < self.model().devices.len(),
        ensures
            d.model() == self.model().devices[index as int],
    {
        &self.bus_objects[index]
    }

    /// The index of the device that owns `addr`, if one does.
    pub fn get_bus_obj_index(&self, addr: u32) -> (r: Option<usize>)
        requires
            Self::inv(self.model()),
        ensures
            match r {
                Some(i) => Self::owner(self.model(), addr) == Some(i as int),
                None => Self::owner(self.model(), addr) is None,
            },
    {
        let ghost mappings = Self::mappings(self.model());
        let mut index: usize = 0;
        while index < self.bus_objects.len()
            invariant
                Self::inv(self.model()),
                mappings == Self::mappings(self.model()),
                index <= self.bus_objects.len(),
                forall|i: int| 0 <= i < index ==> !(#[trigger] mappings[i]).contains(addr),
            decreases self.bus_objects.len() - index,
        {
            assert(self.bus_objects[index as int].model() == self.model().devices[index as int]);
            let mapping = self.bus_objects[index].mapping();
            if mapping.holds(addr) {
                proof {
                    assert(mappings[index as int].contains(addr));
                    route_finds_the_binding(mappings, index as int, addr);
                }
                return Some(index);
            }
            index += 1;
        }
        None
    }

    /// Resolves an address: the index of the device that owns it and the address relative
    /// to the base of that device, or nothing where no device owns it.
    pub fn route(&self, addr: u32) -> (r: Option<(usize, u32)>)
        requires
            Self::inv(self.model()),
        ensures
            match r {
                Some((i, relative)) => Self::owner(self.model(), addr) == Some(i as int)
                    && relative == Self::offset(self.model(), i as int, addr)
                    && relative == addr - Self::mappings(self.model())[i as int].start,
                None => Self::owner(self.model(), addr) is None,
            },
    {
        match self.get_bus_obj_index(addr) {
            Some(index) => {
                let start: u32 = self.bus_objects[index].mapping().start;
                Some((index, addr - start))
            },
            None => None,
        }
    }

    /// The device that owns `addr`, for writing, if one does.
    pub fn get_mut_bus_obj(&mut self, addr: u32) -> (r: Option<&mut D>)
        requires
            Self::inv(old(self).model()),
        ensures
            match r {
                Some(d) => Self::owner(old(self).model(), addr) is Some && d.model()
                    == old(self).model().devices[Self::owner(old(self).model(), addr)->Some_0]
                    && final(self).model().pos == old(self).model().pos
                    && final(self).model().devices =~= old(self).model().devices.update(
                    Self::owner(old(self).model(), addr)->Some_0,
                    final(d).model(),
                ),
                None => Self::owner(old(self).model(), addr) is None && final(self).model() == old(
                    self,
                ).model(),
            },
    {
        match self.get_bus_obj_index(addr) {
            Some(index) => {
                Some(&mut self.bus_objects[index])
            },
            None => None,
        }
    }

    /// The device that owns `addr`, if one does.
    pub fn get_bus_obj(&self, addr: u32) -> (r: Option<&D>)
        requires
            Self::inv(self.model()),
        ensures
            match r {
                Some(d) => Self::owner(self.model(), addr) is Some && d.model()
                    == self.model().devices[Self::owner(self.model(), addr)->Some_0],
                None => Self::owner(self.model(), addr) is None,
            },
    {
        match self.get_bus_obj_index(addr) {
            Some(index) => Some(&self.bus_objects[index]),
            None => None,
        }
    }
}

impl<D: BusObject> BusObject for Bus<D> {
    type Model = BusModel<D::Model>;

    closed spec fn model(&self) -> BusModel<D::Model> {
        BusModel { devices: models_of(self.bus_objects@), pos: self.pos }
    }

    /// Every device is in a state of its kind, the devices are in ascending order of their
    /// base addresses, and no two of them overlap.
    open spec fn inv(m: BusModel<D::Model>) -> bool {
        &&& forall|i: int| 0 <= i < m.devices.len() ==> D::inv(#[trigger] m.devices[i])
        &&& ascending(Self::mappings(m))
        &&& !any_overlap(Self::mappings(m))
    }

    open spec fn spec_mapping(m: BusModel<D::Model>) -> MemoryMapping {
        m.pos
    }

    /// The bus serves what the device that owns `addr` serves at its relative address.
    open spec fn serves(m: BusModel<D::Model>, addr: u32, width: u32) -> bool {
        match Self::owner(m, addr) {
            Some(i) => D::serves(m.devices[i], Self::offset(m, i, addr), width),
            None => false,
        }
    }

    open spec fn spec_read_byte(m: BusModel<D::Model>, addr: u32) -> u8 {
        let i = Self::owner(m, addr)->Some_0;
        D::spec_read_byte(m.devices[i], Self::offset(m, i, addr))
    }

    open spec fn spec_read_hw(m: BusModel<D::Model>, addr: u32) -> u16 {
        let i = Self::owner(m, addr)->Some_0;
        D::spec_read_hw(m.devices[i], Self::offset(m, i, addr))
    }

    open spec fn spec_read_w(m: BusModel<D::Model>, addr: u32) -> u32 {
        let i = Self::owner(m, addr)->Some_0;
        D::spec_read_w(m.devices[i], Self::offset(m, i, addr))
    }

    open spec fn spec_write_byte(m: BusModel<D::Model>, addr: u32, val: u8) -> BusModel<D::Model> {
        let i = Self::owner(m, addr)->Some_0;
        m.with_device(i, D::spec_write_byte(m.devices[i], Self::offset(m, i, addr), val))
    }

    open spec fn spec_write_hw(m: BusModel<D::Model>, addr: u32, val: u16) -> BusModel<D::Model> {
        let i = Self::owner(m, addr)->Some_0;
        m.with_device(i, D::spec_write_hw(m.devices[i], Self::offset(m, i, addr), val))
    }

    open spec fn spec_write_w(m: BusModel<D::Model>, addr: u32, val: u32) -> BusModel<D::Model> {
        let i = Self::owner(m, addr)->Some_0;
        m.with_device(i, D::spec_write_w(m.devices[i], Self::offset(m, i, addr), val))
    }

    proof fn write_byte_keeps(m: BusModel<D::Model>, addr: u32, val: u8) {
        let i = Self::owner(m, addr)->Some_0;
        D::write_byte_keeps(m.devices[i], Self::offset(m, i, addr), val);
        Self::device_change_keeps(m, i, D::spec_write_byte(m.devices[i], Self::offset(m, i, addr), val));
    }

    proof fn write_hw_keeps(m: BusModel<D::Model>, addr: u32, val: u16) {
        let i = Self::owner(m, addr)->Some_0;
        D::write_hw_keeps(m.devices[i], Self::offset(m, i, addr), val);
        Self::device_change_keeps(m, i, D::spec_write_hw(m.devices[i], Self::offset(m, i, addr), val));
    }

    proof fn write_w_keeps(m: BusModel<D::Model>, addr: u32, val: u32) {
        let i = Self::owner(m, addr)->Some_0;
        D::write_w_keeps(m.devices[i], Self::offset(m, i, addr), val);
        Self::device_change_keeps(m, i, D::spec_write_w(m.devices[i], Self::offset(m, i, addr), val));
    }

    fn mapping(&self) -> (r: MemoryMapping) {
        self.pos
    }

    fn accepts(&self, addr: u32, width: u32) -> (b: bool) {
        match self.get_bus_obj_index(addr) {
            Some(index) => {
                let device = &self.bus_objects[index];
                device.accepts(addr - device.mapping().start, width)
            },
            None => false,
        }
    }

    fn read_byte(&self, addr: u32) -> (v: u8) {
        let index: usize = self.get_bus_obj_index(addr).unwrap();
        let device = &self.bus_objects[index];
        device.read_byte(addr - device.mapping().start)
    }

    fn read_hw(&self, addr: u32) -> (v: u16) {
        let index: usize = self.get_bus_obj_index(addr).unwrap();
        let device = &self.bus_objects[index];
        device.read_hw(addr - device.mapping().start)
    }

    fn read_w(&self, addr: u32) -> (v: u32) {
        let index: usize = self.get_bus_obj_index(addr).unwrap();
        let device = &self.bus_objects[index];
        device.read_w(addr - device.mapping().start)
    }

    fn write_byte(&mut self, addr: u32, val: u8) {
        let index: usize = self.get_bus_obj_index(addr).unwrap();
        let start: u32 = self.bus_objects[index].mapping().start;
        self.bus_objects[index].write_byte(addr - start, val);
        assert(final(self).model().devices =~= Self::spec_write_byte(
            old(self).model(),
            addr,
            val,
        ).devices);
    }

    fn write_hw(&mut self, addr: u32, val: u16) {
        let index: usize = self.get_bus_obj_index(addr).unwrap();
        let start: u32 = self.bus_objects[index].mapping().start;
        self.bus_objects[index].write_hw(addr - start, val);
        assert(final(self).model().devices =~= Self::spec_write_hw(
            old(self).model(),
            addr,
            val,
        ).devices);
    }

    fn write_w(&mut self, addr: u32, val: u32) {
        let index: usize = self.get_bus_obj_index(addr).unwrap();
        let start: u32 = self.bus_objects[index].mapping().start;
        self.bus_objects[index].write_w(addr - start, val);
        assert(final(self).model().devices =~= Self::spec_write_w(
            old(self).model(),
            addr,
            val,
        ).devices);
    }
}

impl<D: BusObject> Bus<D> {
    /// Replacing a device by one of its kind at the same position, which serves the same
    /// accesses, leaves a bus that serves the same accesses.
    pub proof fn device_change_keeps(m: BusModel<D::Model>, i: int, device: D::Model)
        requires
            Self::inv(m),
            0 <= i < m.devices.len(),
            D::inv(device),
            D::spec_mapping(device) == D::spec_mapping(m.devices[i]),
            forall|a: u32, w: u32| #[trigger] D::serves(device, a, w) == D::serves(m.devices[i], a, w),
        ensures
            Self::inv(m.with_device(i, device)),
            Self::mappings(m.with_device(i, device)) == Self::mappings(m),
            Self::spec_mapping(m.with_device(i, device)) == Self::spec_mapping(m),
            forall|a: u32, w: u32| #[trigger]
                Self::serves(m.with_device(i, device), a, w) == Self::serves(m, a, w),
    {
        let after = m.with_device(i, device);
        assert(Self::mappings(after) =~= Self::mappings(m));
        assert forall|a: u32, w: u32| #[trigger]
            Self::serves(after, a, w) == Self::serves(m, a, w) by {
            match Self::owner(m, a) {
                Some(j) => {
                    if j == i {
                        assert(D::serves(device, Self::offset(m, i, a), w) == D::serves(
                            m.devices[i],
                            Self::offset(m, i, a),
                            w,
                        ));
                    }
                },
                None => {},
            }
        }
    }
}


impl Bus<Device> {
    /// Hands out the text that the console sinks on the bus have printed, in the order of
    /// the devices, and leaves none behind.
    pub fn take_printed(&mut self) -> (text: Vec<u8>)
        requires
            Self::inv(old(self).model()),
        ensures
            text@ == printed_by(old(self).model().devices),
            final(self).model().pos == old(self).model().pos,
            final(self).model().devices == old(self).model().devices.map_values(
                |d: DeviceModel| d.taken(),
            ),
            Self::inv(final(self).model()),
    {
        let ghost before = self.model().devices;
        let ghost take = |d: DeviceModel| d.taken();
        let mut text: Vec<u8> = Vec::new();
        let mut index: usize = 0;
        proof {
            assert(before.take(0) =~= Seq::<DeviceModel>::empty());
        }
        while index < self.bus_objects.len()
            invariant
                index <= self.bus_objects.len(),
                before.len() == self.bus_objects.len(),
                before == old(self).model().devices,
                take == |d: DeviceModel| d.taken(),
                self.pos == old(self).pos,
                text@ == printed_by(before.take(index as int)),
                forall|i: int| 0 <= i < index ==> (#[trigger] self.model().devices[i]) == take(before[i]),
                forall|i: int| index <= i < before.len() ==> (#[trigger] self.model().devices[i]) == before[i],
            decreases self.bus_objects.len() - index,
        {
            let ghost devices = self.model().devices;
            assert(devices[index as int] == before[index as int]);
            let mut part = self.bus_objects[index].take_printed();
            proof {
                assert(before.take(index + 1).drop_last() =~= before.take(index as int));
                assert(before.take(index + 1).last() == before[index as int]);
                assert(self.model().devices =~= devices.update(index as int, take(before[index as int])));
            }
            text.append(&mut part);
            index += 1;
        }
        proof {
            assert(before.take(index as int) =~= before);
            assert(self.model().devices =~= before.map_values(take));
            Self::taking_keeps_inv(old(self).model());
        }
        text
    }

    /// Taking the printed text leaves every device at its position, serving what it
    /// served.
    pub proof fn taking_keeps_inv(m: BusModel<DeviceModel>)
        requires
            Self::inv(m),
        ensures
            Self::inv(BusModel { devices: m.devices.map_values(|d: DeviceModel| d.taken()), pos: m.pos }),
            Self::mappings(BusModel { devices: m.devices.map_values(|d: DeviceModel| d.taken()), pos: m.pos })
                == Self::mappings(m),
    {
        let after = BusModel { devices: m.devices.map_values(|d: DeviceModel| d.taken()), pos: m.pos };
        assert(Self::mappings(after) =~= Self::mappings(m));
        assert forall|i: int| 0 <= i < after.devices.len() implies Device::inv(#[trigger] after.devices[i]) by {
            assert(Device::inv(m.devices[i]));
        }
    }
}

/// Whether things with the same base address keep their order: `origin` gives for each
/// place in `mappings` the place that the thing had before.
pub open spec fn order_kept(mappings: Seq<MemoryMapping>, origin: Seq<int>) -> bool {
    forall|a: int, b: int|
        0 <= a < b < mappings.len() && (#[trigger] mappings[a]).start == (#[trigger] mappings[b]).start
            ==> origin[a] < origin[b]
}

/// Whether `origin` and `place` say how `devices` is `given` rearranged, devices with the
/// same base address keeping their order.
pub open spec fn arranged_by<D: BusObject>(
    given: Seq<D::Model>,
    devices: Seq<D::Model>,
    origin: Seq<int>,
    place: Seq<int>,
) -> bool {
    &&& devices.len() == given.len()
    &&& permuted(origin, place, given.len())
    &&& forall|k: int| 0 <= k < devices.len() ==> (#[trigger] devices[k]) == given[origin[k]]
    &&& order_kept(mappings_of::<D>(devices), origin)
}

/// Whether `devices` holds the devices of `given` rearranged so that devices with the
/// same base address keep their order. Where `devices` is in ascending order of the base
/// addresses, this says which device stands where.
pub open spec fn arranged<D: BusObject>(given: Seq<D::Model>, devices: Seq<D::Model>) -> bool {
    exists|origin: Seq<int>, place: Seq<int>| #[trigger] arranged_by::<D>(given, devices, origin, place)
}

proof fn lemma_same_origin<D: BusObject>(
    given: Seq<D::Model>,
    a: Seq<D::Model>,
    origin_a: Seq<int>,
    place_a: Seq<int>,
    b: Seq<D::Model>,
    origin_b: Seq<int>,
    place_b: Seq<int>,
    k: int,
)
    requires
        arranged_by::<D>(given, a, origin_a, place_a),
        arranged_by::<D>(given, b, origin_b, place_b),
        ascending(mappings_of::<D>(a)),
        ascending(mappings_of::<D>(b)),
        0 <= k < given.len(),
    ensures
        origin_a[k] == origin_b[k],
    decreases k,
{
    assert forall|j: int| 0 <= j < k implies origin_a[j] == origin_b[j] by {
        lemma_same_origin::<D>(given, a, origin_a, place_a, b, origin_b, place_b, j);
    }
    let x = origin_a[k];
    let y = origin_b[k];
    if x != y {
        let l = place_b[x];
        let m = place_a[y];
        assert(origin_b[l] == x && origin_a[m] == y);
        if l < k {
            assert(origin_a[l] == x);
            assert(place_a[origin_a[l]] == l && place_a[origin_a[k]] == k);
        }
        if m < k {
            assert(origin_b[m] == y);
            assert(place_b[origin_b[m]] == m && place_b[origin_b[k]] == k);
        }
        let starts_a = mappings_of::<D>(a);
        let starts_b = mappings_of::<D>(b);
        assert(starts_a[k] == D::spec_mapping(given[x]) && starts_a[m] == D::spec_mapping(given[y]));
        assert(starts_b[k] == D::spec_mapping(given[y]) && starts_b[l] == D::spec_mapping(given[x]));
        assert(starts_a[k].start <= starts_a[m].start);
        assert(starts_b[k].start <= starts_b[l].start);
    }
}

/// There is one way only to put devices in ascending order of their base addresses while
/// devices with the same base address keep their order.
pub proof fn arrangement_is_unique<D: BusObject>(given: Seq<D::Model>, a: Seq<D::Model>, b: Seq<D::Model>)
    requires
        arranged::<D>(given, a),
        arranged::<D>(given, b),
        ascending(mappings_of::<D>(a)),
        ascending(mappings_of::<D>(b)),
    ensures
        a == b,
{
    let (origin_a, place_a) = choose|origin: Seq<int>, place: Seq<int>| #[trigger]
        arranged_by::<D>(given, a, origin, place);
    let (origin_b, place_b) = choose|origin: Seq<int>, place: Seq<int>| #[trigger]
        arranged_by::<D>(given, b, origin, place);
    assert forall|k: int| 0 <= k < a.len() implies a[k] == b[k] by {
        lemma_same_origin::<D>(given, a, origin_a, place_a, b, origin_b, place_b, k);
    }
    assert(a =~= b);
}

/// Whether `origin` and `place` are two opposite rearrangements of `n` things: each is a
/// sequence of the `n` indices, and each undoes the other.
pub open spec fn permuted(origin: Seq<int>, place: Seq<int>, n: nat) -> bool {
    &&& origin.len() == n
    &&& place.len() == n
    &&& forall|k: int| 0 <= k < n ==> 0 <= #[trigger] origin[k] < n && place[origin[k]] == k
    &&& forall|i: int| 0 <= i < n ==> 0 <= #[trigger] place[i] < n && origin[place[i]] == i
}

/// Sorts the devices by their base addresses; devices with the same base address keep
/// their order. `origin` gives for each place of the result the place that its device had
/// in `v`, and `place` the opposite.
fn sort_by_start<D: BusObject>(v: Vec<D>) -> (r: (Vec<D>, Ghost<Seq<int>>, Ghost<Seq<int>>))
    requires
        forall|i: int| 0 <= i < v.len() ==> D::inv(#[trigger] v[i].model()),
    ensures
        r.0.len() == v.len(),
        forall|i: int| 0 <= i < r.0.len() ==> D::inv(#[trigger] r.0[i].model()),
        ascending(mappings_of::<D>(models_of(r.0@))),
        models_of(r.0@).to_multiset() == models_of(v@).to_multiset(),
        permuted(r.1@, r.2@, v.len() as nat),
        order_kept(mappings_of::<D>(models_of(r.0@)), r.1@),
        forall|k: int| 0 <= k < v.len() ==> (#[trigger] models_of(r.0@)[k]) == models_of(v@)[r.1@[k]],
        forall|k: int|
            0 <= k < v.len() ==> (#[trigger] mappings_of::<D>(models_of(r.0@))[k]) == mappings_of::<D>(
                models_of(v@),
            )[r.1@[k]],
{
    let ghost given = models_of(v@);
    let mut rest = v;
    let mut sorted: Vec<D> = Vec::new();
    let ghost mut origin: Seq<int> = Seq::empty();
    let ghost mut place: Seq<int> = Seq::empty();
    let ghost mut done: int = 0;
    proof {
        assert(models_of(sorted@) =~= Seq::empty());
        assert(models_of(rest@) =~= given.skip(0));
        assert(given.skip(0) =~= given);
        assert(Seq::<D::Model>::empty().to_multiset().add(given.to_multiset()) =~= given.to_multiset()) by {
            broadcast use vstd::seq_lib::group_to_multiset_ensures;
        }
    }
    while rest.len() > 0
        invariant
            done + rest.len() == given.len(),
            sorted.len() == done,
            models_of(rest@) =~= given.skip(done),
            forall|i: int| 0 <= i < rest.len() ==> D::inv(#[trigger] rest[i].model()),
            forall|i: int| 0 <= i < sorted.len() ==> D::inv(#[trigger] sorted[i].model()),
            ascending(mappings_of::<D>(models_of(sorted@))),
            models_of(sorted@).to_multiset().add(models_of(rest@).to_multiset()) == given.to_multiset(),
            permuted(origin, place, done as nat),
            order_kept(mappings_of::<D>(models_of(sorted@)), origin),
            forall|k: int| 0 <= k < done ==> (#[trigger] models_of(sorted@)[k]) == given[origin[k]],
        decreases rest.len(),
    {
        let ghost rest_before = models_of(rest@);
        let ghost sorted_before = models_of(sorted@);
        let device = rest.remove(0);
        proof {
            assert(device.model() == rest_before[0]);
            assert(models_of(rest@) =~= rest_before.remove(0));
            assert(rest_before.remove(0) =~= given.skip(done + 1));
            assert(device.model() == given[done]);
        }
        let start: u32 = device.mapping().start;
        let mut at: usize = 0;
        while at < sorted.len() && sorted[at].mapping().start <= start
            invariant
                at <= sorted.len(),
                forall|i: int| 0 <= i < sorted.len() ==> D::inv(#[trigger] sorted[i].model()),
                sorted_before == models_of(sorted@),
                forall|i: int|
                    0 <= i < at ==> (#[trigger] mappings_of::<D>(sorted_before)[i]).start <= start,
            decreases sorted.len() - at,
        {
            assert(mappings_of::<D>(sorted_before)[at as int] == D::spec_mapping(sorted[at as int].model()));
            at += 1;
        }
        proof {
            if at < sorted.len() {
                assert(mappings_of::<D>(sorted_before)[at as int] == D::spec_mapping(sorted[at as int].model()));
                assert(mappings_of::<D>(sorted_before)[at as int].start > start);
            }
        }
        sorted.insert(at, device);
        proof {
            let before = mappings_of::<D>(sorted_before);
            let after = mappings_of::<D>(models_of(sorted@));
            assert(models_of(sorted@) =~= sorted_before.insert(at as int, device.model()));
            assert(after =~= before.insert(at as int, D::spec_mapping(device.model())));
            assert(ascending(after)) by {
                assert forall|i: int, j: int| 0 <= i <= j < after.len() implies (#[trigger] after[i]).start <= (
                #[trigger] after[j]).start by {
                    if i < at && j > at {
                        assert(after[i] == before[i]);
                        assert(after[j] == before[j - 1]);
                    } else if i < at && j < at {
                        assert(after[i] == before[i]);
                        assert(after[j] == before[j]);
                    } else if i > at {
                        assert(after[i] == before[i - 1]);
                        assert(after[j] == before[j - 1]);
                    } else if i == at && j > at {
                        assert(after[j] == before[j - 1]);
                        assert(before[at as int].start <= before[j - 1].start);
                    } else if i < at && j == at {
                        assert(after[i] == before[i]);
                    }
                }
            }
            assert(models_of(sorted@).to_multiset().add(models_of(rest@).to_multiset()) == given.to_multiset()) by {
                broadcast use vstd::seq_lib::group_to_multiset_ensures;
                let inserted = sorted_before.insert(at as int, device.model());
                assert(inserted.remove(at as int) =~= sorted_before);
                assert(inserted.to_multiset().remove(device.model()) =~= sorted_before.to_multiset());
                assert(inserted[at as int] == device.model());
                assert(inserted.contains(device.model()));
                assert(inserted.to_multiset() =~= sorted_before.to_multiset().insert(device.model()));
                assert(rest_before.remove(0).to_multiset() =~= rest_before.to_multiset().remove(device.model()));
                assert(rest_before.contains(rest_before[0]));
                assert(rest_before.to_multiset() =~= rest_before.remove(0).to_multiset().insert(device.model()));
                assert(inserted.to_multiset().add(rest_before.remove(0).to_multiset()) =~= sorted_before.to_multiset().add(
                    rest_before.to_multiset(),
                ));
            }
            let old_origin = origin;
            let old_place = place;
            origin = old_origin.insert(at as int, done);
            assert(order_kept(after, origin)) by {
                assert forall|a: int, b: int|
                    0 <= a < b < after.len() && (#[trigger] after[a]).start == (#[trigger] after[b]).start implies origin[a]
                    < origin[b] by {
                    if b < at {
                        assert(after[a] == before[a] && after[b] == before[b]);
                    } else if b == at {
                        assert(origin[a] == old_origin[a]);
                    } else if a == at {
                        assert(after[b] == before[b - 1]);
                        assert(before[at as int].start <= before[b - 1].start);
                    } else if a < at {
                        assert(after[a] == before[a] && after[b] == before[b - 1]);
                    } else {
                        assert(after[a] == before[a - 1] && after[b] == before[b - 1]);
                    }
                }
            }
            place = Seq::new(
                (done + 1) as nat,
                |i: int|
                    if i == done {
                        at as int
                    } else if old_place[i] >= at {
                        old_place[i] + 1
                    } else {
                        old_place[i]
                    },
            );
            assert forall|k: int| 0 <= k < done + 1 implies 0 <= #[trigger] origin[k] < done + 1
                && place[origin[k]] == k by {
                if k < at {
                    assert(origin[k] == old_origin[k]);
                } else if k > at {
                    assert(origin[k] == old_origin[k - 1]);
                }
            }
            assert forall|i: int| 0 <= i < done + 1 implies 0 <= #[trigger] place[i] < done + 1
                && origin[place[i]] == i by {
                if i < done {
                    assert(old_origin[old_place[i]] == i);
                }
            }
            assert forall|k: int| 0 <= k < done + 1 implies (#[trigger] models_of(sorted@)[k])
                == given[origin[k]] by {
                if k < at {
                    assert(models_of(sorted@)[k] == sorted_before[k]);
                } else if k > at {
                    assert(models_of(sorted@)[k] == sorted_before[k - 1]);
                }
            }
            done = done + 1;
        }
    }
    proof {
        assert(models_of(rest@) =~= Seq::empty());
        assert(models_of(sorted@).to_multiset().add(Seq::<D::Model>::empty().to_multiset()) =~= models_of(
            sorted@,
        ).to_multiset()) by {
            broadcast use vstd::seq_lib::group_to_multiset_ensures;
        }
        assert(given.skip(0) =~= given);
    }
    (sorted, Ghost(origin), Ghost(place))
}

} // verus!
