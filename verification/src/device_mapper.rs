//! The device mapper: an address-space router that sends every access to the
//! device that owns the address.

use crate::device::{Device, DeviceModel};
use crate::fault::Fault;
use crate::peripheral::Peripheral;
use vstd::prelude::*;
use vstd::wrapping::u64_specs;

verus! {

/// A type of machine word with a zero value.
pub trait BitsOps: Sized {
    /// The zero of the type.
    spec fn spec_zero() -> Self;

    /// Returns the zero of the type.
    fn zero() -> (r: Self)
        ensures
            r == Self::spec_zero(),
    ;
}

impl BitsOps for u8 {
    open spec fn spec_zero() -> u8 {
        0u8
    }

    fn zero() -> (r: u8) {
        0
    }
}

impl BitsOps for u64 {
    open spec fn spec_zero() -> u64 {
        0u64
    }

    fn zero() -> (r: u64) {
        0
    }
}

/// The mathematical state of a region: a device bound to a range of the
/// address space.
pub struct RegionModel {
    pub device: DeviceModel,
    pub name: Seq<char>,
    pub start: u64,
    pub end: u64,
}

impl RegionModel {
    /// Whether the region answers for `addr`. The interval is closed: the
    /// address one past the device's last byte still belongs to the region.
    pub open spec fn contains(self, addr: u64) -> bool {
        self.start <= addr <= self.end
    }

    /// The same binding around another device state.
    pub open spec fn with_device(self, device: DeviceModel) -> RegionModel {
        RegionModel { device, name: self.name, start: self.start, end: self.end }
    }

    /// The region that `map` makes. The end is the start plus the device's
    /// size, reduced to 64 bits.
    pub open spec fn bind(device: DeviceModel, name: Seq<char>, start: u64) -> RegionModel {
        RegionModel {
            device,
            name,
            start,
            end: u64_specs::wrapping_add(start, device.size() as u64),
        }
    }
}

/// The position of the first region from `from` on that answers for `addr`.
pub open spec fn find_from(regions: Seq<RegionModel>, addr: u64, from: int) -> Option<int>
    decreases regions.len() - from,
{
    if from < 0 || from >= regions.len() {
        None
    } else if regions[from].contains(addr) {
        Some(from)
    } else {
        find_from(regions, addr, from + 1)
    }
}

/// The position of the region that owns `addr`: the first one, in priority
/// order, that answers for it.
pub open spec fn owner(regions: Seq<RegionModel>, addr: u64) -> Option<int> {
    find_from(regions, addr, 0)
}

/// The offset of the address within the device of region `i`.
pub open spec fn offset_in(regions: Seq<RegionModel>, i: int, addr: u64) -> u64 {
    (addr - regions[i].start) as u64
}

/// The regions with the device of region `i` replaced.
pub open spec fn with_device_at(regions: Seq<RegionModel>, i: int, device: DeviceModel) -> Seq<
    RegionModel,
> {
    regions.update(i, regions[i].with_device(device))
}

/// The outcome of a byte read through the mapper. An address that no region
/// owns reads as zero.
pub open spec fn mapped_read(regions: Seq<RegionModel>, addr: u64) -> Result<u8, Fault> {
    match owner(regions, addr) {
        Some(i) => regions[i].device.read(offset_in(regions, i, addr)),
        None => Ok(0u8),
    }
}

/// The regions after a byte write through the mapper, and its outcome. A
/// write to an address that no region owns is a fault.
pub open spec fn mapped_write(regions: Seq<RegionModel>, addr: u64, value: u8) -> (
    Seq<RegionModel>,
    Result<(), Fault>,
) {
    match owner(regions, addr) {
        Some(i) => {
            let done = regions[i].device.write(offset_in(regions, i, addr), value);
            (with_device_at(regions, i, done.0), done.1)
        },
        None => (regions, Err(Fault::UnmappedWrite(addr))),
    }
}

/// The outcome of a 64-bit read through the mapper: the device that owns the
/// first address serves the whole access.
pub open spec fn mapped_read64(regions: Seq<RegionModel>, addr: u64) -> Result<u64, Fault> {
    match owner(regions, addr) {
        Some(i) => regions[i].device.read64(offset_in(regions, i, addr)),
        None => Ok(0u64),
    }
}

/// The regions after a 64-bit write through the mapper, and its outcome.
pub open spec fn mapped_write64(regions: Seq<RegionModel>, addr: u64, value: u64) -> (
    Seq<RegionModel>,
    Result<(), Fault>,
) {
    match owner(regions, addr) {
        Some(i) => {
            let done = regions[i].device.write64(offset_in(regions, i, addr), value);
            (with_device_at(regions, i, done.0), done.1)
        },
        None => (regions, Err(Fault::UnmappedWrite(addr))),
    }
}

/// The test that a region passes unless it starts at `start`.
pub open spec fn starts_elsewhere(start: u64) -> spec_fn(RegionModel) -> bool {
    |r: RegionModel| r.start != start
}

/// The pending console output of the first `n` regions, in region order.
pub open spec fn pending_output(regions: Seq<RegionModel>, n: int) -> Seq<u8>
    decreases n,
{
    if n <= 0 || n > regions.len() {
        Seq::empty()
    } else {
        pending_output(regions, n - 1) + regions[n - 1].device.pending()
    }
}

/// The regions once the pending output of the first `n` has been handed out.
pub open spec fn drained_upto(regions: Seq<RegionModel>, n: int) -> Seq<RegionModel> {
    Seq::new(
        regions.len(),
        |i: int|
            if i < n {
                regions[i].with_device(regions[i].device.drained())
            } else {
                regions[i]
            },
    )
}

/// The owner of an address is the first region that answers for it.
pub proof fn lemma_owner_is_first(regions: Seq<RegionModel>, addr: u64, from: int)
    requires
        0 <= from,
    ensures
        match find_from(regions, addr, from) {
            Some(i) => from <= i < regions.len() && regions[i].contains(addr) && forall|j: int|
                from <= j < i ==> !(#[trigger] regions[j]).contains(addr),
            None => forall|j: int|
                from <= j < regions.len() ==> !(#[trigger] regions[j]).contains(addr),
        },
    decreases regions.len() - from,
{
    if from < regions.len() && !regions[from].contains(addr) {
        lemma_owner_is_first(regions, addr, from + 1);
    }
}

/// Replacing the device of a region changes the owner of no address.
pub proof fn lemma_owner_unchanged(
    regions: Seq<RegionModel>,
    i: int,
    device: DeviceModel,
    addr: u64,
    from: int,
)
    requires
        0 <= i < regions.len(),
        0 <= from,
    ensures
        find_from(with_device_at(regions, i, device), addr, from) == find_from(regions, addr, from),
    decreases regions.len() - from,
{
    if from < regions.len() {
        lemma_owner_unchanged(regions, i, device, addr, from + 1);
    }
}

/// A device bound to a range of the address space.
pub struct Region {
    device: Peripheral,
    dev_name: String,
    start: u64,
    end: u64,
}

impl View for Region {
    type V = RegionModel;

    closed spec fn view(&self) -> RegionModel {
        RegionModel {
            device: self.device.model(),
            name: self.dev_name@,
            start: self.start,
            end: self.end,
        }
    }
}

impl Region {
    /// Binds a device at `start_addr`; the end address is fixed here.
    pub fn new(device: Peripheral, dev_name: String, start_addr: u64) -> (r: Self)
        ensures
            r@ == RegionModel::bind(device.model(), dev_name@, start_addr),
    {
        let size = device.size();
        let end_addr = start_addr.wrapping_add(size as u64);
        Self { device, dev_name, start: start_addr, end: end_addr }
    }

    /// The name under which the device was mapped.
    pub fn name(&self) -> (r: &String)
        ensures
            r@ == self@.name,
    {
        &self.dev_name
    }

    /// The first address of the region.
    pub fn start(&self) -> (r: u64)
        ensures
            r == self@.start,
    {
        self.start
    }

    /// The last address that the region answers for.
    pub fn end(&self) -> (r: u64)
        ensures
            r == self@.end,
    {
        self.end
    }

    /// Whether the region answers for `addr`.
    pub fn check_addr(&self, addr: u64) -> (r: bool)
        ensures
            r == self@.contains(addr),
    {
        addr >= self.start && addr <= self.end
    }
}

/// An ordered collection of regions; the region mapped last comes first.
pub struct DeviceMapper {
    regions: Vec<Region>,
}

/// The mathematical states of a sequence of regions.
pub closed spec fn models(regions: Seq<Region>) -> Seq<RegionModel> {
    Seq::new(regions.len(), |i: int| regions[i]@)
}

impl View for DeviceMapper {
    type V = Seq<RegionModel>;

    closed spec fn view(&self) -> Seq<RegionModel> {
        models(self.regions@)
    }
}

impl DeviceMapper {
    /// A mapper with no regions.
    pub fn new() -> (r: Self)
        ensures
            r@ == Seq::<RegionModel>::empty(),
    {
        let r = Self { regions: Vec::new() };
        assert(r@ =~= Seq::<RegionModel>::empty());
        r
    }

    /// Binds a device at `start`, ahead of every region mapped before.
    pub fn map(&mut self, device: Peripheral, dev_name: String, start: u64)
        ensures
            final(self)@ == seq![RegionModel::bind(device.model(), dev_name@, start)] + old(self)@,
    {
        let region = Region::new(device, dev_name, start);
        self.regions.insert(0, region);
        assert(self@ =~= seq![region@] + old(self)@);
    }

    /// Removes every region that starts at `start`.
    pub fn unmap(&mut self, start: u64)
        ensures
            final(self)@ == old(self)@.filter(starts_elsewhere(start)),
    {
        let ghost keep = starts_elsewhere(start);
        let mut kept: Vec<Region> = Vec::new();
        let ghost mut k: int = 0;
        proof {
            reveal(Seq::filter);
            assert(old(self)@.take(0) =~= Seq::<RegionModel>::empty());
        }
        while self.regions.len() > 0
            invariant
                0 <= k <= old(self)@.len(),
                keep == starts_elsewhere(start),
                self.regions@.len() == old(self)@.len() - k,
                self@ == old(self)@.skip(k),
                models(kept@) == old(self)@.take(k).filter(keep),
            decreases self.regions.len(),
        {
            let ghost before = self@;
            let ghost kept_before = models(kept@);
            let region = self.regions.remove(0);
            proof {
                reveal(Seq::filter);
                assert(region@ == before[0]);
                assert(before[0] == old(self)@.skip(k)[0]);
                assert(old(self)@.take(k + 1).drop_last() =~= old(self)@.take(k));
                assert(old(self)@.take(k + 1).last() == old(self)@[k]);
                assert forall|j: int| 0 <= j < self@.len() implies self@[j] == old(self)@.skip(
                    k + 1,
                )[j] by {
                    assert(self@[j] == before[j + 1]);
                }
                assert(self@ =~= old(self)@.skip(k + 1));
            }
            if region.start != start {
                kept.push(region);
                assert(models(kept@) =~= kept_before.push(region@));
            }
            proof {
                reveal(Seq::filter);
                let upto = old(self)@.take(k + 1);
                assert(upto.drop_last() == old(self)@.take(k));
                assert(upto.last() == region@);
                assert(keep(region@) == (region@.start != start));
                assert(models(kept@) == upto.filter(keep));
            }
            proof {
                k = k + 1;
            }
        }
        assert(old(self)@.take(k) =~= old(self)@);
        self.regions = kept;
        assert(self@ =~= models(kept@));
    }

    /// The name, start and end of every region, in priority order.
    pub fn dump(&self) -> (r: Vec<(String, u64, u64)>)
        ensures
            r@.len() == self@.len(),
            forall|i: int|
                0 <= i < r@.len() ==> (#[trigger] r@[i]).0@ == self@[i].name && r@[i].1
                    == self@[i].start && r@[i].2 == self@[i].end,
    {
        let mut out: Vec<(String, u64, u64)> = Vec::new();
        let mut i: usize = 0;
        while i < self.regions.len()
            invariant
                i <= self.regions@.len(),
                out@.len() == i,
                forall|j: int|
                    0 <= j < i ==> (#[trigger] out@[j]).0@ == self@[j].name && out@[j].1
                        == self@[j].start && out@[j].2 == self@[j].end,
            decreases self.regions@.len() - i,
        {
            let region = &self.regions[i];
            out.push((region.dev_name.clone(), region.start, region.end));
            i = i + 1;
        }
        out
    }

    /// The position of the region that owns `addr`.
    fn region_index(&self, addr: u64) -> (r: Option<usize>)
        ensures
            match r {
                Some(i) => owner(self@, addr) == Some(i as int) && i < self.regions@.len()
                    && self@[i as int].contains(addr),
                None => owner(self@, addr) is None,
            },
    {
        let mut i: usize = 0;
        while i < self.regions.len()
            invariant
                i <= self.regions@.len(),
                find_from(self@, addr, 0) == find_from(self@, addr, i as int),
            decreases self.regions@.len() - i,
        {
            if self.regions[i].check_addr(addr) {
                return Some(i);
            }
            i = i + 1;
        }
        None
    }

    /// The region that owns `addr`.
    pub fn find_region(&self, addr: u64) -> (r: Option<&Region>)
        ensures
            match r {
                Some(region) => owner(self@, addr) is Some && region@ == self@[owner(
                    self@,
                    addr,
                )->0] && region@.contains(addr),
                None => owner(self@, addr) is None,
            },
    {
        match self.region_index(addr) {
            Some(i) => Some(&self.regions[i]),
            None => None,
        }
    }

    /// The region that owns `addr`, for writing. What is done to the region
    /// is done to the mapper, at the region's place.
    pub fn find_region_mut(&mut self, addr: u64) -> (r: Option<&mut Region>)
        ensures
            match r {
                Some(region) => owner(old(self)@, addr) is Some && region@ == old(self)@[owner(
                    old(self)@,
                    addr,
                )->0] && region@.contains(addr) && final(self)@ == old(self)@.update(
                    owner(old(self)@, addr)->0,
                    final(region)@,
                ),
                None => owner(old(self)@, addr) is None && final(self)@ == old(self)@,
            },
    {
        match self.region_index(addr) {
            Some(i) => {
                let region = &mut self.regions[i];
                proof {
                    assert(models(old(self).regions@.update(i as int, *final(region)))
                        =~= old(self)@.update(i as int, final(region)@));
                }
                Some(region)
            },
            None => None,
        }
    }

    /// Reads the byte at `addr`.
    pub fn read(&self, addr: u64) -> (r: Result<u8, Fault>)
        ensures
            r == mapped_read(self@, addr),
    {
        match self.find_region(addr) {
            Some(region) => region.device.read(addr - region.start),
            None => Ok(u8::zero()),
        }
    }

    /// Writes the byte `value` at `addr`.
    pub fn write(&mut self, addr: u64, value: u8) -> (r: Result<(), Fault>)
        ensures
            final(self)@ == mapped_write(old(self)@, addr, value).0,
            r == mapped_write(old(self)@, addr, value).1,
    {
        match self.find_region_mut(addr) {
            Some(region) => {
                let offset = addr - region.start;
                region.device.write(offset, value)
            },
            None => Err(Fault::UnmappedWrite(addr)),
        }
    }

    /// Reads the 64-bit word at `addr`.
    pub fn read64(&self, addr: u64) -> (r: Result<u64, Fault>)
        ensures
            r == mapped_read64(self@, addr),
    {
        match self.find_region(addr) {
            Some(region) => region.device.read64(addr - region.start),
            None => Ok(u64::zero()),
        }
    }

    /// Writes the 64-bit word `value` at `addr`.
    pub fn write64(&mut self, addr: u64, value: u64) -> (r: Result<(), Fault>)
        ensures
            final(self)@ == mapped_write64(old(self)@, addr, value).0,
            r == mapped_write64(old(self)@, addr, value).1,
    {
        match self.find_region_mut(addr) {
            Some(region) => {
                let offset = addr - region.start;
                region.device.write64(offset, value)
            },
            None => Err(Fault::UnmappedWrite(addr)),
        }
    }

    /// Hands out what the consoles have emitted since the last call, region
    /// by region in priority order, and forgets it.
    pub fn take_output(&mut self) -> (out: Vec<u8>)
        ensures
            out@ == pending_output(old(self)@, old(self)@.len() as int),
            final(self)@ == drained_upto(old(self)@, old(self)@.len() as int),
    {
        let mut out: Vec<u8> = Vec::new();
        let mut i: usize = 0;
        assert(self@ =~= drained_upto(old(self)@, 0));
        while i < self.regions.len()
            invariant
                i <= self.regions@.len(),
                self.regions@.len() == old(self)@.len(),
                out@ == pending_output(old(self)@, i as int),
                self@ == drained_upto(old(self)@, i as int),
            decreases self.regions@.len() - i,
        {
            let ghost before = self@;
            assert(before[i as int] == old(self)@[i as int]);
            let region = &mut self.regions[i];
            let mut part = region.device.take_output();
            out.append(&mut part);
            proof {
                assert forall|j: int| 0 <= j < self@.len() implies self@[j] == drained_upto(
                    old(self)@,
                    i + 1,
                )[j] by {
                    if j != i {
                        assert(self@[j] == before[j]);
                    }
                }
                assert(self@ =~= drained_upto(old(self)@, i + 1));
            }
            i = i + 1;
        }
        out
    }
}

} // verus!
