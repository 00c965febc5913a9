//! The memory region catalog taken from the boot descriptor, and the
//! translation between physical and virtual addresses across the kernel
//! image window and the linear window.
use vstd::prelude::*;
use vstd::wrapping::usize_specs::{wrapping_add, wrapping_sub};

verus! {

/// The size of a page, the granule every reservation is rounded to.
pub const PAGE_SIZE: usize = 0x1000;

/// The number of entries each region snapshot can hold; later ones are dropped.
pub const SNAPSHOT_CAPACITY: usize = 32;

/// A `(base, length)` pair.
pub type RawRange = (usize, usize);

/// A fixed-capacity list of ranges.
pub type Snapshot = heapless::Vec<(usize, usize), 32>;

#[verifier::external_type_specification]
#[verifier::external_body]
#[verifier::reject_recursive_types(T)]
pub struct ExHeaplessVec<T, const N: usize>(heapless::Vec<T, N>);

/// The ranges a snapshot holds, in order.
pub uninterp spec fn ranges_of(v: heapless::Vec<(usize, usize), 32>) -> Seq<(usize, usize)>;

/// Relies on heapless::Vec::new: the vector starts empty.
#[verifier::external_body]
fn snapshot_new() -> (r: Snapshot)
    ensures
        ranges_of(r) == Seq::<RawRange>::empty(),
{
    heapless::Vec::new()
}

/// Relies on heapless::Vec::push: the item is appended while the length is
/// under the capacity, and handed back (the vector unchanged) once it is full.
#[verifier::external_body]
fn snapshot_push(v: &mut Snapshot, item: RawRange) -> (r: bool)
    ensures
        ranges_of(*old(v)).len() < SNAPSHOT_CAPACITY ==> r && ranges_of(*final(v)) == ranges_of(
            *old(v),
        ).push(item),
        ranges_of(*old(v)).len() >= SNAPSHOT_CAPACITY ==> !r && ranges_of(*final(v)) == ranges_of(
            *old(v),
        ),
{
    v.push(item).is_ok()
}

/// Relies on heapless::Vec::as_slice: the slice holds the vector's items.
#[verifier::external_body]
fn snapshot_slice(v: &Snapshot) -> (r: &[RawRange])
    ensures
        r@ == ranges_of(*v),
{
    v.as_slice()
}

/// `a` rounded up to a page boundary.
pub open spec fn page_up(a: int) -> int {
    (a + 4095) / 4096 * 4096
}

/// `a` rounded down to a page boundary.
pub open spec fn page_down(a: int) -> int {
    a / 4096 * 4096
}

/// Relies on memory_addr::align_up_4k: the smallest multiple of 4096 not
/// below `addr`; it overflows past the last page.
#[verifier::external_body]
fn align_up_4k(addr: usize) -> (r: usize)
    requires
        addr + 4095 <= usize::MAX,
    ensures
        r as int == page_up(addr as int),
{
    memory_addr::align_up_4k(addr)
}

/// Relies on memory_addr::align_down_4k: the largest multiple of 4096 not
/// above `addr`.
#[verifier::external_body]
fn align_down_4k(addr: usize) -> (r: usize)
    ensures
        r as int == page_down(addr as int),
{
    memory_addr::align_down_4k(addr)
}

/// The kernel's link-time address layout.
#[derive(Clone, Copy, Debug, PartialEq, Eq, Structural)]
pub struct KernelLayout {
    /// Virtual address the kernel image starts at.
    pub kimage_vaddr: usize,
    /// Virtual address of the end of the kernel image.
    pub kernel_end: usize,
    /// Offset of the linear window that maps all physical memory; the kernel
    /// image window ends where it starts.
    pub linear_offset: usize,
}

/// What a boot-reported region is used for.
#[derive(Clone, Copy, Debug, PartialEq, Eq, Structural)]
pub enum RegionKind {
    Ram,
    Reserved,
    Bootloader,
}

/// A boot-reported region `[start, end)`.
#[derive(Clone, Copy, Debug, PartialEq, Eq, Structural)]
pub struct BootRegion {
    pub start: usize,
    pub end: usize,
    pub kind: RegionKind,
}

/// What the boot loader reports about memory.
pub struct BootInfo {
    /// Virtual address the kernel image was loaded at.
    pub kimage_start_vma: usize,
    /// Physical address the kernel image was loaded at.
    pub kimage_start_lma: usize,
    pub memory_regions: Vec<BootRegion>,
    /// Physical base of the debug console's registers, if there is one.
    pub debug_console: Option<usize>,
}

/// Whether a layout and a load offset fit together: the image window
/// `[kimage_vaddr, kernel_end)` lies below the linear window and above the offset.
pub open spec fn layout_fits(layout: KernelLayout, va_offset: usize) -> bool {
    va_offset <= layout.kimage_vaddr <= layout.kernel_end <= layout.linear_offset
}

/// The translation state: the kernel layout and the load offset.
#[derive(Clone, Copy, Debug, PartialEq, Eq, Structural)]
pub struct Translator {
    pub layout: KernelLayout,
    pub va_offset: usize,
}

impl Translator {
    pub open spec fn wf(self) -> bool {
        layout_fits(self.layout, self.va_offset)
    }

    /// Start of the kernel image in physical memory.
    pub open spec fn kimage_phys_start(self) -> int {
        self.layout.kimage_vaddr - self.va_offset
    }

    /// End of the kernel image in physical memory.
    pub open spec fn kimage_phys_end(self) -> int {
        self.layout.kernel_end - self.va_offset
    }

    pub open spec fn in_kimage_phys(self, p: usize) -> bool {
        self.kimage_phys_start() <= p < self.kimage_phys_end()
    }

    pub open spec fn in_kimage_virt(self, v: usize) -> bool {
        self.layout.kimage_vaddr <= v < self.layout.linear_offset
    }

    pub open spec fn phys_to_virt_spec(self, p: usize) -> usize {
        if self.in_kimage_phys(p) {
            wrapping_add(p, self.va_offset)
        } else {
            wrapping_add(p, self.layout.linear_offset)
        }
    }

    pub open spec fn virt_to_phys_spec(self, v: usize) -> usize {
        if self.in_kimage_virt(v) {
            wrapping_sub(v, self.va_offset)
        } else {
            wrapping_sub(v, self.layout.linear_offset)
        }
    }

    /// The translation for a kernel loaded at virtual `vma` and physical `lma`;
    /// `None` when the two do not fit the layout.
    pub fn new(layout: KernelLayout, vma: usize, lma: usize) -> (r: Option<Translator>)
        ensures
            r.is_some() <==> lma <= vma && layout_fits(layout, (vma - lma) as usize),
            r.is_some() ==> r.unwrap().wf() && r.unwrap().layout == layout && r.unwrap().va_offset
                == vma - lma,
    {
        if lma > vma {
            return None;
        }
        let va_offset = vma - lma;
        if va_offset <= layout.kimage_vaddr && layout.kimage_vaddr <= layout.kernel_end
            && layout.kernel_end <= layout.linear_offset {
            Some(Translator { layout, va_offset })
        } else {
            None
        }
    }

    /// The physical range `[start, end)` the kernel image occupies.
    pub fn kimage_range_phys(&self) -> (r: (usize, usize))
        requires
            self.wf(),
        ensures
            r.0 == self.kimage_phys_start(),
            r.1 == self.kimage_phys_end(),
    {
        (self.layout.kimage_vaddr - self.va_offset, self.layout.kernel_end - self.va_offset)
    }

    /// The virtual address of physical `p`: through the image window inside
    /// the kernel image, through the linear window elsewhere.
    pub fn phys_to_virt(&self, p: usize) -> (r: usize)
        requires
            self.wf(),
        ensures
            r == self.phys_to_virt_spec(p),
    {
        let (start, end) = self.kimage_range_phys();
        if start <= p && p < end {
            p.wrapping_add(self.va_offset)
        } else {
            p.wrapping_add(self.layout.linear_offset)
        }
    }

    /// The physical address of virtual `v`: the inverse of `phys_to_virt`.
    pub fn virt_to_phys(&self, v: usize) -> (r: usize)
        requires
            self.wf(),
        ensures
            r == self.virt_to_phys_spec(v),
    {
        if self.layout.kimage_vaddr <= v && v < self.layout.linear_offset {
            v.wrapping_sub(self.va_offset)
        } else {
            v.wrapping_sub(self.layout.linear_offset)
        }
    }
}

/// Translating a physical address to virtual and back gives it back, for
/// every address in the kernel image and every address whose linear-window
/// image does not pass the top of the address space.
pub proof fn lemma_translation_round_trip(t: Translator, p: usize)
    requires
        t.wf(),
        t.in_kimage_phys(p) || p + t.layout.linear_offset <= usize::MAX,
    ensures
        t.virt_to_phys_spec(t.phys_to_virt_spec(p)) == p,
{
}

/// Whether a region is well formed: it does not end before it starts, and a
/// non-empty reservation's end can be rounded up to a page.
pub open spec fn region_ok(r: BootRegion) -> bool {
    r.start <= r.end && (r.kind != RegionKind::Ram && r.start < r.end ==> r.end + 4095
        <= usize::MAX)
}

/// The non-empty RAM entries of `rs`, in order, as `(base, length)`.
pub open spec fn ram_list(rs: Seq<BootRegion>) -> Seq<RawRange>
    decreases rs.len(),
{
    if rs.len() == 0 {
        seq![]
    } else {
        let r = rs.last();
        let prev = ram_list(rs.drop_last());
        if r.kind == RegionKind::Ram && r.start < r.end {
            prev.push((r.start, (r.end - r.start) as usize))
        } else {
            prev
        }
    }
}

/// The non-empty reserved and boot-loader entries of `rs`, in order, each
/// with its end rounded up to a page. An empty region covers nothing, so it
/// reserves nothing.
pub open spec fn reserved_list(rs: Seq<BootRegion>) -> Seq<RawRange>
    decreases rs.len(),
{
    if rs.len() == 0 {
        seq![]
    } else {
        let r = rs.last();
        let prev = reserved_list(rs.drop_last());
        if r.kind != RegionKind::Ram && r.start < r.end {
            prev.push((r.start, (page_up(r.end as int) - r.start) as usize))
        } else {
            prev
        }
    }
}

/// The device window of the debug console: the page that holds its base.
pub open spec fn mmio_list(debug_console: Option<usize>) -> Seq<RawRange> {
    match debug_console {
        Some(base) => seq![(page_down(base as int) as usize, PAGE_SIZE)],
        None => seq![],
    }
}

/// The first `SNAPSHOT_CAPACITY` entries of `s`: what a snapshot keeps.
pub open spec fn capped(s: Seq<RawRange>) -> Seq<RawRange> {
    if s.len() <= SNAPSHOT_CAPACITY {
        s
    } else {
        s.take(SNAPSHOT_CAPACITY as int)
    }
}

proof fn lemma_capped_push(s: Seq<RawRange>, x: RawRange)
    ensures
        capped(s).len() < SNAPSHOT_CAPACITY ==> capped(s.push(x)) == capped(s).push(x),
        capped(s).len() >= SNAPSHOT_CAPACITY ==> capped(s.push(x)) == capped(s),
{
    if capped(s).len() < SNAPSHOT_CAPACITY {
        assert(capped(s.push(x)) =~= capped(s).push(x));
    } else {
        assert(capped(s.push(x)) =~= capped(s));
    }
}

/// The region snapshots and the address translation, fixed at boot.
pub struct MemoryCatalog {
    translator: Translator,
    ram: Snapshot,
    reserved: Snapshot,
    mmio: Snapshot,
}

impl MemoryCatalog {
    pub closed spec fn translator_spec(&self) -> Translator {
        self.translator
    }

    pub closed spec fn ram_spec(&self) -> Seq<RawRange> {
        ranges_of(self.ram)
    }

    pub closed spec fn reserved_spec(&self) -> Seq<RawRange> {
        ranges_of(self.reserved)
    }

    pub closed spec fn mmio_spec(&self) -> Seq<RawRange> {
        ranges_of(self.mmio)
    }

    pub open spec fn wf(&self) -> bool {
        self.translator_spec().wf()
    }

    /// Usable RAM, as reported at boot.
    pub fn phys_ram_ranges(&self) -> (r: &[RawRange])
        ensures
            r@ == self.ram_spec(),
    {
        snapshot_slice(&self.ram)
    }

    /// Reserved memory, each range's end rounded up to a page.
    pub fn reserved_phys_ram_ranges(&self) -> (r: &[RawRange])
        ensures
            r@ == self.reserved_spec(),
    {
        snapshot_slice(&self.reserved)
    }

    /// Device register windows.
    pub fn mmio_ranges(&self) -> (r: &[RawRange])
        ensures
            r@ == self.mmio_spec(),
    {
        snapshot_slice(&self.mmio)
    }

    /// The address translation.
    pub fn translator(&self) -> (r: Translator)
        ensures
            r == self.translator_spec(),
    {
        self.translator
    }

    /// The physical range of the kernel image.
    pub fn kimage_range_phys(&self) -> (r: (usize, usize))
        requires
            self.wf(),
        ensures
            r.0 == self.translator_spec().kimage_phys_start(),
            r.1 == self.translator_spec().kimage_phys_end(),
    {
        self.translator.kimage_range_phys()
    }

    pub fn phys_to_virt(&self, p: usize) -> (r: usize)
        requires
            self.wf(),
        ensures
            r == self.translator_spec().phys_to_virt_spec(p),
    {
        self.translator.phys_to_virt(p)
    }

    pub fn virt_to_phys(&self, v: usize) -> (r: usize)
        requires
            self.wf(),
        ensures
            r == self.translator_spec().virt_to_phys_spec(v),
    {
        self.translator.virt_to_phys(v)
    }
}

/// Builds the catalog from what the boot loader reported.
///
/// RAM entries keep their extent; reserved and boot-loader entries have
/// their end rounded up to a page; the debug console, if any, contributes
/// the page holding its base as a device window. Empty regions contribute
/// nothing. Each snapshot keeps its
/// first `SNAPSHOT_CAPACITY` entries. Fails when the load addresses do not
/// fit the layout or a region is malformed.
pub fn setup(boot: &BootInfo, layout: KernelLayout) -> (r: Option<MemoryCatalog>)
    ensures
        r.is_some() <==> (boot.kimage_start_lma <= boot.kimage_start_vma && layout_fits(
            layout,
            (boot.kimage_start_vma - boot.kimage_start_lma) as usize,
        ) && forall|i: int|
            0 <= i < boot.memory_regions@.len() ==> region_ok(#[trigger] boot.memory_regions@[i])),
        r.is_some() ==> {
            let c = r.unwrap();
            &&& c.wf()
            &&& c.translator_spec().layout == layout
            &&& c.translator_spec().va_offset == boot.kimage_start_vma - boot.kimage_start_lma
            &&& c.ram_spec() == capped(ram_list(boot.memory_regions@))
            &&& c.reserved_spec() == capped(reserved_list(boot.memory_regions@))
            &&& c.mmio_spec() == mmio_list(boot.debug_console)
        },
{
    let translator = match Translator::new(layout, boot.kimage_start_vma, boot.kimage_start_lma) {
        Some(t) => t,
        None => return None,
    };
    let regions = &boot.memory_regions;
    let mut ram = snapshot_new();
    let mut reserved = snapshot_new();
    let mut i: usize = 0;
    while i < regions.len()
        invariant
            i <= regions@.len(),
            regions@ == boot.memory_regions@,
            boot.kimage_start_lma <= boot.kimage_start_vma,
            layout_fits(layout, (boot.kimage_start_vma - boot.kimage_start_lma) as usize),
            translator.wf(),
            translator.layout == layout,
            translator.va_offset == boot.kimage_start_vma - boot.kimage_start_lma,
            forall|j: int| 0 <= j < i ==> region_ok(#[trigger] regions@[j]),
            ranges_of(ram) == capped(ram_list(regions@.take(i as int))),
            ranges_of(reserved) == capped(reserved_list(regions@.take(i as int))),
        decreases regions@.len() - i,
    {
        let region = regions[i];
        if region.end < region.start {
            assert(!region_ok(regions@[i as int]));
            return None;
        }
        proof {
            let rs = regions@.take(i as int + 1);
            assert(rs.drop_last() =~= regions@.take(i as int));
            assert(rs.last() == region);
        }
        if region.start < region.end {
            match region.kind {
                RegionKind::Ram => {
                    proof {
                        lemma_capped_push(ram_list(regions@.take(i as int)), (region.start, (region.end - region.start) as usize));
                    }
                    snapshot_push(&mut ram, (region.start, region.end - region.start));
                },
                _ => {
                    if region.end > usize::MAX - 4095 {
                        assert(!region_ok(regions@[i as int]));
                        return None;
                    }
                    let end = align_up_4k(region.end);
                    proof {
                        lemma_capped_push(reserved_list(regions@.take(i as int)), (region.start, (page_up(region.end as int) - region.start) as usize));
                    }
                    snapshot_push(&mut reserved, (region.start, end - region.start));
                },
            }
        }
        i = i + 1;
    }
    assert(regions@.take(regions@.len() as int) =~= regions@);
    let mut mmio = snapshot_new();
    if let Some(base) = boot.debug_console {
        let start = align_down_4k(base);
        snapshot_push(&mut mmio, (start, PAGE_SIZE));
        assert(ranges_of(mmio) =~= mmio_list(boot.debug_console));
    }
    Some(MemoryCatalog { translator, ram, reserved, mmio })
}

/// A region that starts where it ends adds no entry to either list.
pub proof fn lemma_empty_region_adds_nothing(rs: Seq<BootRegion>, r: BootRegion)
    requires
        r.start == r.end,
    ensures
        ram_list(rs.push(r)) == ram_list(rs),
        reserved_list(rs.push(r)) == reserved_list(rs),
{
    assert(rs.push(r).drop_last() =~= rs);
}

/// A snapshot filled past its capacity keeps the entries it took first, in
/// order and each once, and holds no more than its capacity.
pub proof fn lemma_overflow_keeps_first_entries(s: Seq<RawRange>)
    ensures
        capped(s).len() == if s.len() <= SNAPSHOT_CAPACITY { s.len() } else { SNAPSHOT_CAPACITY as nat },
        forall|i: int| 0 <= i < capped(s).len() ==> #[trigger] capped(s)[i] == s[i],
{
}

} // verus!
