//! Bringing the heap region online: the pages that cover it, and the
//! decisions of the loop that maps them one by one before the allocator may
//! use the region.
//!
//! The caller owns the frame supplier and the page-table mapper. It asks
//! `next_action` what to do, does it, and reports what happened with
//! `record`. A failure is final: pages mapped before it stay mapped.
use vstd::prelude::*;

verus! {

/// Virtual address of the first byte of the heap.
pub const HEAP_START: u64 = 0x_4444_4444_0000;

/// Bytes in the heap.
pub const HEAP_SIZE: u64 = 100 * 1024;

/// Bytes in a page.
pub const PAGE_SIZE: u64 = 4096;

/// Bits 47 to 63 of `addr` are all clear or all set.
pub open spec fn is_canonical(addr: u64) -> bool {
    addr < 0x8000_0000_0000 || addr >= 0xffff_8000_0000_0000
}

/// The start of the page that holds `addr`.
pub open spec fn page_of(addr: int) -> int {
    addr - addr % 4096
}

/// `[start, start + size)` is a nonempty range of canonical addresses.
pub open spec fn valid_region(start: u64, size: u64) -> bool {
    &&& size > 0
    &&& start + size <= u64::MAX
    &&& is_canonical(start)
    &&& is_canonical((start + size - 1) as u64)
}

/// Relies on x86_64's `VirtAddr::new` and `Page::<Size4KiB>::containing_address`:
/// a canonical address is kept as it is, and its page starts at the address
/// with its low 12 bits cleared.
#[verifier::external_body]
fn page_containing(addr: u64) -> (r: u64)
    requires
        is_canonical(addr),
    ensures
        r == page_of(addr as int),
{
    let page = x86_64::structures::paging::Page::<x86_64::structures::paging::Size4KiB>::containing_address(
        x86_64::VirtAddr::new(addr),
    );
    page.start_address().as_u64()
}

/// The first and the last page that the region `[start, start + size)`
/// touches.
pub fn page_range(start: u64, size: u64) -> (r: (u64, u64))
    requires
        valid_region(start, size),
    ensures
        r.0 == page_of(start as int),
        r.1 == page_of(start + size - 1),
{
    let first = page_containing(start);
    let last = page_containing((start + (size - 1)) as u64);
    (first, last)
}

/// Why bringing the heap online stopped.
#[derive(Clone, Copy, Debug, PartialEq, Eq, Structural)]
pub enum InitError {
    /// The frame supplier had no frame left.
    FrameAllocationFailed,
    /// The mapper refused to install a page.
    MappingFailed,
}

/// What the caller is to do next.
#[derive(Clone, Copy, Debug, PartialEq, Eq, Structural)]
pub enum InitAction {
    /// Take a frame and map the page starting at `page` to it, present and
    /// writable, then flush that page's cached translation.
    MapPage { page: u64 },
    /// Every page is mapped: hand `[start, start + size)` to the allocator.
    InitAllocator { start: u64, size: u64 },
    /// Stop with this error.
    Abort(InitError),
}

/// What came of a `MapPage` action.
#[derive(Clone, Copy, Debug, PartialEq, Eq, Structural)]
pub enum PageEvent {
    /// The page is mapped and flushed.
    Mapped,
    /// No frame was available.
    NoFrame,
    /// The mapper refused the page.
    MapFailed,
}

/// The abstract state of bringing a region online.
pub struct InitState {
    pub start: nat,
    pub size: nat,
    /// Start of the first page of the region.
    pub first_page: nat,
    /// Pages that the region touches.
    pub pages: nat,
    /// Pages mapped so far, in order from the first.
    pub mapped: nat,
    pub failure: Option<InitError>,
}

impl InitState {
    /// Start of the `k`-th page of the region.
    pub open spec fn page(self, k: nat) -> nat {
        self.first_page + k * 4096
    }

    pub open spec fn action(self) -> InitAction {
        match self.failure {
            Some(e) => InitAction::Abort(e),
            None => if self.mapped < self.pages {
                InitAction::MapPage { page: self.page(self.mapped) as u64 }
            } else {
                InitAction::InitAllocator { start: self.start as u64, size: self.size as u64 }
            },
        }
    }

    /// Whether a page is being mapped, so that an event is awaited.
    pub open spec fn awaiting_page(self) -> bool {
        self.failure is None && self.mapped < self.pages
    }

    pub open spec fn after(self, event: PageEvent) -> InitState {
        if !self.awaiting_page() {
            self
        } else {
            match event {
                PageEvent::Mapped => InitState { mapped: self.mapped + 1, ..self },
                PageEvent::NoFrame => InitState {
                    failure: Some(InitError::FrameAllocationFailed),
                    ..self
                },
                PageEvent::MapFailed => InitState {
                    failure: Some(InitError::MappingFailed),
                    ..self
                },
            }
        }
    }
}

/// The pages of a plan cover its region: every address of the region lies
/// in one of them.
pub proof fn lemma_pages_cover(s: InitState, addr: int)
    requires
        s.first_page == page_of(s.start as int),
        s.pages > 0,
        s.page((s.pages - 1) as nat) == page_of(s.start + s.size - 1),
        s.start <= addr < s.start + s.size,
    ensures
        ({
            let k = (page_of(addr) - s.first_page) / 4096;
            &&& 0 <= k < s.pages
            &&& s.page(k as nat) == page_of(addr)
        }),
{
    let k = (page_of(addr) - s.first_page) / 4096;
    let last = s.start + s.size - 1;
    assert(0 <= k < s.pages && s.first_page + k * 4096 == page_of(addr)) by (nonlinear_arith)
        requires
            s.first_page == page_of(s.start as int),
            s.first_page + (s.pages - 1) * 4096 == page_of(last),
            s.start <= addr <= last,
            k == (page_of(addr) - s.first_page) / 4096,
            s.pages > 0,
    ;
}

/// The decisions of bringing one region online.
pub struct HeapInit {
    start: u64,
    size: u64,
    first_page: u64,
    pages: u64,
    mapped: u64,
    failure: Option<InitError>,
}

impl View for HeapInit {
    type V = InitState;

    closed spec fn view(&self) -> InitState {
        InitState {
            start: self.start as nat,
            size: self.size as nat,
            first_page: self.first_page as nat,
            pages: self.pages as nat,
            mapped: self.mapped as nat,
            failure: self.failure,
        }
    }
}

impl HeapInit {
    #[verifier::type_invariant]
    spec fn inv(self) -> bool {
        &&& self.mapped <= self.pages
        &&& self.first_page + (self.pages - 1) * 4096 <= u64::MAX
        &&& self.pages > 0
    }

    /// The plan for the region `[start, start + size)`: no page mapped yet,
    /// and as many pages as lie from the first page it touches to the last.
    pub fn new(start: u64, size: u64) -> (r: HeapInit)
        requires
            valid_region(start, size),
        ensures
            r@.start == start,
            r@.size == size,
            r@.first_page == page_of(start as int),
            r@.page((r@.pages - 1) as nat) == page_of(start + size - 1),
            r@.pages > 0,
            r@.mapped == 0,
            r@.failure is None,
    {
        let (first_page, last_page) = page_range(start, size);
        let pages = (last_page - first_page) / PAGE_SIZE + 1;
        assert((first_page as int) % 4096 == 0 && (last_page as int) % 4096 == 0
            && first_page <= last_page) by (nonlinear_arith)
            requires
                first_page == page_of(start as int),
                last_page == page_of(start + size - 1),
                start <= start + size - 1,
        ;
        assert(first_page + (pages - 1) * 4096 == last_page) by (nonlinear_arith)
            requires
                (first_page as int) % 4096 == 0,
                (last_page as int) % 4096 == 0,
                first_page <= last_page,
                pages == (last_page - first_page) / 4096 + 1,
        ;
        HeapInit { start, size, first_page, pages, mapped: 0, failure: None }
    }

    /// What the caller is to do next.
    pub fn next_action(&self) -> (r: InitAction)
        ensures
            r == self@.action(),
    {
        proof {
            use_type_invariant(self);
        }
        match self.failure {
            Some(e) => InitAction::Abort(e),
            None => if self.mapped < self.pages {
                assert(self.first_page + self.mapped * 4096 <= u64::MAX) by (nonlinear_arith)
                    requires
                        self.mapped < self.pages,
                        self.first_page + (self.pages - 1) * 4096 <= u64::MAX,
                ;
                InitAction::MapPage { page: self.first_page + self.mapped * PAGE_SIZE }
            } else {
                InitAction::InitAllocator { start: self.start, size: self.size }
            },
        }
    }

    /// Takes in what came of the page being mapped; ignored where no page is.
    pub fn record(&mut self, event: PageEvent)
        ensures
            final(self)@ == old(self)@.after(event),
    {
        proof {
            use_type_invariant(&*self);
        }
        if self.failure.is_none() && self.mapped < self.pages {
            match event {
                PageEvent::Mapped => {
                    self.mapped = self.mapped + 1;
                },
                PageEvent::NoFrame => {
                    self.failure = Some(InitError::FrameAllocationFailed);
                },
                PageEvent::MapFailed => {
                    self.failure = Some(InitError::MappingFailed);
                },
            }
        }
    }
}

} // verus!
