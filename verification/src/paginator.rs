//! Paging of a listing: how many pages it fills, which page is shown, and
//! which slice of the listing a page holds.

use vstd::prelude::*;

verus! {

/// Columns of the grid in which a page of entries is shown.
pub const COLS: usize = 5;

/// Rows of the grid in which a page of entries is shown.
pub const ROWS: usize = 8;

/// Entries on one page of the grid: one for each cell.
pub const PER_PAGE: usize = COLS * ROWS;

/// `n / c`, rounded up.
pub open spec fn ceil_div(n: nat, c: nat) -> nat
    recommends
        c > 0,
{
    if n % c == 0 {
        n / c
    } else {
        n / c + 1
    }
}

/// Pages that `len` entries fill with `capacity` entries to the page: the
/// quotient rounded up, and still one page where there is nothing to show.
pub open spec fn page_count(len: nat, capacity: nat) -> nat
    recommends
        capacity > 0,
{
    if ceil_div(len, capacity) < 1 {
        1
    } else {
        ceil_div(len, capacity)
    }
}

/// A step from one page to a neighbour.
#[derive(Clone, Copy, Debug, PartialEq, Eq, Structural)]
pub enum PageMove {
    Next,
    Prev,
}

/// What a `Paginator` stands for: a listing's length, the page capacity, and
/// the page shown, counted from 1.
pub struct Pages {
    pub len: nat,
    pub capacity: nat,
    pub current: nat,
}

impl Pages {
    /// Number of pages.
    pub open spec fn count(self) -> nat {
        page_count(self.len, self.capacity)
    }

    /// The capacity is positive and the current page is one of the pages.
    pub open spec fn wf(self) -> bool {
        &&& self.capacity > 0
        &&& 1 <= self.current <= self.count()
    }

    /// The first page of a listing of `len` entries.
    pub open spec fn first(len: nat, capacity: nat) -> Pages {
        Pages { len, capacity, current: 1 }
    }

    /// One page on, unless the last page is shown.
    pub open spec fn next(self) -> Pages {
        if self.current < self.count() {
            Pages { current: self.current + 1, ..self }
        } else {
            self
        }
    }

    /// One page back, unless the first page is shown.
    pub open spec fn prev(self) -> Pages {
        if self.current > 1 {
            Pages { current: (self.current - 1) as nat, ..self }
        } else {
            self
        }
    }

    /// One step in the direction given.
    pub open spec fn moved(self, step: PageMove) -> Pages {
        match step {
            PageMove::Next => self.next(),
            PageMove::Prev => self.prev(),
        }
    }

    /// The steps of `steps` taken in order.
    pub open spec fn walked(self, steps: Seq<PageMove>) -> Pages
        decreases steps.len(),
    {
        if steps.len() == 0 {
            self
        } else {
            self.walked(steps.drop_last()).moved(steps.last())
        }
    }

    /// Index in the listing of the first entry on the current page.
    pub open spec fn start(self) -> nat {
        ((self.current - 1) * self.capacity) as nat
    }

    /// Index in the listing one past the last entry on the current page.
    pub open spec fn end(self) -> nat {
        if self.current * self.capacity <= self.len {
            self.current * self.capacity
        } else {
            self.len
        }
    }

    /// Whether the entry at `index` is on the current page.
    pub open spec fn shows(self, index: nat) -> bool {
        self.start() <= index < self.end()
    }
}

/// The page count is the least number of pages that hold `len` entries, and
/// never less than one: all but the last page are full, and the last is not
/// empty unless the listing is.
pub proof fn lemma_page_count_bounds(len: nat, capacity: nat)
    requires
        capacity > 0,
    ensures
        page_count(len, capacity) >= 1,
        len <= page_count(len, capacity) * capacity,
        len > 0 ==> (page_count(len, capacity) - 1) * capacity < len,
        len == 0 ==> page_count(len, capacity) == 1,
{
    let q = len / capacity;
    let r = len % capacity;
    assert(len == q * capacity + r && 0 <= r < capacity) by (nonlinear_arith)
        requires
            capacity > 0,
            q == len / capacity,
            r == len % capacity,
    ;
    assert((q + 1) * capacity == q * capacity + capacity) by (nonlinear_arith);
    assert((q - 1) * capacity == q * capacity - capacity) by (nonlinear_arith);
    if len > 0 && r == 0 {
        assert(q >= 1) by (nonlinear_arith)
            requires
                len == q * capacity,
                len > 0,
                capacity > 0,
                q >= 0,
        ;
    }
}

/// Whatever steps are taken from a well-formed state, the current page stays
/// one of the pages, and the listing and its page count stay what they were.
pub proof fn lemma_walk_stays_in_range(pages: Pages, steps: Seq<PageMove>)
    requires
        pages.wf(),
    ensures
        pages.walked(steps).wf(),
        1 <= pages.walked(steps).current <= pages.count(),
        pages.walked(steps).len == pages.len,
        pages.walked(steps).capacity == pages.capacity,
    decreases steps.len(),
{
    if steps.len() > 0 {
        lemma_walk_stays_in_range(pages, steps.drop_last());
    }
}

/// Going back from the first page, or on from the last, changes nothing.
pub proof fn lemma_moves_stop_at_the_ends(pages: Pages)
    requires
        pages.wf(),
    ensures
        pages.current == 1 ==> pages.prev() == pages,
        pages.current == pages.count() ==> pages.next() == pages,
{
}

/// Multiplying by a capacity: one factor more or less adds or takes one
/// capacity, and the product grows with the factor.
proof fn lemma_capacity_multiples(k: int, n: int, c: int)
    by (nonlinear_arith)
    requires
        c > 0,
    ensures
        (k - 1) * c == k * c - c,
        0 * c == 0,
        k >= 0 ==> k * c >= 0,
        k <= n ==> k * c <= n * c,
{
}

/// The pages cut the listing into consecutive slices: the page after the
/// current one starts where the current one ends, no page holds more than the
/// capacity, the first starts at the front and the last ends at the back.
pub proof fn lemma_pages_tile_the_listing(pages: Pages)
    requires
        pages.wf(),
    ensures
        pages.start() <= pages.end() <= pages.len,
        pages.end() - pages.start() <= pages.capacity,
        pages.start() + pages.capacity == pages.current * pages.capacity,
        pages.current == 1 ==> pages.start() == 0,
        pages.current == pages.count() ==> pages.end() == pages.len,
        pages.current < pages.count() ==> pages.next().start() == pages.end(),
        pages.current < pages.count() ==> pages.end() - pages.start() == pages.capacity,
{
    let c = pages.capacity as int;
    let k = pages.current as int;
    let n = pages.count() as int;
    lemma_page_count_bounds(pages.len, pages.capacity);
    lemma_capacity_multiples(k, n, c);
    lemma_capacity_multiples(k - 1, n - 1, c);
    lemma_capacity_multiples(k, n - 1, c);
    lemma_capacity_multiples(n, n, c);
    lemma_capacity_multiples(k + 1, n, c);
}

/// Computes `page_count`.
pub fn count_pages(len: usize, capacity: usize) -> (pages: usize)
    requires
        capacity > 0,
    ensures
        pages == page_count(len as nat, capacity as nat),
{
    let whole: usize = len / capacity;
    let pages: usize = if len % capacity != 0 {
        assert(whole < usize::MAX) by (nonlinear_arith)
            requires
                whole == len as int / capacity as int,
                len as int % capacity as int != 0,
                capacity > 0,
                len <= usize::MAX,
        ;
        whole + 1
    } else {
        whole
    };
    if pages < 1 {
        1
    } else {
        pages
    }
}

/// The paging of one listing: its length, the page capacity, the page count
/// and the page shown.
#[derive(Clone, Copy, Debug, PartialEq, Eq)]
pub struct Paginator {
    len: usize,
    capacity: usize,
    pages: usize,
    current: usize,
}

impl View for Paginator {
    type V = Pages;

    closed spec fn view(&self) -> Pages {
        Pages { len: self.len as nat, capacity: self.capacity as nat, current: self.current as nat }
    }
}

impl Paginator {
    /// The stored page count is the one that length and capacity give, and
    /// the current page is one of the pages.
    pub closed spec fn wf(&self) -> bool {
        &&& self@.wf()
        &&& self.pages == self@.count()
    }

    /// Well-formedness gives that of the view.
    pub proof fn lemma_wf(&self)
        requires
            self.wf(),
        ensures
            self@.wf(),
            self@.count() <= usize::MAX,
            self@.len <= usize::MAX,
            self@.capacity <= usize::MAX,
    {
    }

    /// The paging of a listing of `len` entries, at its first page.
    pub fn new(len: usize, capacity: usize) -> (paginator: Paginator)
        requires
            capacity > 0,
        ensures
            paginator.wf(),
            paginator@ == Pages::first(len as nat, capacity as nat),
    {
        let pages = count_pages(len, capacity);
        Paginator { len, capacity, pages, current: 1 }
    }

    /// Number of pages: at least 1.
    pub fn pages(&self) -> (pages: usize)
        requires
            self.wf(),
        ensures
            pages == self@.count(),
            pages >= 1,
    {
        self.pages
    }

    /// The page shown, counted from 1.
    pub fn current(&self) -> (current: usize)
        requires
            self.wf(),
        ensures
            current == self@.current,
            1 <= current <= self@.count(),
    {
        self.current
    }

    /// Length of the listing that is paged.
    pub fn len(&self) -> (len: usize)
        ensures
            len == self@.len,
    {
        self.len
    }

    /// Entries to the page.
    pub fn capacity(&self) -> (capacity: usize)
        ensures
            capacity == self@.capacity,
    {
        self.capacity
    }

    /// Shows the next page; on the last page nothing changes.
    pub fn next_page(&mut self)
        requires
            old(self).wf(),
        ensures
            final(self).wf(),
            final(self)@ == old(self)@.next(),
    {
        if self.current < self.pages {
            self.current = self.current + 1;
        }
    }

    /// Shows the previous page; on the first page nothing changes.
    pub fn prev_page(&mut self)
        requires
            old(self).wf(),
        ensures
            final(self).wf(),
            final(self)@ == old(self)@.prev(),
    {
        if self.current > 1 {
            self.current = self.current - 1;
        }
    }

    /// Takes one step in the direction given.
    pub fn step(&mut self, direction: PageMove)
        requires
            old(self).wf(),
        ensures
            final(self).wf(),
            final(self)@ == old(self)@.moved(direction),
    {
        match direction {
            PageMove::Next => self.next_page(),
            PageMove::Prev => self.prev_page(),
        }
    }

    /// Index in the listing of the first entry on the current page.
    pub fn start(&self) -> (start: usize)
        requires
            self.wf(),
        ensures
            start == self@.start(),
            start <= self@.len,
    {
        proof {
            lemma_pages_tile_the_listing(self@);
        }
        (self.current - 1) * self.capacity
    }

    /// Index in the listing one past the last entry on the current page.
    pub fn end(&self) -> (end: usize)
        requires
            self.wf(),
        ensures
            end == self@.end(),
            self@.start() <= end <= self@.len,
    {
        proof {
            lemma_pages_tile_the_listing(self@);
        }
        let start = self.start();
        let rest: usize = self.len - start;
        if rest < self.capacity {
            self.len
        } else {
            start + self.capacity
        }
    }
}

} // verus!
