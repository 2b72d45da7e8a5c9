use vstd::prelude::*;

verus! {

/// Page size used when a request does not name one.
pub const DEFAULT_PAGE_SIZE: u64 = 20;

/// The larger of a page number and one: page numbers start at one.
pub open spec fn normalized_page_no(page_no: u64) -> u64 {
    if page_no < 1 { 1 } else { page_no }
}

/// A request for one page of records.
#[derive(Debug, Clone, Copy)]
pub struct PageRequest {
    pub page_no: u64,
    pub page_size: u64,
    pub do_count: bool,
}

impl Default for PageRequest {
    fn default() -> (r: Self)
        ensures
            r == PageRequest::default_spec(),
            r.page_no == 1,
            r.page_size == DEFAULT_PAGE_SIZE,
            r.do_count,
    {
        PageRequest { page_no: 1, page_size: DEFAULT_PAGE_SIZE, do_count: true }
    }
}

impl PageRequest {
    /// The number of records that come before the requested page.
    pub open spec fn spec_offset(self) -> int {
        (self.page_no - 1) * self.page_size
    }

    /// The request `default` gives: the first page of the default size.
    pub open spec fn default_spec() -> PageRequest {
        PageRequest { page_no: 1, page_size: DEFAULT_PAGE_SIZE, do_count: true }
    }

    /// The request `new` gives.
    pub open spec fn new_spec(page_no: u64, page_size: u64) -> PageRequest {
        PageRequest { page_no: normalized_page_no(page_no), page_size, do_count: true }
    }

    /// The request after one setting.
    pub open spec fn after_step(self, step: PageStep) -> PageRequest {
        match step {
            PageStep::PageNo(n) => PageRequest { page_no: normalized_page_no(n), ..self },
            PageStep::PageSize(n) => PageRequest { page_size: n, ..self },
        }
    }

    /// The request after a sequence of settings, applied in order.
    pub open spec fn after_steps(self, steps: Seq<PageStep>) -> PageRequest
        decreases steps.len(),
    {
        if steps.len() == 0 {
            self
        } else {
            self.after_steps(steps.drop_last()).after_step(steps.last())
        }
    }

    pub fn new(page_no: u64, page_size: u64) -> (r: Self)
        ensures
            r == PageRequest::new_spec(page_no, page_size),
            r.page_no == normalized_page_no(page_no),
            r.page_size == page_size,
            r.do_count,
    {
        PageRequest {
            page_no: if page_no < 1 { 1 } else { page_no },
            page_size,
            do_count: true,
        }
    }

    pub fn set_page_size(self, arg: u64) -> (r: Self)
        ensures
            r == self.after_step(PageStep::PageSize(arg)),
            r.page_size == arg,
            r.page_no == self.page_no,
            r.do_count == self.do_count,
    {
        let mut s = self;
        s.page_size = arg;
        s
    }

    pub fn set_page_no(self, arg: u64) -> (r: Self)
        ensures
            r == self.after_step(PageStep::PageNo(arg)),
            r.page_no == normalized_page_no(arg),
            r.page_size == self.page_size,
            r.do_count == self.do_count,
    {
        let mut s = self;
        s.page_no = if arg < 1 { 1 } else { arg };
        s
    }

    pub fn offset(&self) -> (r: u64)
        requires
            self.page_no >= 1,
            self.spec_offset() <= u64::MAX,
        ensures
            r == self.spec_offset(),
    {
        (self.page_no - 1) * self.page_size
    }
}

/// One call that changes a page request: `set_page_no` or `set_page_size`.
pub enum PageStep {
    PageNo(u64),
    PageSize(u64),
}

/// Settings keep a page number of at least one.
proof fn lemma_steps_keep_first_page(start: PageRequest, steps: Seq<PageStep>)
    requires
        start.page_no >= 1,
    ensures
        start.after_steps(steps).page_no >= 1,
    decreases steps.len(),
{
    if steps.len() > 0 {
        lemma_steps_keep_first_page(start, steps.drop_last());
    }
}

/// Whatever page-number and page-size settings follow `default` (no
/// arguments) or `new(a, b)`, the request names a page from one on, so
/// `offset` may be asked of it whenever the product fits a `u64`, and the
/// offset is the number of records on the pages before it.
pub proof fn lemma_offset_after_any_steps(new_args: Option<(u64, u64)>, steps: Seq<PageStep>)
    ensures
        ({
            let start = match new_args {
                Some(a) => PageRequest::new_spec(a.0, a.1),
                None => PageRequest::default_spec(),
            };
            let r = start.after_steps(steps);
            &&& r.page_no >= 1
            &&& r.spec_offset() == (r.page_no - 1) * r.page_size
            &&& 0 <= r.spec_offset()
        }),
{
    let start = match new_args {
        Some(a) => PageRequest::new_spec(a.0, a.1),
        None => PageRequest::default_spec(),
    };
    lemma_steps_keep_first_page(start, steps);
    let r = start.after_steps(steps);
    assert(0 <= (r.page_no - 1) * r.page_size) by (nonlinear_arith)
        requires r.page_no >= 1;
}

/// The page parameters of a listing request.
pub struct Pagination {
    pub page: u64,
    pub page_size: u64,
}

/// One page of records as the storage layer returns it.
pub struct DbPage<T> {
    pub records: Vec<T>,
    pub total: u64,
    pub page_no: u64,
    pub page_size: u64,
}

/// One page of items as the console returns it.
pub struct Page<T> {
    /// data
    pub items: Vec<T>,
    /// total num
    pub total: u64,
    /// current page index
    pub page_no: u64,
    /// default 20
    pub page_size: u64,
    /// Control whether to execute count statements to count the total number
    pub do_count: bool,
}

impl<T> Page<T> {
    pub fn new(page_no: u64, page_size: u64, total: u64, items: Vec<T>) -> (r: Self)
        ensures
            r.page_no == normalized_page_no(page_no),
            r.page_size == (if page_size == 0 { DEFAULT_PAGE_SIZE } else { page_size }),
            r.total == total,
            r.items@ == items@,
            r.do_count,
    {
        let page_size = if page_size == 0 { DEFAULT_PAGE_SIZE } else { page_size };
        if page_no < 1 {
            return Page { total, page_size, page_no: 1u64, items, do_count: true };
        }
        Page { total, page_size, page_no, items, do_count: true }
    }
}

/// Consecutive pages neither overlap nor leave a gap: the page after page
/// `n` starts where page `n` ends.
pub proof fn lemma_pages_are_contiguous(r: PageRequest, n: u64)
    requires
        1 <= n < u64::MAX,
    ensures
        (PageRequest { page_no: (n + 1) as u64, ..r }).spec_offset()
            == (PageRequest { page_no: n, ..r }).spec_offset() + r.page_size,
{
    assert(((n + 1) - 1) * r.page_size == (n - 1) * r.page_size + r.page_size) by (nonlinear_arith);
}

} // verus!
