//! Paging through a streamer's donation history: the rows the server skips
//! for a page, the number of pages, the "showing X to Y of N" range, the
//! previous/next page buttons, and the pager those buttons drive.
use vstd::prelude::*;

verus! {

/// The mathematical ceiling of `a / b` for `b != 0`.
pub open spec fn ceil_div(a: int, b: int) -> int
    recommends
        b != 0,
{
    if b > 0 {
        -((-a) / b)
    } else {
        -(a / (-b))
    }
}

/// `x` limited to the range of `i64`.
pub open spec fn clamp_i64(x: int) -> int {
    if x > i64::MAX {
        i64::MAX as int
    } else if x < i64::MIN {
        i64::MIN as int
    } else {
        x
    }
}

/// The number of pages shown for `count` donations at `page_size` per page:
/// one page when the page size is zero.
pub open spec fn spec_total_pages(count: int, page_size: int) -> int {
    if page_size == 0 {
        1
    } else {
        clamp_i64(ceil_div(count, page_size))
    }
}

/// The number of rows the server skips for `page` (counted from 1).
pub fn page_offset(page: i64, page_size: i64) -> (o: i64)
    requires
        i64::MIN <= (page - 1) * page_size <= i64::MAX,
        page >= i64::MIN + 1,
    ensures
        o == (page - 1) * page_size,
{
    (page - 1) * page_size
}

/// The ceiling of `a / b` for `b > 0`, on non-overflowing integers.
fn ceil_div_pos(a: i128, b: i128) -> (q: i128)
    requires
        b > 0,
        -0x1_0000_0000_0000_0000i128 <= a <= 0x1_0000_0000_0000_0000i128,
        b <= 0x1_0000_0000_0000_0000i128,
    ensures
        q == -((-(a as int)) / (b as int)),
{
    if a >= 0 {
        let q: i128 = (a + b - 1) / b;
        proof {
            lemma_ceil_nonneg(a as int, b as int);
        }
        q
    } else {
        let p: i128 = (-a) / b;
        -p
    }
}

proof fn lemma_ceil_nonneg(a: int, b: int)
    requires
        a >= 0,
        b > 0,
    ensures
        (a + b - 1) / b == -((-a) / b),
{
    let q: int = (a + b - 1) / b;
    let r: int = (a + b - 1) % b;
    let q2: int = (-a) / b;
    let r2: int = (-a) % b;
    assert(a + b - 1 == b * q + r && 0 <= r < b) by (nonlinear_arith)
        requires
            b > 0,
            q == (a + b - 1) / b,
            r == (a + b - 1) % b,
    ;
    assert(-a == b * q2 + r2 && 0 <= r2 < b) by (nonlinear_arith)
        requires
            b > 0,
            q2 == (-a) / b,
            r2 == (-a) % b,
    ;
    // a + b - 1 == b*q + r and a == -(b*q2) - r2, so b*(q + q2) == b - 1 - r - r2, strictly between -b and b
    assert(q == -q2) by (nonlinear_arith)
        requires
            a + b - 1 == b * q + r,
            -a == b * q2 + r2,
            0 <= r < b,
            0 <= r2 < b,
            b > 0,
    ;
}

/// The number of pages shown for `count` donations at `page_size` per page:
/// the ceiling of `count / page_size`, or one page when the page size is
/// zero.
pub fn total_pages(count: i64, page_size: i64) -> (t: i64)
    ensures
        t == spec_total_pages(count as int, page_size as int),
{
    if page_size == 0 {
        return 1;
    }
    let a: i128 = count as i128;
    let b: i128 = page_size as i128;
    let q: i128 = if b > 0 {
        ceil_div_pos(a, b)
    } else {
        ceil_div_pos(-a, -b)
    };
    if q > i64::MAX as i128 {
        i64::MAX
    } else if q < i64::MIN as i128 {
        i64::MIN
    } else {
        q as i64
    }
}

/// The 1-based index of the first donation on the page, 0 when there are
/// none.
pub fn first_shown(count: i64, page: i64, page_size: i64) -> (i: i64)
    requires
        page >= i64::MIN + 1,
        i64::MIN <= (page - 1) * page_size + 1 <= i64::MAX,
        i64::MIN <= (page - 1) * page_size <= i64::MAX,
    ensures
        count == 0 ==> i == 0,
        count != 0 ==> i == (page - 1) * page_size + 1,
{
    if count == 0 {
        0
    } else {
        (page - 1) * page_size + 1
    }
}

/// The 1-based index of the last donation on the page: the end of the page,
/// or the last donation when the page is not full.
pub fn last_shown(count: i64, page: i64, page_size: i64) -> (i: i64)
    requires
        i64::MIN <= page * page_size <= i64::MAX,
    ensures
        i == (if page * page_size > count {
            count as int
        } else {
            page * page_size
        }),
{
    let end: i64 = page * page_size;
    if end > count {
        count
    } else {
        end
    }
}

/// The page the "previous" button goes to.
pub fn previous_page(page: i64) -> (p: i64)
    ensures
        p == (if page > 1 {
            page - 1
        } else {
            page as int
        }),
{
    if page > 1 {
        page - 1
    } else {
        page
    }
}

/// The page the "next" button goes to.
pub fn next_page(page: i64, total: i64) -> (p: i64)
    ensures
        p == (if page < total {
            page + 1
        } else {
            page as int
        }),
{
    if page < total {
        page + 1
    } else {
        page
    }
}

/// On every page from 1 to the last, with a positive page size and some
/// donations, the range shown starts right after the rows the server
/// skipped, is non-empty, stays within the donations, and holds exactly the
/// rows the server returns for that page (a full page, or the rest).
pub proof fn law_page_range(count: int, page: int, page_size: int)
    requires
        count > 0,
        page_size > 0,
        1 <= page <= ceil_div(count, page_size),
    ensures
        ({
            let offset: int = (page - 1) * page_size;
            let first: int = offset + 1;
            let last: int = if page * page_size > count {
                count
            } else {
                page * page_size
            };
            &&& 1 <= first <= last <= count
            &&& last - first + 1 == (if page_size < count - offset {
                page_size
            } else {
                count - offset
            })
        }),
{
    let offset: int = (page - 1) * page_size;
    let q: int = (-count) / page_size;
    let m: int = (-count) % page_size;
    assert(-count == page_size * q + m && 0 <= m < page_size) by (nonlinear_arith)
        requires
            page_size > 0,
            q == (-count) / page_size,
            m == (-count) % page_size,
    ;
    // page <= -q, so (page - 1) * page_size < count
    assert(offset < count) by (nonlinear_arith)
        requires
            offset == (page - 1) * page_size,
            page <= -q,
            -count == page_size * q + m,
            0 <= m < page_size,
            page_size > 0,
    ;
    assert(offset >= 0) by (nonlinear_arith)
        requires
            offset == (page - 1) * page_size,
            page >= 1,
            page_size > 0,
    ;
    assert(page * page_size == offset + page_size) by (nonlinear_arith)
        requires
            offset == (page - 1) * page_size,
    ;
}

/// The previous and next buttons keep the page between 1 and the number of
/// pages.
pub proof fn law_page_buttons_stay_in_range(page: int, total: int)
    requires
        1 <= page <= total,
    ensures
        1 <= (if page < total {
            page + 1
        } else {
            page
        }) <= total,
        1 <= (if page > 1 {
            page - 1
        } else {
            page
        }) <= total,
{
}

/// With donations and a positive page size there is at least one page, and
/// the last page is not empty: it starts before the last donation.
pub proof fn law_page_count_covers_donations(count: int, page_size: int)
    requires
        count > 0,
        page_size > 0,
    ensures
        ceil_div(count, page_size) >= 1,
        (ceil_div(count, page_size) - 1) * page_size < count <= ceil_div(count, page_size)
            * page_size,
{
    let t = ceil_div(count, page_size);
    let q: int = (-count) / page_size;
    let m: int = (-count) % page_size;
    assert(-count == page_size * q + m && 0 <= m < page_size) by (nonlinear_arith)
        requires
            page_size > 0,
            q == (-count) / page_size,
            m == (-count) % page_size,
    ;
    assert(t == -q);
    assert(t >= 1 && (t - 1) * page_size < count && count <= t * page_size) by (nonlinear_arith)
        requires
            t == -q,
            -count == page_size * q + m,
            0 <= m < page_size,
            page_size > 0,
            count > 0,
    ;
}


/// The first row shown, as `first_shown` computes it.
pub open spec fn spec_first_shown(count: int, page: int, page_size: int) -> int {
    if count == 0 {
        0
    } else {
        (page - 1) * page_size + 1
    }
}

/// The last row shown, as `last_shown` computes it.
pub open spec fn spec_last_shown(count: int, page: int, page_size: int) -> int {
    if page * page_size > count {
        count
    } else {
        page * page_size
    }
}

/// The "previous" button is disabled on the first page.
pub fn previous_disabled(page: i64) -> (b: bool)
    ensures
        b == (page <= 1),
{
    page <= 1
}

/// The "next" button is disabled on the last page (or beyond).
pub fn next_disabled(page: i64, total: i64) -> (b: bool)
    ensures
        b == (page >= total),
{
    page >= total
}

/// The page and page size of the donation history's pager.
pub struct PagerView {
    pub page: int,
    pub page_size: int,
}

/// What the user does to the pager: the previous button, the next button
/// while `count` donations are known, or picking a number of rows per page.
pub enum PagerClick {
    Previous,
    Next { count: int },
    PerPage { size: int },
}

/// The pager after one click.
pub open spec fn pager_next(v: PagerView, c: PagerClick) -> PagerView {
    match c {
        PagerClick::Previous => PagerView {
            page: if v.page > 1 {
                v.page - 1
            } else {
                v.page
            },
            ..v
        },
        PagerClick::Next { count } => PagerView {
            page: if v.page < spec_total_pages(count, v.page_size) {
                v.page + 1
            } else {
                v.page
            },
            ..v
        },
        PagerClick::PerPage { size } => PagerView { page: 1, page_size: size },
    }
}

/// The pager after a sequence of clicks, in order.
pub open spec fn pager_run(v: PagerView, clicks: Seq<PagerClick>) -> PagerView
    decreases clicks.len(),
{
    if clicks.len() == 0 {
        v
    } else {
        pager_run(pager_next(v, clicks[0]), clicks.drop_first())
    }
}

/// The donation history's pager: the page shown and the rows per page.
pub struct Pager {
    page: i64,
    page_size: i64,
}

impl View for Pager {
    type V = PagerView;

    closed spec fn view(&self) -> PagerView {
        PagerView { page: self.page as int, page_size: self.page_size as int }
    }
}

impl Pager {
    /// A pager on the first page.
    pub fn new(page_size: i64) -> (p: Pager)
        ensures
            p@ == (PagerView { page: 1, page_size: page_size as int }),
    {
        Pager { page: 1, page_size }
    }

    /// The page shown.
    pub fn page(&self) -> (p: i64)
        ensures
            p == self@.page,
    {
        self.page
    }

    /// The rows per page.
    pub fn page_size(&self) -> (n: i64)
        ensures
            n == self@.page_size,
    {
        self.page_size
    }

    /// The "previous" button.
    pub fn previous(&mut self)
        ensures
            final(self)@ == pager_next(old(self)@, PagerClick::Previous),
    {
        self.page = previous_page(self.page);
    }

    /// The "next" button, while `count` donations are known.
    pub fn next(&mut self, count: i64)
        ensures
            final(self)@ == pager_next(old(self)@, PagerClick::Next { count: count as int }),
    {
        let total = total_pages(count, self.page_size);
        self.page = next_page(self.page, total);
    }

    /// Picking `size` rows per page goes back to the first page.
    pub fn set_page_size(&mut self, size: i64)
        ensures
            final(self)@ == pager_next(old(self)@, PagerClick::PerPage { size: size as int }),
    {
        self.page_size = size;
        self.page = 1;
    }
}

/// The number of pages never drops as donations are added.
proof fn lemma_ceil_div_monotone(a: int, b: int, n: int)
    requires
        0 <= a <= b,
        n > 0,
    ensures
        0 <= ceil_div(a, n) <= ceil_div(b, n),
{
    let qa: int = (-a) / n;
    let ra: int = (-a) % n;
    let qb: int = (-b) / n;
    let rb: int = (-b) % n;
    assert(-a == n * qa + ra && 0 <= ra < n) by (nonlinear_arith)
        requires
            n > 0,
            qa == (-a) / n,
            ra == (-a) % n,
    ;
    assert(-b == n * qb + rb && 0 <= rb < n) by (nonlinear_arith)
        requires
            n > 0,
            qb == (-b) / n,
            rb == (-b) % n,
    ;
    assert(qb <= qa && qa <= 0) by (nonlinear_arith)
        requires
            -a == n * qa + ra,
            0 <= ra < n,
            -b == n * qb + rb,
            0 <= rb < n,
            0 <= a <= b,
            n > 0,
    ;
}

/// For a count that fits in `i64` and a positive page size, the number of
/// pages is the ceiling of their quotient, with no clamping.
proof fn lemma_total_is_ceil(count: int, n: int)
    requires
        0 <= count <= i64::MAX,
        n > 0,
    ensures
        spec_total_pages(count, n) == ceil_div(count, n),
        ceil_div(count, n) <= count,
{
    let q: int = (-count) / n;
    let r: int = (-count) % n;
    assert(-count == n * q + r && 0 <= r < n) by (nonlinear_arith)
        requires
            n > 0,
            q == (-count) / n,
            r == (-count) % n,
    ;
    assert(-q <= count) by (nonlinear_arith)
        requires
            -count == n * q + r,
            0 <= r < n,
            n > 0,
            count >= 0,
    ;
}

/// Whether every click in the sequence is one the page allows: a next click
/// sees no more than `count` donations, and each rows-per-page choice is
/// positive.
pub open spec fn clicks_within(clicks: Seq<PagerClick>, count: int) -> bool {
    forall|i: int|
        0 <= i < clicks.len() ==> match #[trigger] clicks[i] {
            PagerClick::Previous => true,
            PagerClick::Next { count: c } => 0 <= c <= count,
            PagerClick::PerPage { size } => size > 0,
        }
}

/// The page stays between 1 and the number of pages.
pub open spec fn page_in_range(v: PagerView, count: int) -> bool {
    1 <= v.page <= (if ceil_div(count, v.page_size) > 1 {
        ceil_div(count, v.page_size)
    } else {
        1
    })
}

proof fn lemma_pager_run_in_range(v: PagerView, clicks: Seq<PagerClick>, count: int)
    requires
        0 <= count <= i64::MAX,
        v.page_size > 0,
        page_in_range(v, count),
        clicks_within(clicks, count),
    ensures
        pager_run(v, clicks).page_size > 0,
        page_in_range(pager_run(v, clicks), count),
    decreases clicks.len(),
{
    if clicks.len() > 0 {
        let w = pager_next(v, clicks[0]);
        match clicks[0] {
            PagerClick::Previous => {},
            PagerClick::Next { count: c } => {
                lemma_total_is_ceil(c, v.page_size);
                lemma_ceil_div_monotone(c, count, v.page_size);
            },
            PagerClick::PerPage { size } => {
                lemma_ceil_div_monotone(0, count, size);
            },
        }
        assert(clicks_within(clicks.drop_first(), count)) by {
            assert forall|i: int| 0 <= i < clicks.drop_first().len() implies match #[trigger] clicks.drop_first()[i] {
                PagerClick::Previous => true,
                PagerClick::Next { count: c } => 0 <= c <= count,
                PagerClick::PerPage { size } => size > 0,
            } by {
                assert(clicks.drop_first()[i] == clicks[i + 1]);
            }
        }
        lemma_pager_run_in_range(w, clicks.drop_first(), count);
    }
}

/// Starting on page 1 with a positive page size, after any sequence of
/// previous/next clicks and rows-per-page choices, while the number of
/// donations only grows up to `count`: the rows per page are the last
/// choice (or the initial size), the page is between 1 and the number of
/// pages (at least 1); with no donations the range reads 0 to 0 and both
/// buttons are disabled; otherwise the range shown lies within the
/// donations.
pub proof fn law_pager_stays_in_range(page_size: int, clicks: Seq<PagerClick>, count: int)
    requires
        0 <= count <= i64::MAX,
        page_size > 0,
        clicks_within(clicks, count),
    ensures
        ({
            let v = pager_run(PagerView { page: 1, page_size }, clicks);
            let total = spec_total_pages(count, v.page_size);
            &&& v.page_size > 0
            &&& page_in_range(v, count)
            &&& count == 0 ==> spec_first_shown(count, v.page, v.page_size) == 0
                && spec_last_shown(count, v.page, v.page_size) == 0 && v.page <= 1 && v.page
                >= total
            &&& count > 0 ==> 1 <= spec_first_shown(count, v.page, v.page_size)
                <= spec_last_shown(count, v.page, v.page_size) <= count
        }),
{
    let v0 = PagerView { page: 1, page_size };
    lemma_ceil_div_monotone(0, count, page_size);
    lemma_pager_run_in_range(v0, clicks, count);
    let v = pager_run(v0, clicks);
    lemma_total_is_ceil(count, v.page_size);
    if count == 0 {
        assert(v.page == 1);
        assert(1 * v.page_size > 0) by (nonlinear_arith)
            requires
                v.page_size > 0,
        ;
    } else {
        law_page_count_covers_donations(count, v.page_size);
        law_page_range(count, v.page, v.page_size);
    }
}

/// Picking a number of rows per page shows the first page at that size,
/// whatever page was shown before.
pub proof fn law_per_page_resets_to_first(v: PagerView, size: int)
    ensures
        pager_next(v, PagerClick::PerPage { size }) == (PagerView { page: 1, page_size: size }),
{
}

} // verus!
