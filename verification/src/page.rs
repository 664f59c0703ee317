//! Windowing over a list: a `Page` shows a contiguous run of items sized to
//! fit the terminal without scrolling.

use vstd::prelude::*;

verus! {

/// A window over a list of `count_total` items. The window starts at
/// `current_index` and shows `count_per_page` items. The `Page` never owns
/// the list itself: callers pass the list in on each access and must keep
/// its length equal to `count_total`.
pub struct Page {
    pub current_index: usize,
    pub count_per_page: usize,
    pub count_total: usize,
}

impl Page {
    /// Well-formedness: the window has at least one and at most ten slots,
    /// and lies inside the list whenever the list can hold a full window.
    /// An empty list is a valid degenerate state: one slot, index pinned to 0.
    pub open spec fn wf(self) -> bool {
        &&& 1 <= self.count_per_page <= 10
        &&& if self.count_total == 0 {
            self.count_per_page == 1 && self.current_index == 0
        } else {
            self.count_per_page <= self.count_total
                && self.current_index + self.count_per_page <= self.count_total
        }
    }

    /// The page size chosen at construction: the smaller of the list length
    /// capped at ten and the rows the terminal can spare (four lines are
    /// reserved for title and help text), clamped so that even a tiny
    /// terminal or an empty list yields a single-item window.
    pub open spec fn spec_page_size(
        count_total: usize,
        lines_per_element: usize,
        terminal_height: usize,
    ) -> int
        recommends
            lines_per_element >= 1,
    {
        let rows = terminal_height as int / lines_per_element as int;
        let avail = if rows >= 5 {
            rows - 4
        } else {
            1
        };
        let capped = if count_total < 10 {
            count_total as int
        } else {
            10
        };
        let raw = if capped <= avail {
            capped
        } else {
            avail
        };
        if raw == 0 {
            1
        } else {
            raw
        }
    }

    /// Builds a window at the start of a list of `count_total` items, where
    /// each item takes `lines_per_element` terminal rows of the
    /// `terminal_height` available.
    pub fn new(count_total: usize, lines_per_element: usize, terminal_height: usize) -> (p: Page)
        requires
            lines_per_element >= 1,
        ensures
            p.wf(),
            p.current_index == 0,
            p.count_total == count_total,
            p.count_per_page == Self::spec_page_size(count_total, lines_per_element, terminal_height),
            count_total >= 1 && terminal_height >= 5 * lines_per_element ==> 1 <= p.count_per_page
                <= if count_total < 10 { count_total as int } else { 10 },
    {
        let rows = terminal_height / lines_per_element;
        let avail = if rows >= 5 {
            rows - 4
        } else {
            1
        };
        let capped = if count_total < 10 {
            count_total
        } else {
            10
        };
        let raw = if capped <= avail {
            capped
        } else {
            avail
        };
        let cpp = if raw == 0 {
            1
        } else {
            raw
        };
        proof {
            if count_total >= 1 && terminal_height >= 5 * lines_per_element {
                assert(terminal_height as int / lines_per_element as int >= 5) by (nonlinear_arith)
                    requires
                        lines_per_element >= 1,
                        terminal_height >= 5 * lines_per_element,
                ;
            }
        }
        Page { current_index: 0, count_per_page: cpp, count_total }
    }

    /// The index after one forward page: the window advances by its own size
    /// but never past the last full window; on a list shorter than the
    /// window it stays pinned at 0.
    pub open spec fn next_index(self) -> int {
        if self.count_total < self.count_per_page {
            0
        } else if self.current_index + self.count_per_page <= self.count_total
            - self.count_per_page {
            self.current_index + self.count_per_page
        } else {
            self.count_total - self.count_per_page
        }
    }

    /// The state after one forward page.
    pub open spec fn next_state(self) -> Page {
        Page {
            current_index: self.next_index() as usize,
            count_per_page: self.count_per_page,
            count_total: self.count_total,
        }
    }

    /// Advances the window one page, clamped to the last full window.
    pub fn next_page(&mut self)
        requires
            old(self).wf(),
        ensures
            *final(self) == old(self).next_state(),
            final(self).wf(),
    {
        if self.count_total < self.count_per_page {
            self.current_index = 0;
        } else {
            let limit = self.count_total - self.count_per_page;
            let stepped = self.current_index + self.count_per_page;
            self.current_index = if stepped <= limit {
                stepped
            } else {
                limit
            };
        }
    }

    /// The index after one backward page: the window retreats by its own
    /// size, clamped to the start of the list.
    pub open spec fn prev_index(self) -> int {
        if self.current_index >= self.count_per_page {
            self.current_index - self.count_per_page
        } else {
            0
        }
    }

    /// The state after one backward page.
    pub open spec fn prev_state(self) -> Page {
        Page {
            current_index: self.prev_index() as usize,
            count_per_page: self.count_per_page,
            count_total: self.count_total,
        }
    }

    /// Moves the window one page back, clamped to the start of the list.
    pub fn prev_page(&mut self)
        requires
            old(self).wf(),
        ensures
            *final(self) == old(self).prev_state(),
            final(self).wf(),
    {
        if self.current_index >= self.count_per_page {
            self.current_index = self.current_index - self.count_per_page;
        } else {
            self.current_index = 0;
        }
    }

    /// The state after `k` forward pages.
    pub open spec fn next_iter(self, k: nat) -> Page
        decreases k,
    {
        if k == 0 {
            self
        } else {
            self.next_iter((k - 1) as nat).next_state()
        }
    }

    /// The state after `k` backward pages.
    pub open spec fn prev_iter(self, k: nat) -> Page
        decreases k,
    {
        if k == 0 {
            self
        } else {
            self.prev_iter((k - 1) as nat).prev_state()
        }
    }

    /// An index lies in the current window.
    pub open spec fn spec_visible(self, index: int) -> bool {
        self.current_index <= index < self.current_index + self.count_per_page
    }

    /// True iff `index` lies in the current window. This is pure window
    /// arithmetic: it does not ask whether the list actually has an item at
    /// `index` (an empty list still has a one-slot window).
    pub fn item_is_at_index(&self, index: usize) -> (r: bool)
        requires
            self.wf(),
        ensures
            r == self.spec_visible(index as int),
    {
        index <= self.current_index + self.count_per_page - 1 && index >= self.current_index
    }

    /// Where the visible slice of the list ends: one past its last element.
    /// Equal to `current_index + count_per_page` whenever the list can hold
    /// a full window.
    pub open spec fn page_end(self) -> int {
        if self.current_index + self.count_per_page <= self.count_total {
            self.current_index + self.count_per_page
        } else {
            self.count_total as int
        }
    }

    /// The slice of `videos` that the current window shows. The caller owns
    /// the list and must keep its length equal to `count_total`.
    pub fn current_page<'a, T>(&self, videos: &'a Vec<T>) -> (r: &'a [T])
        requires
            self.wf(),
            videos@.len() == self.count_total,
        ensures
            r@ == videos@.subrange(self.current_index as int, self.page_end()),
            self.count_per_page <= self.count_total ==> r@ == videos@.subrange(
                self.current_index as int,
                self.current_index + self.count_per_page,
            ),
    {
        let end = if self.count_total >= self.count_per_page {
            self.current_index + self.count_per_page
        } else {
            self.count_total
        };
        vstd::slice::slice_subrange(videos.as_slice(), self.current_index, end)
    }

    /// The item at an absolute index, but only if it is currently visible
    /// and the list really has it: only items on the open page are
    /// addressable by number.
    pub fn item_at_index<'a, T>(&self, videos: &'a [T], index: usize) -> (r: Option<&'a T>)
        requires
            self.wf(),
        ensures
            r is Some <==> self.spec_visible(index as int) && index < videos@.len(),
            r matches Some(v) ==> *v == videos@[index as int],
    {
        if self.item_is_at_index(index) && index < videos.len() {
            Some(&videos[index])
        } else {
            None
        }
    }
}

/// Law: once the window has reached the end of the list — where
/// `current_index + count_per_page == count_total` — paging forward changes
/// nothing.
pub proof fn lemma_next_page_fixed_point(p: Page)
    requires
        p.wf(),
        p.count_per_page <= p.count_total,
        p.current_index + p.count_per_page == p.count_total,
    ensures
        p.next_state() == p,
{
}

/// After `k` forward pages the index is `current_index + k * count_per_page`,
/// clamped to the start of the last full window.
proof fn lemma_next_iter_index(p: Page, k: nat)
    requires
        p.wf(),
        p.count_per_page <= p.count_total,
    ensures
        p.next_iter(k).count_per_page == p.count_per_page,
        p.next_iter(k).count_total == p.count_total,
        p.next_iter(k).wf(),
        p.next_iter(k).current_index == if p.current_index + k * p.count_per_page
            <= p.count_total - p.count_per_page {
            p.current_index + k * p.count_per_page
        } else {
            p.count_total - p.count_per_page
        },
    decreases k,
{
    if k > 0 {
        let km1 = (k - 1) as nat;
        lemma_next_iter_index(p, km1);
        assert(km1 * p.count_per_page + p.count_per_page == k * p.count_per_page)
            by (nonlinear_arith)
            requires
                km1 + 1 == k,
        ;
    }
}

/// Law: from any well-formed window over a list that holds at least one
/// full window, `count_total` forward pages (or more) reach the end window,
/// where `current_index + count_per_page == count_total`; that window is a
/// fixed point of further forward paging.
pub proof fn lemma_next_page_reaches_end(p: Page, k: nat)
    requires
        p.wf(),
        p.count_per_page <= p.count_total,
        k >= p.count_total,
    ensures
        p.next_iter(k).current_index + p.count_per_page == p.count_total,
        p.next_iter(k).next_state() == p.next_iter(k),
{
    lemma_next_iter_index(p, k);
    assert(k * p.count_per_page >= k) by (nonlinear_arith)
        requires
            p.count_per_page >= 1,
            k >= 0,
    ;
    lemma_next_page_fixed_point(p.next_iter(k));
}

/// Law: at the start of the list, paging backward changes nothing.
pub proof fn lemma_prev_page_fixed_point(p: Page)
    requires
        p.wf(),
        p.current_index == 0,
    ensures
        p.prev_state() == p,
{
}

/// After `k` backward pages the index is `current_index - k * count_per_page`,
/// clamped to 0.
proof fn lemma_prev_iter_index(p: Page, k: nat)
    requires
        p.wf(),
    ensures
        p.prev_iter(k).count_per_page == p.count_per_page,
        p.prev_iter(k).count_total == p.count_total,
        p.prev_iter(k).wf(),
        p.prev_iter(k).current_index == if p.current_index - k * p.count_per_page >= 0 {
            p.current_index - k * p.count_per_page
        } else {
            0
        },
    decreases k,
{
    if k > 0 {
        let km1 = (k - 1) as nat;
        lemma_prev_iter_index(p, km1);
        assert(km1 * p.count_per_page + p.count_per_page == k * p.count_per_page)
            by (nonlinear_arith)
            requires
                km1 + 1 == k,
        ;
    }
}

/// Law: from any well-formed window, `count_total` backward pages (or more)
/// reach the start of the list, and the start is a fixed point of further
/// backward paging.
pub proof fn lemma_prev_page_reaches_start(p: Page, k: nat)
    requires
        p.wf(),
        k >= p.count_total,
    ensures
        p.prev_iter(k).current_index == 0,
        p.prev_iter(k).prev_state() == p.prev_iter(k),
{
    lemma_prev_iter_index(p, k);
    assert(k * p.count_per_page >= k) by (nonlinear_arith)
        requires
            p.count_per_page >= 1,
            k >= 0,
    ;
    lemma_prev_page_fixed_point(p.prev_iter(k));
}

} // verus!
