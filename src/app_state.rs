//! The viewer's settings and page navigation. Times are milliseconds since
//! the state was made, read by the caller from its clock.
use vstd::prelude::*;
use crate::pages::{PageKind, get_pages, page_name, page_order};

verus! {

/// The viewer's settings and page navigation as a mathematical value.
pub struct AppModel {
    pub current_page: nat,
    pub pages: Seq<PageKind>,
    pub max_brightness_nits: u32,
    pub paper_white_nits: u32,
    pub show_ui: bool,
    pub auto_cycle: bool,
    pub cycle_interval_secs: u32,
    pub last_cycle_ms: u64,
}

impl AppModel {
    pub open spec fn wf(self) -> bool {
        &&& self.pages.len() > 0
        &&& self.current_page < self.pages.len()
    }
}

/// Milliseconds from `since` to `now`; zero if the clock reads earlier.
pub open spec fn elapsed_ms(since: u64, now: u64) -> nat {
    if now >= since { (now - since) as nat } else { 0 }
}

/// Whether auto-cycling moves on at `now_ms`.
pub open spec fn cycle_due(m: AppModel, now_ms: u64) -> bool {
    m.auto_cycle && elapsed_ms(m.last_cycle_ms, now_ms) >= m.cycle_interval_secs * 1000
}

/// Settings and navigation of the viewer.
pub struct AppState {
    current_page: usize,
    pages: Vec<PageKind>,
    pub max_brightness_nits: u32,
    pub paper_white_nits: u32,
    pub show_ui: bool,
    pub auto_cycle: bool,
    pub cycle_interval_secs: u32,
    last_cycle_ms: u64,
}

impl View for AppState {
    type V = AppModel;

    closed spec fn view(&self) -> AppModel {
        AppModel {
            current_page: self.current_page as nat,
            pages: self.pages@,
            max_brightness_nits: self.max_brightness_nits,
            paper_white_nits: self.paper_white_nits,
            show_ui: self.show_ui,
            auto_cycle: self.auto_cycle,
            cycle_interval_secs: self.cycle_interval_secs,
            last_cycle_ms: self.last_cycle_ms,
        }
    }
}

impl AppState {
    /// First page, 1000 nits peak, 200 nits paper white, UI hidden,
    /// auto-cycle off with a 5 s interval.
    pub fn new() -> (r: AppState)
        ensures
            r@.wf(),
            r@ == (AppModel {
                current_page: 0,
                pages: page_order(),
                max_brightness_nits: 1000,
                paper_white_nits: 200,
                show_ui: false,
                auto_cycle: false,
                cycle_interval_secs: 5,
                last_cycle_ms: 0,
            }),
    {
        AppState {
            current_page: 0,
            pages: get_pages(),
            max_brightness_nits: 1000,
            paper_white_nits: 200,
            show_ui: false,
            auto_cycle: false,
            cycle_interval_secs: 5,
            last_cycle_ms: 0,
        }
    }

    pub fn page_count(&self) -> (r: usize)
        ensures
            r == self@.pages.len(),
    {
        self.pages.len()
    }

    /// Index of the page shown.
    pub fn current_page(&self) -> (r: usize)
        ensures
            r == self@.current_page,
    {
        self.current_page
    }

    pub fn current_page_kind(&self) -> (r: PageKind)
        requires
            self@.wf(),
        ensures
            r == self@.pages[self@.current_page as int],
    {
        self.pages[self.current_page]
    }

    pub fn current_page_name(&self) -> (r: &'static str)
        requires
            self@.wf(),
        ensures
            r@ == page_name(self@.pages[self@.current_page as int]),
    {
        self.pages[self.current_page].name()
    }

    /// Shows the next page, wrapping after the last, and restarts the
    /// auto-cycle interval at `now_ms`.
    pub fn next_page(&mut self, now_ms: u64)
        requires
            old(self)@.wf(),
        ensures
            final(self)@.wf(),
            final(self)@ == (AppModel {
                current_page: ((old(self)@.current_page + 1) % old(self)@.pages.len()) as nat,
                last_cycle_ms: now_ms,
                ..old(self)@
            }),
    {
        let n = self.pages.len();
        self.current_page = (self.current_page + 1) % n;
        self.last_cycle_ms = now_ms;
    }

    /// Shows the previous page, wrapping before the first, and restarts the
    /// auto-cycle interval at `now_ms`.
    pub fn prev_page(&mut self, now_ms: u64)
        requires
            old(self)@.wf(),
        ensures
            final(self)@.wf(),
            final(self)@ == (AppModel {
                current_page: if old(self)@.current_page == 0 {
                    (old(self)@.pages.len() - 1) as nat
                } else {
                    (old(self)@.current_page - 1) as nat
                },
                last_cycle_ms: now_ms,
                ..old(self)@
            }),
    {
        if self.current_page == 0 {
            self.current_page = self.pages.len() - 1;
        } else {
            self.current_page -= 1;
        }
        self.last_cycle_ms = now_ms;
    }

    pub fn toggle_ui(&mut self)
        ensures
            final(self)@ == (AppModel { show_ui: !old(self)@.show_ui, ..old(self)@ }),
    {
        self.show_ui = !self.show_ui;
    }

    /// With auto-cycle on, moves to the next page once the interval has
    /// passed since the last change of page.
    pub fn update(&mut self, now_ms: u64)
        requires
            old(self)@.wf(),
        ensures
            final(self)@.wf(),
            cycle_due(old(self)@, now_ms) ==> final(self)@ == (AppModel {
                current_page: ((old(self)@.current_page + 1) % old(self)@.pages.len()) as nat,
                last_cycle_ms: now_ms,
                ..old(self)@
            }),
            !cycle_due(old(self)@, now_ms) ==> final(self)@ == old(self)@,
    {
        if self.auto_cycle {
            let elapsed = if now_ms >= self.last_cycle_ms { now_ms - self.last_cycle_ms } else { 0 };
            if elapsed as u128 >= self.cycle_interval_secs as u128 * 1000 {
                self.next_page(now_ms);
            }
        }
    }
}

} // verus!
