//! The page store: the one ordered list of decoded pages, the current page
//! index, the display mode, and the state machine that loads and navigates
//! it.
//!
//! The store is owned by the interactive side. A load worker never touches
//! it: the worker builds its own page list and sends one terminal message,
//! which `apply_outcome` installs — or drops, when a newer request has
//! superseded the one it answers.

use vstd::prelude::*;
use crate::loader::{LoadError, LoadOutcome, LoadResult};
use crate::page::{pages_wf, PageEntry};

verus! {

/// Whether one page or a two-page spread is shown.
#[derive(Clone, Copy, Debug, PartialEq, Eq, Structural)]
pub enum DisplayMode {
    Single,
    Dual,
}

/// The pages a layout pass leaves: in single mode the page at `index`
/// rescaled against the whole viewport; in dual mode the page at `index`
/// and, when present, the one after it, each against half the viewport's
/// width.
pub open spec fn spec_scale_pass(
    pages: Seq<PageEntry>,
    index: int,
    target_width: int,
    target_height: int,
    mode: DisplayMode,
) -> Seq<PageEntry>
    recommends
        0 <= index < pages.len(),
{
    match mode {
        DisplayMode::Single => pages.update(
            index,
            pages[index].spec_scale(target_width, target_height, false),
        ),
        DisplayMode::Dual => {
            let half = target_width / 2;
            let first = pages.update(index, pages[index].spec_scale(half, target_height, true));
            if index + 1 < pages.len() {
                first.update(index + 1, pages[index + 1].spec_scale(half, target_height, true))
            } else {
                first
            }
        },
    }
}

/// Rescales the page at `current_page_index` for single-page display. A
/// viewport smaller than one pixel in either direction, an empty list and an
/// index past the end are all quietly tolerated: nothing changes.
pub fn scale_page_for_single(
    pages: &mut Vec<PageEntry>,
    current_page_index: usize,
    target_width: i32,
    target_height: i32,
)
    requires
        pages_wf(old(pages)@),
    ensures
        pages_wf(final(pages)@),
        final(pages)@ == if target_width < 1 || target_height < 1 || old(pages)@.len() == 0
            || current_page_index as int >= old(pages)@.len() {
            old(pages)@
        } else {
            spec_scale_pass(
                old(pages)@,
                current_page_index as int,
                target_width as int,
                target_height as int,
                DisplayMode::Single,
            )
        },
{
    if target_width < 1 || target_height < 1 {
        return;
    }
    if pages.len() == 0 {
        return;
    }
    if current_page_index >= pages.len() {
        return;
    }
    let mut entry = pages[current_page_index];
    entry.scale(target_width, target_height, false);
    pages[current_page_index] = entry;
}

/// Rescales the page at `current_page_index` and, when one follows it, the
/// page of the spread's other half, each against half the viewport's width.
/// The index must be in range when the list has pages and the viewport is
/// drawable.
pub fn scale_page_for_dual(
    pages: &mut Vec<PageEntry>,
    current_page_index: usize,
    target_width: i32,
    target_height: i32,
)
    requires
        pages_wf(old(pages)@),
        target_width < 1 || target_height < 1 || old(pages)@.len() == 0 || (
        current_page_index as int) < old(pages)@.len(),
    ensures
        pages_wf(final(pages)@),
        final(pages)@ == if target_width < 1 || target_height < 1 || old(pages)@.len() == 0 {
            old(pages)@
        } else {
            spec_scale_pass(
                old(pages)@,
                current_page_index as int,
                target_width as int,
                target_height as int,
                DisplayMode::Dual,
            )
        },
{
    if target_width < 1 || target_height < 1 {
        return;
    }
    if pages.len() == 0 {
        return;
    }
    let final_target_width = target_width / 2;
    let mut entry = pages[current_page_index];
    entry.scale(final_target_width, target_height, true);
    pages[current_page_index] = entry;
    let next_index = current_page_index + 1;
    if next_index < pages.len() {
        let mut next_entry = pages[next_index];
        next_entry.scale(final_target_width, target_height, true);
        pages[next_index] = next_entry;
    }
}

/// How the store answered a terminal load message.
#[derive(Clone, Copy, Debug, PartialEq, Eq, Structural)]
pub enum AppliedOutcome {
    /// The message answered a superseded request, or none was in flight: it
    /// was dropped and the store is untouched.
    Stale,
    /// The load succeeded and its pages are installed; the count is for the
    /// caller's "loaded" notification.
    Loaded(usize),
    /// The load failed: the viewer stays empty, and the reason is for the
    /// caller's status display.
    Failed(LoadError),
}

/// The mutable, shared state of the viewer: the ordered page list, the
/// current page index, the display mode, and the in-flight load request, if
/// any.
pub struct PageStore {
    pub pages: Vec<PageEntry>,
    pub current_page_index: usize,
    pub display_mode: DisplayMode,
    /// True from the start of a load request until its terminal message is
    /// delivered; the caller shows a spinner while it holds.
    pub loading: bool,
    /// The id of the most recently issued load request; a terminal message
    /// carrying any other id is stale and is dropped.
    pub active_request: u64,
}

impl PageStore {
    /// The store's invariant: every page is well-formed, and the current
    /// index lies in `[0, len)` when pages are present and is pinned to 0
    /// when none are.
    pub open spec fn wf(&self) -> bool {
        &&& pages_wf(self.pages@)
        &&& (self.pages@.len() == 0 ==> self.current_page_index == 0)
        &&& (self.pages@.len() > 0 ==> (self.current_page_index as int) < self.pages@.len())
    }

    /// An empty store in the given display mode: no pages, index 0, no load
    /// in flight.
    pub fn new(display_mode: DisplayMode) -> (store: PageStore)
        ensures
            store.wf(),
            store.pages@.len() == 0,
            store.current_page_index == 0,
            store.display_mode == display_mode,
            !store.loading,
            store.active_request == 0,
    {
        PageStore {
            pages: Vec::new(),
            current_page_index: 0,
            display_mode,
            loading: false,
            active_request: 0,
        }
    }

    /// Starts a new load: supersedes any in-flight request, clears the page
    /// list, resets the index, raises the loading flag, and returns the
    /// fresh request id that this load's terminal message must carry.
    pub fn begin_load(&mut self) -> (request_id: u64)
        requires
            old(self).wf(),
        ensures
            final(self).wf(),
            final(self).pages@.len() == 0,
            final(self).current_page_index == 0,
            final(self).loading,
            final(self).display_mode == old(self).display_mode,
            final(self).active_request == request_id,
            request_id == if old(self).active_request == u64::MAX {
                0u64
            } else {
                (old(self).active_request + 1) as u64
            },
    {
        self.pages.clear();
        self.current_page_index = 0;
        self.loading = true;
        self.active_request = if self.active_request == u64::MAX {
            0
        } else {
            self.active_request + 1
        };
        self.active_request
    }

    /// Delivers a load's terminal message. A message whose request id is not
    /// the most recently issued one — or that arrives when no load is in
    /// flight — is stale: it is dropped and the store is left exactly as it
    /// was, so only the newest request's pages can ever become visible.
    /// A current success installs its pages with the index reset to 0; a
    /// current failure only ends the loading state, leaving the viewer
    /// empty.
    pub fn apply_outcome(&mut self, outcome: LoadOutcome) -> (r: AppliedOutcome)
        requires
            old(self).wf(),
            outcome.wf(),
        ensures
            final(self).wf(),
            final(self).display_mode == old(self).display_mode,
            final(self).active_request == old(self).active_request,
            (!old(self).loading || outcome.request_id != old(self).active_request) ==> (*final(self)
                == *old(self) && r == AppliedOutcome::Stale),
            (old(self).loading && outcome.request_id == old(self).active_request) ==> match outcome.result {
                LoadResult::Replaced(new_pages) => {
                    &&& final(self).pages == new_pages
                    &&& final(self).current_page_index == 0
                    &&& !final(self).loading
                    &&& r == AppliedOutcome::Loaded(new_pages@.len() as usize)
                },
                LoadResult::Failed(reason) => {
                    &&& final(self).pages == old(self).pages
                    &&& final(self).current_page_index == old(self).current_page_index
                    &&& !final(self).loading
                    &&& r == AppliedOutcome::Failed(reason)
                },
            },
    {
        if !self.loading || outcome.request_id != self.active_request {
            return AppliedOutcome::Stale;
        }
        match outcome.result {
            LoadResult::Replaced(new_pages) => {
                let count = new_pages.len();
                self.pages = new_pages;
                self.current_page_index = 0;
                self.loading = false;
                AppliedOutcome::Loaded(count)
            },
            LoadResult::Failed(reason) => {
                self.loading = false;
                AppliedOutcome::Failed(reason)
            },
        }
    }

    /// Turns the page by a signed step against the given viewport. The move
    /// is rejected — and the store left untouched — when the step is 0, the
    /// list is empty, or the target index would leave `[0, len)`: stepping
    /// past either end is a no-op, not a clamp. An accepted move sets the
    /// index and rescales the newly current page (and its spread partner in
    /// dual mode).
    pub fn move_page(&mut self, n: i32, target_width: i32, target_height: i32) -> (moved: bool)
        requires
            old(self).wf(),
        ensures
            final(self).wf(),
            final(self).display_mode == old(self).display_mode,
            final(self).loading == old(self).loading,
            final(self).active_request == old(self).active_request,
            moved <==> (n != 0 && old(self).pages@.len() > 0 && 0 <= old(
                self,
            ).current_page_index as int + n as int && (old(self).current_page_index as int
                + n as int) < old(self).pages@.len()),
            !moved ==> *final(self) == *old(self),
            n == 0 ==> *final(self) == *old(self),
            old(self).current_page_index == 0 && n < 0 ==> *final(self) == *old(self),
            moved ==> final(self).current_page_index as int == old(self).current_page_index as int
                + n as int,
            moved ==> final(self).pages@ == spec_scale_pass(
                old(self).pages@,
                old(self).current_page_index as int + n as int,
                target_width as int,
                target_height as int,
                old(self).display_mode,
            ),
    {
        if n == 0 {
            return false;
        }
        if self.pages.len() == 0 {
            return false;
        }
        let size = self.pages.len();
        let i = self.current_page_index;
        if i == 0 && n < 0 {
            return false;
        }
        let result: usize;
        if n > 0 {
            let step = n as usize;
            if size - i <= step {
                return false;
            }
            result = i + step;
        } else {
            let step = (-(n as i64)) as usize;
            if step > i {
                return false;
            }
            result = i - step;
        }
        self.current_page_index = result;
        match self.display_mode {
            DisplayMode::Dual => {
                scale_page_for_dual(&mut self.pages, result, target_width, target_height);
            },
            DisplayMode::Single => {
                scale_page_for_single(&mut self.pages, result, target_width, target_height);
            },
        }
        true
    }

    /// Rescales the current page (and its spread partner in dual mode) for a
    /// new viewport size, leaving the index alone. An empty store no-ops.
    pub fn resize(&mut self, target_width: i32, target_height: i32)
        requires
            old(self).wf(),
        ensures
            final(self).wf(),
            final(self).current_page_index == old(self).current_page_index,
            final(self).display_mode == old(self).display_mode,
            final(self).loading == old(self).loading,
            final(self).active_request == old(self).active_request,
            final(self).pages@ == if target_width < 1 || target_height < 1 || old(
                self,
            ).pages@.len() == 0 {
                old(self).pages@
            } else {
                spec_scale_pass(
                    old(self).pages@,
                    old(self).current_page_index as int,
                    target_width as int,
                    target_height as int,
                    old(self).display_mode,
                )
            },
    {
        match self.display_mode {
            DisplayMode::Dual => {
                scale_page_for_dual(
                    &mut self.pages,
                    self.current_page_index,
                    target_width,
                    target_height,
                );
            },
            DisplayMode::Single => {
                scale_page_for_single(
                    &mut self.pages,
                    self.current_page_index,
                    target_width,
                    target_height,
                );
            },
        }
    }

    /// Switches between single-page and dual-page display and rescales the
    /// current page (and its new spread partner) for the new mode.
    pub fn toggle_dual_mode(&mut self, target_width: i32, target_height: i32)
        requires
            old(self).wf(),
        ensures
            final(self).wf(),
            final(self).current_page_index == old(self).current_page_index,
            final(self).loading == old(self).loading,
            final(self).active_request == old(self).active_request,
            final(self).display_mode == (match old(self).display_mode {
                DisplayMode::Single => DisplayMode::Dual,
                DisplayMode::Dual => DisplayMode::Single,
            }),
            final(self).pages@ == if target_width < 1 || target_height < 1 || old(
                self,
            ).pages@.len() == 0 {
                old(self).pages@
            } else {
                spec_scale_pass(
                    old(self).pages@,
                    old(self).current_page_index as int,
                    target_width as int,
                    target_height as int,
                    final(self).display_mode,
                )
            },
    {
        self.display_mode = match self.display_mode {
            DisplayMode::Single => DisplayMode::Dual,
            DisplayMode::Dual => DisplayMode::Single,
        };
        self.resize(target_width, target_height);
    }
}

/// The fraction of the set a just-reached page stands at, as a ratio for a
/// progress bar: 1 when the page (or its spread) touches the end of the set,
/// 0 at the first page, and `(index + step) / size` in between, where the
/// step is 2 for a dual-page spread and 1 otherwise.
pub fn page_progress(current_page_index: usize, size: usize, is_dual_mode: bool) -> (f: (u64, u64))
    requires
        (current_page_index as int) < size as int,
    ensures
        ({
            let step: int = if is_dual_mode {
                2
            } else {
                1
            };
            if current_page_index as int + step >= size as int {
                f == (1u64, 1u64)
            } else if current_page_index == 0 {
                f == (0u64, 1u64)
            } else {
                f == ((current_page_index as int + step) as u64, size as u64)
            }
        }),
{
    let step: u64 = if is_dual_mode {
        2
    } else {
        1
    };
    if (size - current_page_index) as u64 <= step {
        (1, 1)
    } else if current_page_index == 0 {
        (0, 1)
    } else {
        (current_page_index as u64 + step, size as u64)
    }
}

} // verus!
