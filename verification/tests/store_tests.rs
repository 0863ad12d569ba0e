use simple_comics_viewer::loader::{LoadError, LoadOutcome, LoadResult};
use simple_comics_viewer::page::{DecodedImage, PageEntry};
use simple_comics_viewer::store::{
    page_progress, scale_page_for_dual, scale_page_for_single, AppliedOutcome, DisplayMode,
    PageStore,
};

fn image(width: i32, height: i32) -> DecodedImage {
    DecodedImage { width, height, has_alpha: false }
}

fn store_with_pages(count: usize, mode: DisplayMode) -> PageStore {
    let mut store = PageStore::new(mode);
    let mut pages = Vec::new();
    for _ in 0..count {
        pages.push(PageEntry::new(image(800, 600)));
    }
    store.pages = pages;
    store
}

#[test]
fn move_by_zero_is_always_a_no_op() {
    let mut store = store_with_pages(3, DisplayMode::Single);
    store.current_page_index = 1;
    assert!(!store.move_page(0, 1000, 500));
    assert_eq!(store.current_page_index, 1);

    let mut empty = PageStore::new(DisplayMode::Dual);
    assert!(!empty.move_page(0, 1000, 500));
    assert_eq!(empty.current_page_index, 0);
}

#[test]
fn move_backwards_from_first_page_is_a_no_op() {
    let mut store = store_with_pages(3, DisplayMode::Single);
    assert!(!store.move_page(-1, 1000, 500));
    assert_eq!(store.current_page_index, 0);
    let mut dual = store_with_pages(5, DisplayMode::Dual);
    assert!(!dual.move_page(-2, 1000, 500));
    assert_eq!(dual.current_page_index, 0);
}

#[test]
fn move_on_empty_store_is_a_no_op() {
    let mut store = PageStore::new(DisplayMode::Single);
    assert!(!store.move_page(1, 1000, 500));
    assert_eq!(store.current_page_index, 0);
}

#[test]
fn move_past_the_end_is_rejected_not_clamped() {
    let mut store = store_with_pages(3, DisplayMode::Single);
    store.current_page_index = 2;
    assert!(!store.move_page(1, 1000, 500));
    assert_eq!(store.current_page_index, 2);
    // a dual-mode double step from the second-to-last page is rejected too
    let mut dual = store_with_pages(3, DisplayMode::Dual);
    dual.current_page_index = 1;
    assert!(!dual.move_page(2, 1000, 500));
    assert_eq!(dual.current_page_index, 1);
}

#[test]
fn move_before_the_start_is_rejected() {
    let mut store = store_with_pages(5, DisplayMode::Single);
    store.current_page_index = 1;
    assert!(!store.move_page(-2, 1000, 500));
    assert_eq!(store.current_page_index, 1);
}

#[test]
fn index_stays_in_range_over_many_moves() {
    let mut store = store_with_pages(4, DisplayMode::Single);
    for step in [1, 1, 1, 1, 1, -1, -1, 5, -5, 2, 3, -3] {
        store.move_page(step, 1000, 500);
        assert!(store.current_page_index < store.pages.len());
    }
}

#[test]
fn accepted_move_sets_index_and_rescales_the_new_page() {
    let mut store = store_with_pages(3, DisplayMode::Single);
    assert!(store.move_page(1, 1000, 500));
    assert_eq!(store.current_page_index, 1);
    let scaled = store.pages[1].scaled.unwrap();
    assert_eq!((scaled.width, scaled.height), (1000, 750));
    assert!(store.pages[0].scaled.is_none());
}

#[test]
fn dual_move_rescales_the_spread_at_half_width() {
    let mut store = store_with_pages(4, DisplayMode::Dual);
    assert!(store.move_page(2, 1000, 800));
    assert_eq!(store.current_page_index, 2);
    // half width 500: candidate = ceil(500 * 600 / 800) = 375 <= 800
    let right = store.pages[2].scaled.unwrap();
    let left = store.pages[3].scaled.unwrap();
    assert_eq!((right.width, right.height), (500, 375));
    assert_eq!((left.width, left.height), (500, 375));
}

#[test]
fn scale_page_helpers_tolerate_bad_input() {
    let mut pages = vec![PageEntry::new(image(800, 600))];
    scale_page_for_single(&mut pages, 0, 0, 500);
    assert!(pages[0].scaled.is_none());
    scale_page_for_single(&mut pages, 7, 1000, 500);
    assert!(pages[0].scaled.is_none());
    let mut no_pages: Vec<PageEntry> = Vec::new();
    scale_page_for_dual(&mut no_pages, 0, 1000, 500);
    assert!(no_pages.is_empty());
}

#[test]
fn dual_scale_at_last_page_scales_only_the_right_page() {
    let mut pages = vec![PageEntry::new(image(800, 600)), PageEntry::new(image(800, 600))];
    scale_page_for_dual(&mut pages, 1, 1000, 800);
    assert!(pages[0].scaled.is_none());
    assert!(pages[1].scaled.is_some());
}

#[test]
fn begin_load_clears_and_supersedes() {
    let mut store = store_with_pages(3, DisplayMode::Single);
    store.current_page_index = 2;
    let id = store.begin_load();
    assert_eq!(store.pages.len(), 0);
    assert_eq!(store.current_page_index, 0);
    assert!(store.loading);
    assert_eq!(store.active_request, id);
    let id2 = store.begin_load();
    assert_ne!(id, id2);
}

#[test]
fn successful_outcome_installs_pages() {
    let mut store = PageStore::new(DisplayMode::Single);
    let id = store.begin_load();
    let pages = vec![PageEntry::new(image(800, 600)), PageEntry::new(image(640, 480))];
    let applied = store.apply_outcome(LoadOutcome {
        request_id: id,
        result: LoadResult::Replaced(pages),
    });
    assert_eq!(applied, AppliedOutcome::Loaded(2));
    assert_eq!(store.pages.len(), 2);
    assert_eq!(store.current_page_index, 0);
    assert!(!store.loading);
}

#[test]
fn failed_outcome_leaves_the_viewer_empty() {
    let mut store = store_with_pages(2, DisplayMode::Single);
    let id = store.begin_load();
    let applied = store.apply_outcome(LoadOutcome {
        request_id: id,
        result: LoadResult::Failed(LoadError::Enumeration),
    });
    assert_eq!(applied, AppliedOutcome::Failed(LoadError::Enumeration));
    assert_eq!(store.pages.len(), 0);
    assert!(!store.loading);
}

#[test]
fn stale_outcome_is_dropped_and_only_newest_pages_become_visible() {
    let mut store = PageStore::new(DisplayMode::Single);
    let first = store.begin_load();
    let second = store.begin_load();
    // the first worker finishes late: its pages must never become visible
    let stale = store.apply_outcome(LoadOutcome {
        request_id: first,
        result: LoadResult::Replaced(vec![PageEntry::new(image(100, 100))]),
    });
    assert_eq!(stale, AppliedOutcome::Stale);
    assert_eq!(store.pages.len(), 0);
    assert!(store.loading);
    // the second worker's result is current and installs
    let applied = store.apply_outcome(LoadOutcome {
        request_id: second,
        result: LoadResult::Replaced(vec![PageEntry::new(image(200, 200))]),
    });
    assert_eq!(applied, AppliedOutcome::Loaded(1));
    assert_eq!(store.pages[0].original.width, 200);
}

#[test]
fn success_with_no_pages_leaves_the_viewer_empty() {
    let mut store = PageStore::new(DisplayMode::Single);
    let id = store.begin_load();
    let applied = store.apply_outcome(LoadOutcome {
        request_id: id,
        result: LoadResult::Replaced(Vec::new()),
    });
    assert_eq!(applied, AppliedOutcome::Loaded(0));
    assert_eq!(store.pages.len(), 0);
    assert_eq!(store.current_page_index, 0);
    assert!(!store.loading);
}

#[test]
fn outcome_without_a_load_in_flight_is_stale() {
    let mut store = PageStore::new(DisplayMode::Single);
    let applied = store.apply_outcome(LoadOutcome {
        request_id: store.active_request,
        result: LoadResult::Replaced(vec![PageEntry::new(image(100, 100))]),
    });
    assert_eq!(applied, AppliedOutcome::Stale);
    assert_eq!(store.pages.len(), 0);
}

#[test]
fn resize_rescales_current_page_without_moving() {
    let mut store = store_with_pages(3, DisplayMode::Single);
    store.current_page_index = 1;
    store.resize(400, 300);
    assert_eq!(store.current_page_index, 1);
    let scaled = store.pages[1].scaled.unwrap();
    assert_eq!((scaled.width, scaled.height), (400, 300));
    assert!(store.pages[0].scaled.is_none());
}

#[test]
fn toggle_switches_mode_and_rescales_for_it() {
    let mut store = store_with_pages(2, DisplayMode::Single);
    store.toggle_dual_mode(1000, 800);
    assert_eq!(store.display_mode, DisplayMode::Dual);
    let right = store.pages[0].scaled.unwrap();
    assert_eq!((right.width, right.height), (500, 375));
    store.toggle_dual_mode(1000, 800);
    assert_eq!(store.display_mode, DisplayMode::Single);
}

#[test]
fn progress_fraction_cases() {
    assert_eq!(page_progress(0, 10, false), (0, 1));
    assert_eq!(page_progress(5, 10, false), (6, 10));
    assert_eq!(page_progress(9, 10, false), (1, 1));
    assert_eq!(page_progress(4, 10, true), (6, 10));
    assert_eq!(page_progress(8, 10, true), (1, 1));
    assert_eq!(page_progress(0, 1, false), (1, 1));
}
