use simple_comics_viewer::page::{DecodedImage, PageEntry};
use simple_comics_viewer::render::RenderPlan;
use simple_comics_viewer::store::{DisplayMode, PageStore};

fn scaled_page(width: i32, height: i32) -> PageEntry {
    let img = DecodedImage { width, height, has_alpha: false };
    PageEntry { original: img, scaled: Some(img) }
}

#[test]
fn empty_store_has_nothing_to_render() {
    let store = PageStore::new(DisplayMode::Single);
    assert!(store.current_renderable(1000, 800).is_none());
    let dual = PageStore::new(DisplayMode::Dual);
    assert!(dual.current_renderable(1000, 800).is_none());
}

#[test]
fn unscaled_page_is_not_renderable_yet() {
    let mut store = PageStore::new(DisplayMode::Single);
    store.pages = vec![PageEntry::new(DecodedImage { width: 10, height: 10, has_alpha: false })];
    assert!(store.current_renderable(1000, 800).is_none());
}

#[test]
fn single_plan_centres_the_page() {
    let mut store = PageStore::new(DisplayMode::Single);
    store.pages = vec![scaled_page(400, 300)];
    match store.current_renderable(1000, 500) {
        Some(RenderPlan::Single { image, position }) => {
            assert_eq!((image.width, image.height), (400, 300));
            assert_eq!((position.x, position.y), (300, 100));
        },
        _ => panic!("expected a single-page plan"),
    }
}

#[test]
fn dual_plan_at_last_odd_page_has_no_left_image() {
    // three pages in dual mode, current at the last: the spread has a right
    // page only, centred vertically, right-aligned at the spread boundary
    let mut store = PageStore::new(DisplayMode::Dual);
    store.pages = vec![scaled_page(450, 750), scaled_page(450, 750), scaled_page(450, 750)];
    store.current_page_index = 2;
    match store.current_renderable(1000, 800) {
        Some(RenderPlan::Dual { right, right_position, left }) => {
            assert!(left.is_none());
            assert_eq!((right.width, right.height), (450, 750));
            assert_eq!(right_position.x, 500);
            assert_eq!(right_position.y, 25);
        },
        _ => panic!("expected a dual-page plan"),
    }
}

#[test]
fn dual_plan_with_unscaled_left_page_draws_right_alone_at_top() {
    let mut store = PageStore::new(DisplayMode::Dual);
    store.pages = vec![
        scaled_page(450, 750),
        PageEntry::new(DecodedImage { width: 10, height: 10, has_alpha: false }),
    ];
    match store.current_renderable(1000, 800) {
        Some(RenderPlan::Dual { right_position, left, .. }) => {
            assert!(left.is_none());
            assert_eq!((right_position.x, right_position.y), (500, 0));
        },
        _ => panic!("expected a dual-page plan"),
    }
}

#[test]
fn dual_plan_of_full_spread_places_left_then_right() {
    let mut store = PageStore::new(DisplayMode::Dual);
    // right page is the current index, left page follows it
    store.pages = vec![scaled_page(450, 750), scaled_page(400, 700)];
    match store.current_renderable(1000, 800) {
        Some(RenderPlan::Dual { right, right_position, left }) => {
            assert_eq!((right.width, right.height), (450, 750));
            let (left_img, left_position) = left.unwrap();
            assert_eq!((left_img.width, left_img.height), (400, 700));
            // shared margin = (1000 - 850) / 2 = 75
            assert_eq!((left_position.x, left_position.y), (75, 50));
            // the right page starts right after the left page's width
            assert_eq!((right_position.x, right_position.y), (475, 25));
        },
        _ => panic!("expected a dual-page plan"),
    }
}

#[test]
fn dual_plan_left_page_filling_its_half_starts_at_zero() {
    let mut store = PageStore::new(DisplayMode::Dual);
    store.pages = vec![scaled_page(600, 750), scaled_page(700, 700)];
    match store.current_renderable(1000, 800) {
        Some(RenderPlan::Dual { right_position, left, .. }) => {
            let (_, left_position) = left.unwrap();
            assert_eq!(left_position.x, 0);
            // the left page overflows the half width: the right page starts
            // directly after it
            assert_eq!(right_position.x, 700);
        },
        _ => panic!("expected a dual-page plan"),
    }
}

#[test]
fn oversized_right_page_paints_from_the_left_edge() {
    let mut store = PageStore::new(DisplayMode::Dual);
    store.pages = vec![scaled_page(900, 700)];
    match store.current_renderable(1000, 800) {
        Some(RenderPlan::Dual { right_position, left, .. }) => {
            assert!(left.is_none());
            assert_eq!(right_position.x, 0);
        },
        _ => panic!("expected a dual-page plan"),
    }
}
