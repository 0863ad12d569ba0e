//! What the renderer should paint for the current page: the scaled images
//! and the exact positions the drawing code places them at, computed here so
//! that the painting side only copies pixels.
//!
//! A spread is right-to-left: the page at the current index is the right
//! page, the one after it the left page of the same spread. The right page
//! is right-aligned against the spread boundary (the drawing area's middle)
//! whenever it fits in the half width.

use vstd::prelude::*;
use crate::layout::{calc_margin_for_dual, calc_margin_for_single, spec_center_offset};
use vstd::arithmetic::div_mod::lemma_div_nonincreasing;
use crate::page::{DecodedImage, PageEntry};
use crate::store::{DisplayMode, PageStore};

verus! {

/// The top-left corner a scaled image is painted at.
#[derive(Clone, Copy, Debug, PartialEq, Eq, Structural)]
pub struct PaintPosition {
    pub x: i32,
    pub y: i32,
}

/// What to paint: one centred page, or a spread of a right page and — when
/// the spread has one and it is scaled already — a left page. A plan is only
/// produced for a page whose scaled image exists; the caller skips the draw
/// otherwise.
#[derive(Clone, Copy, Debug)]
pub enum RenderPlan {
    Single { image: DecodedImage, position: PaintPosition },
    Dual {
        right: DecodedImage,
        right_position: PaintPosition,
        left: Option<(DecodedImage, PaintPosition)>,
    },
}

/// Half the drawing area's width: the spread boundary. A degenerate area
/// (the width 0 a not-yet-realized widget reports) has it at 0.
pub open spec fn spec_half_width(area_width: int) -> int {
    if area_width < 1 {
        0
    } else {
        area_width / 2
    }
}

/// The plan single-page display draws: the current page's scaled image,
/// centred in the area, or nothing when there are no pages or the current
/// page is not scaled yet.
pub open spec fn spec_single_plan(
    pages: Seq<PageEntry>,
    index: int,
    area_width: int,
    area_height: int,
) -> Option<RenderPlan> {
    if pages.len() == 0 || !(pages[index].scaled is Some) {
        None
    } else {
        let image = pages[index].scaled.unwrap();
        Some(
            RenderPlan::Single {
                image,
                position: PaintPosition {
                    x: spec_center_offset(area_width, image.width as int) as i32,
                    y: spec_center_offset(area_height, image.height as int) as i32,
                },
            },
        )
    }
}

/// The plan dual-page display draws. The right page is placed at the spread
/// boundary when it fits the half width and at 0 otherwise. At the final odd
/// page — no page follows the current one — the spread has no left page and
/// the right page is centred vertically on its own. A spread whose left page
/// is not scaled yet is painted with the right page alone at the top. A full
/// spread is centred by the combined width: the left page starts at the
/// shared margin (at 0 when it fills its half), and the right page follows
/// immediately after the left page's width.
pub open spec fn spec_dual_plan(
    pages: Seq<PageEntry>,
    index: int,
    area_width: int,
    area_height: int,
) -> Option<RenderPlan> {
    let half = spec_half_width(area_width);
    if pages.len() == 0 || !(pages[index].scaled is Some) {
        None
    } else {
        let right = pages[index].scaled.unwrap();
        let right_aligned_x = if right.width <= half {
            half
        } else {
            0
        };
        if index + 1 >= pages.len() {
            Some(
                RenderPlan::Dual {
                    right,
                    right_position: PaintPosition {
                        x: right_aligned_x as i32,
                        y: spec_center_offset(area_height, right.height as int) as i32,
                    },
                    left: None,
                },
            )
        } else if !(pages[index + 1].scaled is Some) {
            Some(
                RenderPlan::Dual {
                    right,
                    right_position: PaintPosition { x: right_aligned_x as i32, y: 0 },
                    left: None,
                },
            )
        } else {
            let left = pages[index + 1].scaled.unwrap();
            let shared_margin = spec_center_offset(area_width, left.width + right.width as int);
            let left_x = if left.width >= half {
                0
            } else {
                shared_margin
            };
            let right_x = if left.width > half {
                left_x + left.width
            } else {
                shared_margin + left.width
            };
            Some(
                RenderPlan::Dual {
                    right,
                    right_position: PaintPosition {
                        x: right_x as i32,
                        y: spec_center_offset(area_height, right.height as int) as i32,
                    },
                    left: Some(
                        (
                            left,
                            PaintPosition {
                                x: left_x as i32,
                                y: spec_center_offset(area_height, left.height as int) as i32,
                            },
                        ),
                    ),
                },
            )
        }
    }
}

/// The plan the current display mode draws for the current page.
pub open spec fn spec_render_plan(store: PageStore, area_width: int, area_height: int) -> Option<
    RenderPlan,
> {
    match store.display_mode {
        DisplayMode::Single => spec_single_plan(
            store.pages@,
            store.current_page_index as int,
            area_width,
            area_height,
        ),
        DisplayMode::Dual => spec_dual_plan(
            store.pages@,
            store.current_page_index as int,
            area_width,
            area_height,
        ),
    }
}

impl PageStore {
    /// What the renderer should draw right now: the current page centred in
    /// single mode; in dual mode the spread of the current page (right) and
    /// its follower (left), the left image absent at the final odd page.
    /// `None` when there are no pages or the current page has no scaled
    /// image yet — the caller then leaves the previous frame alone.
    pub fn current_renderable(&self, area_width: i32, area_height: i32) -> (plan: Option<
        RenderPlan,
    >)
        requires
            self.wf(),
        ensures
            plan == spec_render_plan(*self, area_width as int, area_height as int),
    {
        match self.display_mode {
            DisplayMode::Single => self.single_page_plan(area_width, area_height),
            DisplayMode::Dual => self.dual_page_plan(area_width, area_height),
        }
    }

    /// The single-page plan: the current page's scaled image, centred.
    fn single_page_plan(&self, area_width: i32, area_height: i32) -> (plan: Option<RenderPlan>)
        requires
            self.wf(),
        ensures
            plan == spec_single_plan(
                self.pages@,
                self.current_page_index as int,
                area_width as int,
                area_height as int,
            ),
    {
        if self.pages.len() == 0 {
            return None;
        }
        let entry = &self.pages[self.current_page_index];
        match entry.scaled {
            None => None,
            Some(image) => {
                let margin = calc_margin_for_single(
                    image.width,
                    image.height,
                    area_width,
                    area_height,
                );
                Some(
                    RenderPlan::Single {
                        image,
                        position: PaintPosition { x: margin.left_margin, y: margin.top_margin },
                    },
                )
            },
        }
    }

    /// The dual-page plan: right page at the spread boundary, left page
    /// beside it when the spread has one.
    fn dual_page_plan(&self, area_width: i32, area_height: i32) -> (plan: Option<RenderPlan>)
        requires
            self.wf(),
        ensures
            plan == spec_dual_plan(
                self.pages@,
                self.current_page_index as int,
                area_width as int,
                area_height as int,
            ),
    {
        if self.pages.len() == 0 {
            return None;
        }
        let half_area_width: i32 = if area_width < 1 {
            0
        } else {
            area_width / 2
        };
        let right_index = self.current_page_index;
        let left_index = right_index + 1;
        let right = match self.pages[right_index].scaled {
            None => {
                return None;
            },
            Some(image) => image,
        };
        let right_aligned_x = if right.width <= half_area_width {
            half_area_width
        } else {
            0
        };
        if left_index >= self.pages.len() {
            let margin = calc_margin_for_single(right.width, right.height, area_width, area_height);
            return Some(
                RenderPlan::Dual {
                    right,
                    right_position: PaintPosition { x: right_aligned_x, y: margin.top_margin },
                    left: None,
                },
            );
        }
        let left = match self.pages[left_index].scaled {
            None => {
                return Some(
                    RenderPlan::Dual {
                        right,
                        right_position: PaintPosition { x: right_aligned_x, y: 0 },
                        left: None,
                    },
                );
            },
            Some(image) => image,
        };
        let margin = calc_margin_for_dual(
            left.width,
            left.height,
            right.width,
            right.height,
            area_width,
            area_height,
        );
        let left_x = if left.width >= half_area_width {
            0
        } else {
            margin.left_margin
        };
        proof {
            if margin.left_margin > 0 {
                lemma_div_nonincreasing(
                    area_width as int - (left.width as int + right.width as int),
                    2,
                );
            }
        }
        let right_x: i32 = if left.width > half_area_width {
            left_x + left.width
        } else {
            margin.left_margin + left.width
        };
        Some(
            RenderPlan::Dual {
                right,
                right_position: PaintPosition { x: right_x, y: margin.top_margin_for_right },
                left: Some(
                    (left, PaintPosition { x: left_x, y: margin.top_margin_for_left }),
                ),
            },
        )
    }
}

} // verus!
