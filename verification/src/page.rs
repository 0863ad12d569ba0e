//! Pages: a decoded raster image as the core sees it, and the page entry
//! that owns an immutable original together with the scaled image the layout
//! engine derives from it.

use vstd::prelude::*;
use crate::layout::{
    lemma_scale_dual_at_least_one, lemma_scale_single_fills_viewport, scale_dual_size,
    scale_single_size, size_fits, spec_scale_dual, spec_scale_single,
};

verus! {

/// A decoded raster image: its dimensions and whether it carries
/// transparency. Decoding raw bytes into pixels is an external capability;
/// the geometry in this crate needs only these values.
#[derive(Clone, Copy, Debug, PartialEq, Eq, Structural)]
pub struct DecodedImage {
    pub width: i32,
    pub height: i32,
    pub has_alpha: bool,
}

impl DecodedImage {
    /// A decoded raster has at least one pixel in each direction.
    pub open spec fn wf(&self) -> bool {
        1 <= self.width && 1 <= self.height
    }

    /// Wraps the dimensions a decoder reported; a report with an empty or
    /// negative axis is a failed decode and yields `None`.
    pub fn new(width: i32, height: i32, has_alpha: bool) -> (r: Option<DecodedImage>)
        ensures
            r is Some <==> (1 <= width && 1 <= height),
            r matches Some(img) ==> img == (DecodedImage { width, height, has_alpha }) && img.wf(),
    {
        if width < 1 || height < 1 {
            return None;
        }
        Some(DecodedImage { width, height, has_alpha })
    }

    /// A raster rendered from a document page: the renderer reports the
    /// dimensions and the number of colour components per pixel, 3 for RGB
    /// and 4 for RGBA. Any other component count (a grayscale raster, say)
    /// cannot be displayed and is rejected; transparency is present exactly
    /// when there are 4 components.
    pub fn from_pdf_raster(width: i32, height: i32, components: i32) -> (r: Option<DecodedImage>)
        ensures
            r is Some <==> (1 <= width && 1 <= height && (components == 3 || components == 4)),
            r matches Some(img) ==> img == (DecodedImage {
                width,
                height,
                has_alpha: components == 4,
            }) && img.wf(),
    {
        if components != 3 && components != 4 {
            return None;
        }
        DecodedImage::new(width, height, components == 4)
    }
}

/// All pages of a sequence are well-formed.
pub open spec fn pages_wf(pages: Seq<PageEntry>) -> bool {
    forall|i: int| 0 <= i < pages.len() ==> (#[trigger] pages[i]).wf()
}

/// One page of the set: the immutable decoded original, and the scaled image
/// derived from it once a layout pass has run. A page with no scaled image
/// yet is not renderable and is skipped by the drawing side.
#[derive(Clone, Copy, Debug)]
pub struct PageEntry {
    pub original: DecodedImage,
    pub scaled: Option<DecodedImage>,
}

impl PageEntry {
    /// Both the original and, when present, the scaled image are proper
    /// rasters.
    pub open spec fn wf(&self) -> bool {
        &&& self.original.wf()
        &&& (self.scaled matches Some(s) ==> s.wf())
    }

    /// A freshly loaded page: not yet scaled.
    pub fn new(original: DecodedImage) -> (e: PageEntry)
        ensures
            e.original == original,
            e.scaled is None,
    {
        PageEntry { original, scaled: None }
    }

    /// The size the next layout pass will give this page, by mode.
    pub open spec fn spec_scaled_size(
        &self,
        target_width: int,
        target_height: int,
        is_dual_mode: bool,
    ) -> (int, int) {
        if is_dual_mode {
            spec_scale_dual(
                self.original.width as int,
                self.original.height as int,
                target_width,
                target_height,
            )
        } else {
            spec_scale_single(
                self.original.width as int,
                self.original.height as int,
                target_width,
                target_height,
            )
        }
    }

    /// The entry a layout pass leaves behind: unchanged when the viewport is
    /// smaller than one pixel in either direction or the exact size will not
    /// fit a raster dimension, otherwise the same original with a freshly
    /// scaled image.
    pub open spec fn spec_scale(
        self,
        target_width: int,
        target_height: int,
        is_dual_mode: bool,
    ) -> PageEntry {
        let size = self.spec_scaled_size(target_width, target_height, is_dual_mode);
        if target_width < 1 || target_height < 1 || !size_fits(size) {
            self
        } else {
            PageEntry {
                original: self.original,
                scaled: Some(
                    DecodedImage {
                        width: size.0 as i32,
                        height: size.1 as i32,
                        has_alpha: self.original.has_alpha,
                    },
                ),
            }
        }
    }

    /// Recomputes the scaled image for a viewport: in single mode the
    /// orientation rule fills the longer axis, in dual mode the width-first
    /// rule fills the half-viewport width unless the height budget overflows.
    /// A viewport smaller than one pixel in either direction, like a size the
    /// raster library cannot represent, leaves the previous scaled image in
    /// place.
    pub fn scale(&mut self, target_width: i32, target_height: i32, is_dual_mode: bool)
        requires
            old(self).wf(),
        ensures
            final(self).wf(),
            *final(self) == old(self).spec_scale(
                target_width as int,
                target_height as int,
                is_dual_mode,
            ),
    {
        if target_width < 1 || target_height < 1 {
            return;
        }
        proof {
            if is_dual_mode {
                lemma_scale_dual_at_least_one(
                    self.original.width as int,
                    self.original.height as int,
                    target_width as int,
                    target_height as int,
                );
            } else {
                lemma_scale_single_fills_viewport(
                    self.original.width as int,
                    self.original.height as int,
                    target_width as int,
                    target_height as int,
                );
            }
        }
        let resized = if is_dual_mode {
            scale_dual_size(self.original.width, self.original.height, target_width, target_height)
        } else {
            scale_single_size(
                self.original.width,
                self.original.height,
                target_width,
                target_height,
            )
        };
        match resized {
            Some((width, height)) => {
                self.scaled = Some(
                    DecodedImage { width, height, has_alpha: self.original.has_alpha },
                );
            },
            None => {},
        }
    }

    /// The width of the scaled image, if a layout pass has produced one.
    pub fn get_modified_width(&self) -> (r: Option<i32>)
        ensures
            r == match self.scaled {
                Some(s) => Some(s.width),
                None => None::<i32>,
            },
    {
        match self.scaled {
            Some(s) => Some(s.width),
            None => None,
        }
    }

    /// The height of the scaled image, if a layout pass has produced one.
    pub fn get_modified_height(&self) -> (r: Option<i32>)
        ensures
            r == match self.scaled {
                Some(s) => Some(s.height),
                None => None::<i32>,
            },
    {
        match self.scaled {
            Some(s) => Some(s.height),
            None => None,
        }
    }

    /// The scaled image itself, if a layout pass has produced one.
    pub fn get_scaled(&self) -> (r: Option<DecodedImage>)
        ensures
            r == self.scaled,
    {
        self.scaled
    }

    /// The width of the immutable original.
    pub fn get_orig_width(&self) -> (r: i32)
        ensures
            r == self.original.width,
    {
        self.original.width
    }

    /// The height of the immutable original.
    pub fn get_orig_height(&self) -> (r: i32)
        ensures
            r == self.original.height,
    {
        self.original.height
    }
}

} // verus!
