//! The layout of a sheet: its size and the rectangles of its regions, which
//! are looked up by their position.

use vstd::prelude::*;
use crate::error::KenneySpriteSheetAssetLoaderError;
use crate::geometry::Rect;
use crate::sub_texture::{sub_textures_view, SubTexture, SubTextureView};

verus! {

/// The rectangles of a sheet's regions, in the order in which they were
/// added, with the sheet's size in pixels.
#[derive(Clone, Debug, PartialEq, Eq)]
pub struct AtlasLayout {
    pub width: u32,
    pub height: u32,
    pub textures: Vec<Rect>,
}

pub struct AtlasLayoutView {
    pub width: u32,
    pub height: u32,
    pub textures: Seq<Rect>,
}

impl View for AtlasLayout {
    type V = AtlasLayoutView;

    open spec fn view(&self) -> AtlasLayoutView {
        AtlasLayoutView { width: self.width, height: self.height, textures: self.textures@ }
    }
}

impl AtlasLayoutView {
    /// Whether every rectangle lies on the sheet.
    pub open spec fn within_sheet(self) -> bool {
        forall|i: int|
            0 <= i < self.textures.len() ==> (#[trigger] self.textures[i]).max_x <= self.width
                && self.textures[i].max_y <= self.height
    }

    /// The layout of a sheet of the given size whose rectangles are those of
    /// `textures`, in the same order; `None` where the far corner of one of
    /// them does not fit in `u32`.
    pub open spec fn of_sub_textures(width: u32, height: u32, textures: Seq<SubTextureView>) -> Option<
        AtlasLayoutView,
    > {
        if forall|i: int| 0 <= i < textures.len() ==> (#[trigger] textures[i]).rect() is Some {
            Some(
                AtlasLayoutView {
                    width,
                    height,
                    textures: Seq::new(textures.len(), |i: int| textures[i].rect()->Some_0),
                },
            )
        } else {
            None
        }
    }
}

impl AtlasLayout {
    /// A layout without rectangles for a sheet of the given size.
    pub fn new_empty(width: u32, height: u32) -> (layout: AtlasLayout)
        ensures
            layout@ == (AtlasLayoutView { width, height, textures: Seq::empty() }),
    {
        AtlasLayout { width, height, textures: Vec::new() }
    }

    /// Appends a rectangle and returns its position. The rectangle is taken
    /// as it is: it is neither clipped to the sheet nor compared with the
    /// others.
    pub fn add_texture(&mut self, rect: Rect) -> (index: usize)
        ensures
            final(self)@ == (AtlasLayoutView {
                width: old(self).width,
                height: old(self).height,
                textures: old(self)@.textures.push(rect),
            }),
            index == old(self)@.textures.len(),
    {
        let index = self.textures.len();
        self.textures.push(rect);
        index
    }

    /// The number of rectangles.
    pub fn len(&self) -> (n: usize)
        ensures
            n == self@.textures.len(),
    {
        self.textures.len()
    }

    pub fn is_empty(&self) -> (b: bool)
        ensures
            b == (self@.textures.len() == 0),
    {
        self.textures.len() == 0
    }

    /// The rectangle at a position, if there is one.
    pub fn get(&self, index: usize) -> (r: Option<Rect>)
        ensures
            r == if index < self@.textures.len() {
                Some(self@.textures[index as int])
            } else {
                None
            },
    {
        if index < self.textures.len() {
            Some(self.textures[index])
        } else {
            None
        }
    }

    /// Whether every rectangle lies on the sheet.
    pub fn within_sheet(&self) -> (b: bool)
        ensures
            b == self@.within_sheet(),
    {
        let mut i: usize = 0;
        while i < self.textures.len()
            invariant
                i <= self.textures.len(),
                forall|k: int|
                    0 <= k < i ==> (#[trigger] self.textures@[k]).max_x <= self.width
                        && self.textures@[k].max_y <= self.height,
            decreases self.textures.len() - i,
        {
            let r = self.textures[i];
            if r.max_x > self.width || r.max_y > self.height {
                assert(self@.textures[i as int] == r);
                return false;
            }
            i += 1;
        }
        true
    }
}

/// Builds the layout of a sheet from its regions: one rectangle for each, in
/// the same order. Fails where a region's far corner does not fit in `u32`.
pub fn build_layout(width: u32, height: u32, textures: &Vec<SubTexture>) -> (r: Result<
    AtlasLayout,
    KenneySpriteSheetAssetLoaderError,
>)
    ensures
        match AtlasLayoutView::of_sub_textures(width, height, sub_textures_view(textures@)) {
            Some(expected) => r is Ok && r->Ok_0@ == expected,
            None => r == Err::<AtlasLayout, _>(
                KenneySpriteSheetAssetLoaderError::InvalidSubTexture,
            ),
        },
{
    let mut layout = AtlasLayout::new_empty(width, height);
    let mut i: usize = 0;
    while i < textures.len()
        invariant
            i <= textures.len(),
            layout.width == width,
            layout.height == height,
            layout.textures@.len() == i,
            forall|k: int| 0 <= k < i ==> (#[trigger] textures@[k])@.rect() == Some(layout.textures@[k]),
        decreases textures.len() - i,
    {
        match textures[i].rect() {
            Some(rect) => {
                layout.add_texture(rect);
            },
            None => {
                assert(sub_textures_view(textures@)[i as int] == textures@[i as int]@);
                return Err(KenneySpriteSheetAssetLoaderError::InvalidSubTexture);
            },
        }
        i += 1;
    }
    proof {
        let views = sub_textures_view(textures@);
        assert forall|k: int| 0 <= k < views.len() implies (#[trigger] views[k]).rect() is Some by {
            assert(views[k] == textures@[k]@);
        }
        assert(layout@.textures =~= Seq::new(views.len(), |k: int| views[k].rect()->Some_0));
    }
    Ok(layout)
}

} // verus!
