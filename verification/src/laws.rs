//! What holds of every load, stated over the models that the contracts use.

use vstd::prelude::*;
use std::path::PathBuf;
use crate::atlas::AtlasLayoutView;
use crate::error::{FailureKind, KenneySpriteSheetAssetLoaderError};
use crate::geometry::Rect;
use crate::loader::{steps_to, KenneySpriteSheetAssetView, LoadAction, LoadEvent, LoadState};
use crate::sub_texture::{region_nodes, spec_sub_textures, SubTextureView};
use crate::xml::{xml_parse, XmlNodeView};

verus! {

/// An asset has as many regions as the document has `SubTexture` elements,
/// and its layout has as many rectangles.
pub proof fn law_counts_agree(sheet: PathBuf, width: u32, height: u32, nodes: Seq<XmlNodeView>)
    requires
        KenneySpriteSheetAssetView::of_nodes(sheet, width, height, nodes) is Some,
    ensures
        ({
            let asset = KenneySpriteSheetAssetView::of_nodes(sheet, width, height, nodes)->Some_0;
            &&& asset.textures.len() == region_nodes(nodes).len()
            &&& asset.texture_atlas_layout.textures.len() == region_nodes(nodes).len()
        }),
{
}

/// The region at a position is the one that the `SubTexture` element at
/// that position in the document describes, and the rectangle at that
/// position in the layout is that region's, from `(x, y)` to
/// `(x + width, y + height)`.
pub proof fn law_order_preserved(sheet: PathBuf, width: u32, height: u32, nodes: Seq<XmlNodeView>, i: int)
    requires
        KenneySpriteSheetAssetView::of_nodes(sheet, width, height, nodes) is Some,
        0 <= i < region_nodes(nodes).len(),
    ensures
        ({
            let asset = KenneySpriteSheetAssetView::of_nodes(sheet, width, height, nodes)->Some_0;
            let region = asset.textures[i];
            &&& SubTextureView::from_node(region_nodes(nodes)[i]) == Some(region)
            &&& asset.texture_atlas_layout.textures[i] == (Rect {
                min_x: region.x,
                min_y: region.y,
                max_x: (region.x + region.width) as u32,
                max_y: (region.y + region.height) as u32,
            })
            &&& region.x + region.width <= u32::MAX
            &&& region.y + region.height <= u32::MAX
        }),
{
    let textures = spec_sub_textures(nodes)->Some_0;
    assert(textures[i].rect() is Some);
}

/// The layout keeps the size of the sheet that it was built for, and the
/// asset the path of its sheet.
pub proof fn law_sheet_kept(sheet: PathBuf, width: u32, height: u32, nodes: Seq<XmlNodeView>)
    requires
        KenneySpriteSheetAssetView::of_nodes(sheet, width, height, nodes) is Some,
    ensures
        ({
            let asset = KenneySpriteSheetAssetView::of_nodes(sheet, width, height, nodes)->Some_0;
            &&& asset.sheet == sheet
            &&& asset.texture_atlas_layout.width == width
            &&& asset.texture_atlas_layout.height == height
        }),
{
}

/// One `SubTexture` element that lacks an attribute or holds a number that
/// cannot be read leaves the document without an asset, whatever the other
/// elements hold.
pub proof fn law_invalid_element_fails_all(
    sheet: PathBuf,
    width: u32,
    height: u32,
    nodes: Seq<XmlNodeView>,
    i: int,
)
    requires
        0 <= i < region_nodes(nodes).len(),
        SubTextureView::from_node(region_nodes(nodes)[i]) is None,
    ensures
        spec_sub_textures(nodes) is None,
        KenneySpriteSheetAssetView::of_nodes(sheet, width, height, nodes) is None,
{
}

/// One region whose far corner, `x + width` or `y + height`, does not fit in
/// `u32` leaves the document without an asset too.
pub proof fn law_overflowing_region_fails_all(
    sheet: PathBuf,
    width: u32,
    height: u32,
    nodes: Seq<XmlNodeView>,
    i: int,
)
    requires
        spec_sub_textures(nodes) is Some,
        0 <= i < spec_sub_textures(nodes)->Some_0.len(),
        ({
            let region = spec_sub_textures(nodes)->Some_0[i];
            region.x + region.width > u32::MAX || region.y + region.height > u32::MAX
        }),
    ensures
        KenneySpriteSheetAssetView::of_nodes(sheet, width, height, nodes) is None,
{
    let textures = spec_sub_textures(nodes)->Some_0;
    assert(textures[i].rect() is None);
}

/// A document without `SubTexture` elements gives an asset without regions
/// and a layout without rectangles.
pub proof fn law_empty_document(sheet: PathBuf, width: u32, height: u32, nodes: Seq<XmlNodeView>)
    requires
        region_nodes(nodes).len() == 0,
    ensures
        KenneySpriteSheetAssetView::of_nodes(sheet, width, height, nodes) == Some(
            KenneySpriteSheetAssetView {
                textures: Seq::empty(),
                sheet,
                texture_atlas_layout: AtlasLayoutView { width, height, textures: Seq::empty() },
            },
        ),
{
    let textures = spec_sub_textures(nodes)->Some_0;
    assert(textures =~= Seq::empty());
    let layout = AtlasLayoutView::of_sub_textures(width, height, textures)->Some_0;
    assert(layout.textures =~= Seq::empty());
}

/// A descriptor that is no well-formed XML fails the load with the parser's
/// error, whatever elements its text seems to hold.
pub proof fn law_malformed_markup_fails(
    sheet: PathBuf,
    width: u32,
    height: u32,
    text: String,
    next: LoadState,
    action: LoadAction,
)
    requires
        xml_parse(text@) is Err,
        steps_to(
            LoadState::DescriptorParsing { sheet, width, height },
            LoadEvent::DescriptorRead(text),
            next,
            action,
        ),
    ensures
        next == LoadState::Failed(FailureKind::DescriptorSyntax),
        action == LoadAction::Fail(
            KenneySpriteSheetAssetLoaderError::XmlParse(xml_parse(text@)->Err_0),
        ),
{
}

/// A sheet image that cannot be loaded ends the load with the image
/// loader's error, and nothing that is reported afterwards, the
/// descriptor's text included, is acted on.
pub proof fn law_image_failure_ends_load(
    sheet: PathBuf,
    error: bevy::asset::LoadDirectError,
    next: LoadState,
    action: LoadAction,
    later: LoadEvent,
    after: LoadState,
    ignored: LoadAction,
)
    requires
        steps_to(
            LoadState::ImageDimensionsPending { sheet },
            LoadEvent::ImageFailed(error),
            next,
            action,
        ),
        steps_to(next, later, after, ignored),
    ensures
        action == LoadAction::Fail(KenneySpriteSheetAssetLoaderError::LoadDirect(error)),
        next == LoadState::Failed(FailureKind::DependencyLoad),
        after == next,
        ignored == LoadAction::Nothing,
{
}

/// The descriptor's text is acted on in one state only: after the sheet
/// image's size has arrived.
pub proof fn law_descriptor_waits_for_image(
    state: LoadState,
    text: String,
    next: LoadState,
    action: LoadAction,
)
    requires
        !(state is DescriptorParsing),
        steps_to(state, LoadEvent::DescriptorRead(text), next, action),
    ensures
        next == state,
        action == LoadAction::Nothing,
{
}

/// A load that has ended, in an asset or in a failure, stays as it is.
pub proof fn law_ended_load_stays(
    state: LoadState,
    event: LoadEvent,
    next: LoadState,
    action: LoadAction,
)
    requires
        state is Assembled || state is Failed,
        steps_to(state, event, next, action),
    ensures
        next == state,
        action == LoadAction::Nothing,
{
}

} // verus!
