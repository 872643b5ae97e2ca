//! The load of one sprite sheet: from the descriptor's path to the finished
//! asset, one step for each answer from outside.

use vstd::prelude::*;
use std::path::PathBuf;
use crate::atlas::{build_layout, AtlasLayout, AtlasLayoutView};
use crate::error::{FailureKind, KenneySpriteSheetAssetLoaderError};
use crate::sub_texture::{
    read_sub_textures,
    spec_sub_textures,
    sub_textures_view,
    SubTexture,
    SubTextureView,
};
use crate::xml::{nodes_view, parse_nodes, xml_parse, XmlNode, XmlNodeView};

verus! {

#[verifier::external_type_specification]
#[verifier::external_body]
pub struct ExPathBuf(PathBuf);

/// `PathBuf::clone`. Trusted: the copy is the same path.
pub assume_specification[ <PathBuf as Clone>::clone ](path: &PathBuf) -> (r: PathBuf)
    ensures
        r == *path,
;

/// The path that `std::path::Path::with_extension` makes of a path and an
/// extension, on the platform that the library is built for.
pub uninterp spec fn path_with_extension(path: PathBuf, extension: Seq<char>) -> PathBuf;

/// Whether a text holds neither `/` nor `\`.
pub open spec fn no_separator(s: Seq<char>) -> bool {
    forall|i: int| 0 <= i < s.len() ==> #[trigger] s[i] != '/' && s[i] != '\\'
}

/// Calls `std::path::Path::with_extension`, which panics on an extension
/// that holds a path separator. Trusted: the result is the path that
/// `path_with_extension` names.
#[verifier::external_body]
fn with_extension(path: &PathBuf, extension: &str) -> (r: PathBuf)
    requires
        no_separator(extension@),
    ensures
        r == path_with_extension(*path, extension@),
{
    path.with_extension(extension)
}

/// A decoded sprite sheet.
#[derive(Clone, Debug, PartialEq, Eq)]
pub struct KenneySpriteSheetAsset {
    /// The regions, in document order.
    pub textures: Vec<SubTexture>,
    /// The path of the sheet image, by which the image is referred to.
    pub sheet: PathBuf,
    /// One rectangle for each region, at the region's position.
    pub texture_atlas_layout: AtlasLayout,
}

pub struct KenneySpriteSheetAssetView {
    pub textures: Seq<SubTextureView>,
    pub sheet: PathBuf,
    pub texture_atlas_layout: AtlasLayoutView,
}

impl View for KenneySpriteSheetAsset {
    type V = KenneySpriteSheetAssetView;

    open spec fn view(&self) -> KenneySpriteSheetAssetView {
        KenneySpriteSheetAssetView {
            textures: sub_textures_view(self.textures@),
            sheet: self.sheet,
            texture_atlas_layout: self.texture_atlas_layout@,
        }
    }
}

impl KenneySpriteSheetAssetView {
    /// The asset that the nodes of a document give for a sheet of the given
    /// size; `None` where a `SubTexture` element is invalid or the far corner
    /// of a region does not fit in `u32`.
    pub open spec fn of_nodes(sheet: PathBuf, width: u32, height: u32, nodes: Seq<XmlNodeView>) -> Option<
        KenneySpriteSheetAssetView,
    > {
        match spec_sub_textures(nodes) {
            Some(textures) => match AtlasLayoutView::of_sub_textures(width, height, textures) {
                Some(layout) => Some(
                    KenneySpriteSheetAssetView { textures, sheet, texture_atlas_layout: layout },
                ),
                None => None,
            },
            None => None,
        }
    }
}

/// Where a load stands.
#[derive(Debug)]
pub enum LoadState {
    /// Nothing has been asked for yet.
    Start,
    /// The sheet image's size has been asked for.
    ImageDimensionsPending { sheet: PathBuf },
    /// The size is known; the descriptor's text is awaited, and is parsed,
    /// validated and built into a layout as soon as it arrives.
    DescriptorParsing { sheet: PathBuf, width: u32, height: u32 },
    /// The asset has been handed out.
    Assembled,
    /// The load has failed.
    Failed(FailureKind),
}

/// What the outside reports to a load.
#[derive(Debug)]
pub enum LoadEvent {
    /// A load of the descriptor at this path is asked for.
    Requested { descriptor: PathBuf },
    /// The sheet image was loaded and has this size in pixels.
    ImageLoaded { width: u32, height: u32 },
    /// The sheet image could not be loaded.
    ImageFailed(bevy::asset::LoadDirectError),
    /// The descriptor's text was read.
    DescriptorRead(String),
    /// The descriptor's text could not be read.
    DescriptorUnreadable(std::io::Error),
}

/// What a load asks the outside to do next.
#[derive(Debug)]
pub enum LoadAction {
    /// Load the image at `sheet` now and report its size.
    LoadImage { sheet: PathBuf },
    /// Ask for a lasting reference to the image at `sheet`, then read the
    /// descriptor's text and report it.
    ReadDescriptor { sheet: PathBuf },
    /// Register the asset's layout under the loader's label and hand the
    /// asset out.
    Register(KenneySpriteSheetAsset),
    /// Give the load up with this error.
    Fail(KenneySpriteSheetAssetLoaderError),
    /// Nothing: the event does not belong to the state.
    Nothing,
}

/// Whether a load that has read `text` may end in `next` with `action`.
pub open spec fn decoded(
    sheet: PathBuf,
    width: u32,
    height: u32,
    text: Seq<char>,
    next: LoadState,
    action: LoadAction,
) -> bool {
    match xml_parse(text) {
        Err(error) => {
            &&& next == LoadState::Failed(FailureKind::DescriptorSyntax)
            &&& action == LoadAction::Fail(KenneySpriteSheetAssetLoaderError::XmlParse(error))
        },
        Ok(nodes) => match KenneySpriteSheetAssetView::of_nodes(sheet, width, height, nodes) {
            Some(expected) => {
                &&& next == LoadState::Assembled
                &&& action matches LoadAction::Register(asset)
                &&& asset@ == expected
            },
            None => next == LoadState::Failed(FailureKind::InvalidSubTexture) && action
                == LoadAction::Fail(KenneySpriteSheetAssetLoaderError::InvalidSubTexture),
        },
    }
}

/// Whether a load in `state` that is told `event` may go on to `next` with
/// `action`.
pub open spec fn steps_to(state: LoadState, event: LoadEvent, next: LoadState, action: LoadAction) -> bool {
    match (state, event) {
        (LoadState::Start, LoadEvent::Requested { descriptor }) => {
            let sheet = path_with_extension(descriptor, "png"@);
            next == (LoadState::ImageDimensionsPending { sheet }) && action == (LoadAction::LoadImage {
                sheet,
            })
        },
        (LoadState::ImageDimensionsPending { sheet }, LoadEvent::ImageLoaded { width, height }) => {
            next == (LoadState::DescriptorParsing { sheet, width, height }) && action
                == (LoadAction::ReadDescriptor { sheet })
        },
        (LoadState::ImageDimensionsPending { sheet }, LoadEvent::ImageFailed(error)) => {
            next == LoadState::Failed(FailureKind::DependencyLoad) && action == LoadAction::Fail(
                KenneySpriteSheetAssetLoaderError::LoadDirect(error),
            )
        },
        (LoadState::DescriptorParsing { sheet, width, height }, LoadEvent::DescriptorRead(text)) => {
            decoded(sheet, width, height, text@, next, action)
        },
        (LoadState::DescriptorParsing { sheet, width, height }, LoadEvent::DescriptorUnreadable(error)) => {
            next == LoadState::Failed(FailureKind::Io) && action == LoadAction::Fail(
                KenneySpriteSheetAssetLoaderError::Io(error),
            )
        },
        _ => next == state && action == LoadAction::Nothing,
    }
}

/// Loads sprite sheets from their XML descriptors.
#[derive(Clone, Copy, Debug, PartialEq, Eq, Structural)]
pub struct KenneySpriteSheetAssetLoader;

impl Default for KenneySpriteSheetAssetLoader {
    fn default() -> (loader: KenneySpriteSheetAssetLoader)
        ensures
            loader == KenneySpriteSheetAssetLoader,
    {
        KenneySpriteSheetAssetLoader
    }
}

impl KenneySpriteSheetAssetLoader {
    /// The extensions of the files that the loader takes.
    pub fn extensions(&self) -> (r: &[&str])
        ensures
            r@.len() == 1,
            r@[0]@ == "xml"@,
    {
        &["xml"]
    }

    /// The label under which an asset's layout is registered.
    pub fn layout_label(&self) -> (r: &'static str)
        ensures
            r@ == "texture_atlas_layout"@,
    {
        "texture_atlas_layout"
    }

    /// The path of the sheet image that belongs to a descriptor: the
    /// descriptor's path with the extension `png`.
    pub fn image_path(&self, descriptor: &PathBuf) -> (sheet: PathBuf)
        ensures
            sheet == path_with_extension(*descriptor, "png"@),
    {
        proof {
            reveal_strlit("png");
        }
        with_extension(descriptor, "png")
    }

    /// Parses a descriptor's text into the nodes of the document, from the
    /// root on, in document order. A text that is no well-formed XML fails
    /// with the parser's error.
    pub fn parse_descriptor(&self, text: &str) -> (r: Result<
        Vec<XmlNode>,
        KenneySpriteSheetAssetLoaderError,
    >)
        ensures
            match xml_parse(text@) {
                Err(error) => r == Err::<Vec<XmlNode>, _>(
                    KenneySpriteSheetAssetLoaderError::XmlParse(error),
                ),
                Ok(nodes) => r is Ok && nodes_view(r->Ok_0@) == nodes,
            },
    {
        match parse_nodes(text) {
            Ok(nodes) => Ok(nodes),
            Err(error) => Err(KenneySpriteSheetAssetLoaderError::XmlParse(error)),
        }
    }

    /// Builds the asset from a document's nodes: the regions of the
    /// `SubTexture` elements in document order, and a layout with one
    /// rectangle for each. One invalid element fails the whole.
    pub fn assemble(&self, sheet: PathBuf, width: u32, height: u32, nodes: &Vec<XmlNode>) -> (r: Result<
        KenneySpriteSheetAsset,
        KenneySpriteSheetAssetLoaderError,
    >)
        ensures
            match KenneySpriteSheetAssetView::of_nodes(sheet, width, height, nodes_view(nodes@)) {
                Some(expected) => r is Ok && r->Ok_0@ == expected,
                None => r == Err::<KenneySpriteSheetAsset, _>(
                    KenneySpriteSheetAssetLoaderError::InvalidSubTexture,
                ),
            },
    {
        let textures = match read_sub_textures(nodes) {
            Ok(textures) => textures,
            Err(error) => {
                return Err(error);
            },
        };
        let layout = match build_layout(width, height, &textures) {
            Ok(layout) => layout,
            Err(error) => {
                return Err(error);
            },
        };
        Ok(KenneySpriteSheetAsset { textures, sheet, texture_atlas_layout: layout })
    }

    /// Finishes a load from what the XML parser made of the descriptor: its
    /// error is handed on as it is, its nodes are assembled.
    pub fn assemble_parsed(
        &self,
        sheet: PathBuf,
        width: u32,
        height: u32,
        parsed: Result<Vec<XmlNode>, roxmltree::Error>,
    ) -> (r: Result<KenneySpriteSheetAsset, KenneySpriteSheetAssetLoaderError>)
        ensures
            match parsed {
                Err(error) => r == Err::<KenneySpriteSheetAsset, _>(
                    KenneySpriteSheetAssetLoaderError::XmlParse(error),
                ),
                Ok(nodes) => match KenneySpriteSheetAssetView::of_nodes(
                    sheet,
                    width,
                    height,
                    nodes_view(nodes@),
                ) {
                    Some(expected) => r is Ok && r->Ok_0@ == expected,
                    None => r == Err::<KenneySpriteSheetAsset, _>(
                        KenneySpriteSheetAssetLoaderError::InvalidSubTexture,
                    ),
                },
            },
    {
        match parsed {
            Err(error) => Err(KenneySpriteSheetAssetLoaderError::XmlParse(error)),
            Ok(nodes) => self.assemble(sheet, width, height, &nodes),
        }
    }

    /// Decodes a descriptor's text for a sheet of the given size. The text
    /// is parsed first: a text that is no well-formed XML fails with the
    /// parser's error before any element is looked at.
    pub fn load(&self, sheet: PathBuf, width: u32, height: u32, text: &str) -> (r: Result<
        KenneySpriteSheetAsset,
        KenneySpriteSheetAssetLoaderError,
    >)
        ensures
            match xml_parse(text@) {
                Err(error) => r == Err::<KenneySpriteSheetAsset, _>(
                    KenneySpriteSheetAssetLoaderError::XmlParse(error),
                ),
                Ok(nodes) => match KenneySpriteSheetAssetView::of_nodes(sheet, width, height, nodes) {
                    Some(expected) => r is Ok && r->Ok_0@ == expected,
                    None => r == Err::<KenneySpriteSheetAsset, _>(
                        KenneySpriteSheetAssetLoaderError::InvalidSubTexture,
                    ),
                },
            },
    {
        self.assemble_parsed(sheet, width, height, parse_nodes(text))
    }

    /// Takes a load one step on: from its state and what the outside
    /// reports to the next state and what the outside is to do.
    pub fn step(&self, state: LoadState, event: LoadEvent) -> (r: (LoadState, LoadAction))
        ensures
            steps_to(state, event, r.0, r.1),
    {
        match (state, event) {
            (LoadState::Start, LoadEvent::Requested { descriptor }) => {
                let sheet = self.image_path(&descriptor);
                (LoadState::ImageDimensionsPending { sheet: sheet.clone() }, LoadAction::LoadImage { sheet })
            },
            (LoadState::ImageDimensionsPending { sheet }, LoadEvent::ImageLoaded { width, height }) => {
                (
                    LoadState::DescriptorParsing { sheet: sheet.clone(), width, height },
                    LoadAction::ReadDescriptor { sheet },
                )
            },
            (LoadState::ImageDimensionsPending { sheet }, LoadEvent::ImageFailed(error)) => {
                (
                    LoadState::Failed(FailureKind::DependencyLoad),
                    LoadAction::Fail(KenneySpriteSheetAssetLoaderError::LoadDirect(error)),
                )
            },
            (LoadState::DescriptorParsing { sheet, width, height }, LoadEvent::DescriptorRead(text)) => {
                match self.load(sheet, width, height, text.as_str()) {
                    Ok(asset) => (LoadState::Assembled, LoadAction::Register(asset)),
                    Err(error) => (LoadState::Failed(error.kind()), LoadAction::Fail(error)),
                }
            },
            (
                LoadState::DescriptorParsing { sheet, width, height },
                LoadEvent::DescriptorUnreadable(error),
            ) => {
                (
                    LoadState::Failed(FailureKind::Io),
                    LoadAction::Fail(KenneySpriteSheetAssetLoaderError::Io(error)),
                )
            },
            (state, _) => (state, LoadAction::Nothing),
        }
    }
}

} // verus!
