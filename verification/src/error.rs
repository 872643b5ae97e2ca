//! Why a sprite sheet could not be loaded.

use vstd::prelude::*;

verus! {

#[verifier::external_type_specification]
#[verifier::external_body]
pub struct ExIoError(std::io::Error);

#[verifier::external_type_specification]
#[verifier::external_body]
pub struct ExLoadDirectError(bevy::asset::LoadDirectError);

/// The stage at which a load failed.
#[derive(Clone, Copy, Debug, PartialEq, Eq, Structural)]
pub enum FailureKind {
    /// The descriptor's text could not be read.
    Io,
    /// The companion image could not be loaded.
    DependencyLoad,
    /// The descriptor is no well-formed XML.
    DescriptorSyntax,
    /// A `SubTexture` element lacks an attribute, holds a number that cannot
    /// be read, or describes a rectangle whose far corner does not fit.
    InvalidSubTexture,
}

/// Possible errors that can be produced by the sprite-sheet loader.
#[non_exhaustive]
#[derive(Debug)]
pub enum KenneySpriteSheetAssetLoaderError {
    /// The descriptor's text could not be read.
    Io(std::io::Error),
    /// The companion image could not be loaded.
    LoadDirect(bevy::asset::LoadDirectError),
    /// The descriptor is no well-formed XML; holds the parser's diagnostic.
    XmlParse(roxmltree::Error),
    /// Elements in the descriptor must have: x, y, width, height, and name.
    InvalidSubTexture,
}

impl KenneySpriteSheetAssetLoaderError {
    pub open spec fn spec_kind(self) -> FailureKind {
        match self {
            KenneySpriteSheetAssetLoaderError::Io(_) => FailureKind::Io,
            KenneySpriteSheetAssetLoaderError::LoadDirect(_) => FailureKind::DependencyLoad,
            KenneySpriteSheetAssetLoaderError::XmlParse(_) => FailureKind::DescriptorSyntax,
            KenneySpriteSheetAssetLoaderError::InvalidSubTexture => FailureKind::InvalidSubTexture,
        }
    }

    /// The stage that the error comes from.
    pub fn kind(&self) -> (k: FailureKind)
        ensures
            k == self.spec_kind(),
    {
        match self {
            KenneySpriteSheetAssetLoaderError::Io(_) => FailureKind::Io,
            KenneySpriteSheetAssetLoaderError::LoadDirect(_) => FailureKind::DependencyLoad,
            KenneySpriteSheetAssetLoaderError::XmlParse(_) => FailureKind::DescriptorSyntax,
            KenneySpriteSheetAssetLoaderError::InvalidSubTexture => FailureKind::InvalidSubTexture,
        }
    }
}

} // verus!
