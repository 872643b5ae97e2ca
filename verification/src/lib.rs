//! Decoder for sprite-sheet descriptors: XML documents that list the named
//! rectangular regions of a companion sheet image.

pub mod atlas;
pub mod error;
pub mod geometry;
pub mod laws;
pub mod loader;
pub mod number;
pub mod sub_texture;
pub mod xml;

pub use atlas::AtlasLayout;
pub use error::{FailureKind, KenneySpriteSheetAssetLoaderError};
pub use geometry::Rect;
pub use loader::{
    KenneySpriteSheetAsset, KenneySpriteSheetAssetLoader, LoadAction, LoadEvent, LoadState,
};
pub use sub_texture::SubTexture;
pub use xml::{XmlAttribute, XmlNode};
