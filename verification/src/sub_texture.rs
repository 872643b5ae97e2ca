//! The named regions of a sheet and how they are read from a document's nodes.

use vstd::prelude::*;
use crate::error::KenneySpriteSheetAssetLoaderError;
use crate::geometry::Rect;
use crate::number::{decimal_u32, parse_u32};
use crate::xml::{nodes_view, XmlNode, XmlNodeView};

verus! {

/// One named region of the sheet, in pixels.
#[derive(Clone, Debug, PartialEq, Eq)]
pub struct SubTexture {
    pub name: String,
    pub x: u32,
    pub y: u32,
    pub width: u32,
    pub height: u32,
}

pub struct SubTextureView {
    pub name: Seq<char>,
    pub x: u32,
    pub y: u32,
    pub width: u32,
    pub height: u32,
}

impl View for SubTexture {
    type V = SubTextureView;

    open spec fn view(&self) -> SubTextureView {
        SubTextureView {
            name: self.name@,
            x: self.x,
            y: self.y,
            width: self.width,
            height: self.height,
        }
    }
}

/// The views of a sequence of regions, in the same order.
pub open spec fn sub_textures_view(textures: Seq<SubTexture>) -> Seq<SubTextureView> {
    Seq::new(textures.len(), |i: int| textures[i]@)
}

/// The number that the attribute `name` of a node holds, if the node has the
/// attribute and its value is a decimal `u32`.
pub open spec fn number_attribute(node: XmlNodeView, name: Seq<char>) -> Option<u32> {
    match node.attribute(name) {
        Some(text) => decimal_u32(text),
        None => None,
    }
}

fn read_number(node: &XmlNode, name: &str) -> (r: Option<u32>)
    ensures
        r == number_attribute(node@, name@),
{
    match node.attribute(name) {
        Some(text) => parse_u32(text.as_str()),
        None => None,
    }
}

impl SubTextureView {
    /// Whether a node is an element that describes a region: its tag is
    /// `SubTexture`, without a namespace.
    pub open spec fn describes(node: XmlNodeView) -> bool {
        node.has_tag("SubTexture"@)
    }

    /// The region that a node describes: `None` unless the node has all of
    /// `x`, `y`, `width`, `height` and `name`, the first four as decimal
    /// numbers.
    pub open spec fn from_node(node: XmlNodeView) -> Option<SubTextureView> {
        match (
            number_attribute(node, "x"@),
            number_attribute(node, "y"@),
            number_attribute(node, "width"@),
            number_attribute(node, "height"@),
            node.attribute("name"@),
        ) {
            (Some(x), Some(y), Some(width), Some(height), Some(name)) => Some(
                SubTextureView { name, x, y, width, height },
            ),
            _ => None,
        }
    }

    /// The region's rectangle on the sheet, from `(x, y)` to
    /// `(x + width, y + height)`; `None` where the far corner does not fit.
    pub open spec fn rect(self) -> Option<Rect> {
        Rect::spec_from_region(self.x, self.y, self.width, self.height)
    }
}

impl SubTexture {
    /// Reads one region from a node, whatever the node's tag. Fails unless
    /// all five attributes are there and the four numbers can be read.
    pub fn from_node(node: &XmlNode) -> (r: Option<SubTexture>)
        ensures
            match r {
                Some(t) => SubTextureView::from_node(node@) == Some(t@),
                None => SubTextureView::from_node(node@) is None,
            },
    {
        let x = read_number(node, "x");
        let y = read_number(node, "y");
        let width = read_number(node, "width");
        let height = read_number(node, "height");
        let name = node.attribute("name");
        match (x, y, width, height, name) {
            (Some(x), Some(y), Some(width), Some(height), Some(name)) => Some(
                SubTexture { name: name.clone(), x, y, width, height },
            ),
            _ => None,
        }
    }

    /// The region's rectangle on the sheet, or `None` where `x + width` or
    /// `y + height` does not fit in `u32`.
    pub fn rect(&self) -> (r: Option<Rect>)
        ensures
            r == self@.rect(),
    {
        Rect::from_region(self.x, self.y, self.width, self.height)
    }
}

/// The nodes of a document that describe regions, in document order.
pub open spec fn region_nodes(nodes: Seq<XmlNodeView>) -> Seq<XmlNodeView> {
    nodes.filter(|n: XmlNodeView| SubTextureView::describes(n))
}

/// The regions of a document, in document order: `None` as soon as one
/// `SubTexture` element is invalid.
pub open spec fn spec_sub_textures(nodes: Seq<XmlNodeView>) -> Option<Seq<SubTextureView>> {
    let elements = region_nodes(nodes);
    if forall|i: int|
        0 <= i < elements.len() ==> (#[trigger] SubTextureView::from_node(elements[i])) is Some {
        Some(Seq::new(elements.len(), |i: int| SubTextureView::from_node(elements[i])->Some_0))
    } else {
        None
    }
}

/// Appending a node to a document appends it to the region nodes if it
/// describes a region, and leaves them unchanged if not.
proof fn lemma_region_nodes_step(nodes: Seq<XmlNodeView>, i: int)
    requires
        0 <= i < nodes.len(),
    ensures
        region_nodes(nodes.take(i + 1)) == if SubTextureView::describes(nodes[i]) {
            region_nodes(nodes.take(i)).push(nodes[i])
        } else {
            region_nodes(nodes.take(i))
        },
{
    let pred = |n: XmlNodeView| SubTextureView::describes(n);
    let head = nodes.take(i);
    let one = seq![nodes[i]];
    assert(nodes.take(i + 1) =~= head + one);
    Seq::filter_distributes_over_add(head, one, pred);
    reveal(Seq::filter);
    assert(one.drop_last() =~= Seq::<XmlNodeView>::empty());
    assert(one.drop_last().filter(pred) =~= Seq::<XmlNodeView>::empty());
    assert(one.filter(pred) =~= if pred(nodes[i]) { one } else { Seq::<XmlNodeView>::empty() });
    if pred(nodes[i]) {
        assert(head.filter(pred) + one =~= head.filter(pred).push(nodes[i]));
    } else {
        assert(head.filter(pred) + Seq::<XmlNodeView>::empty() =~= head.filter(pred));
    }
}

/// Collects the regions that a document's nodes describe. Nodes with another
/// tag are passed over; one invalid `SubTexture` element fails the whole.
pub fn read_sub_textures(nodes: &Vec<XmlNode>) -> (r: Result<
    Vec<SubTexture>,
    KenneySpriteSheetAssetLoaderError,
>)
    ensures
        match spec_sub_textures(nodes_view(nodes@)) {
            Some(expected) => r is Ok && sub_textures_view(r->Ok_0@) == expected,
            None => r == Err::<Vec<SubTexture>, _>(
                KenneySpriteSheetAssetLoaderError::InvalidSubTexture,
            ),
        },
{
    let ghost all = nodes_view(nodes@);
    let mut textures: Vec<SubTexture> = Vec::new();
    let mut i: usize = 0;
    while i < nodes.len()
        invariant
            i <= nodes.len(),
            all == nodes_view(nodes@),
            textures@.len() == region_nodes(all.take(i as int)).len(),
            forall|k: int|
                0 <= k < textures@.len() ==> SubTextureView::from_node(
                    #[trigger] region_nodes(all.take(i as int))[k],
                ) == Some(textures@[k]@),
        decreases nodes.len() - i,
    {
        let node = &nodes[i];
        proof {
            lemma_region_nodes_step(all, i as int);
            assert(all[i as int] == node@);
        }
        if node.has_tag("SubTexture") {
            match SubTexture::from_node(node) {
                Some(t) => {
                    textures.push(t);
                },
                None => {
                    proof {
                        lemma_region_nodes_prefix(all, i as int + 1);
                        let k = region_nodes(all.take(i as int)).len() as int;
                        assert(region_nodes(all)[k] == node@);
                    }
                    return Err(KenneySpriteSheetAssetLoaderError::InvalidSubTexture);
                },
            }
        }
        i += 1;
    }
    proof {
        assert(all.take(i as int) =~= all);
        assert(sub_textures_view(textures@) =~= spec_sub_textures(all)->Some_0);
    }
    Ok(textures)
}

/// The region nodes of a prefix of a document are a prefix of the
/// document's region nodes.
proof fn lemma_region_nodes_prefix(nodes: Seq<XmlNodeView>, i: int)
    requires
        0 <= i <= nodes.len(),
    ensures
        region_nodes(nodes.take(i)).len() <= region_nodes(nodes).len(),
        forall|k: int|
            0 <= k < region_nodes(nodes.take(i)).len() ==> region_nodes(nodes.take(i))[k]
                == region_nodes(nodes)[k],
{
    let pred = |n: XmlNodeView| SubTextureView::describes(n);
    let head = nodes.take(i);
    let tail = nodes.skip(i);
    assert(nodes =~= head + tail);
    Seq::filter_distributes_over_add(head, tail, pred);
}

} // verus!
