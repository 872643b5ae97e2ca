//! The nodes of an XML document as plain values.
//!
//! Parsing itself is done by `roxmltree`; this module holds what the rest of
//! the library reads from a parsed document.

use vstd::prelude::*;

verus! {

#[verifier::external_type_specification]
#[verifier::external_body]
pub struct ExXmlError(roxmltree::Error);

/// One attribute of an element.
#[derive(Clone, Debug, PartialEq, Eq)]
pub struct XmlAttribute {
    /// The namespace URI that the attribute's prefix resolves to, if it has one.
    pub namespace: Option<String>,
    /// The local name.
    pub name: String,
    pub value: String,
}

pub struct XmlAttributeView {
    pub namespace: Option<Seq<char>>,
    pub name: Seq<char>,
    pub value: Seq<char>,
}

/// One node of a document. A node that is no element (the root, a text, a
/// comment, a processing instruction) has an empty name, no namespace and no
/// attributes.
#[derive(Clone, Debug, PartialEq, Eq)]
pub struct XmlNode {
    pub namespace: Option<String>,
    /// The local name of the element's tag.
    pub name: String,
    /// The attributes in the order in which the tag gives them.
    pub attributes: Vec<XmlAttribute>,
}

pub struct XmlNodeView {
    pub namespace: Option<Seq<char>>,
    pub name: Seq<char>,
    pub attributes: Seq<XmlAttributeView>,
}

pub open spec fn opt_view(s: Option<String>) -> Option<Seq<char>> {
    match s {
        Some(s) => Some(s@),
        None => None,
    }
}

impl View for XmlAttribute {
    type V = XmlAttributeView;

    open spec fn view(&self) -> XmlAttributeView {
        XmlAttributeView {
            namespace: opt_view(self.namespace),
            name: self.name@,
            value: self.value@,
        }
    }
}

impl View for XmlNode {
    type V = XmlNodeView;

    open spec fn view(&self) -> XmlNodeView {
        XmlNodeView {
            namespace: opt_view(self.namespace),
            name: self.name@,
            attributes: Seq::new(self.attributes@.len(), |i: int| self.attributes@[i]@),
        }
    }
}

/// The views of a sequence of nodes, in the same order.
pub open spec fn nodes_view(nodes: Seq<XmlNode>) -> Seq<XmlNodeView> {
    Seq::new(nodes.len(), |i: int| nodes[i]@)
}

/// What `roxmltree::Document::parse` makes of a text: its error where it
/// rejects the text, else every node of the document, from the root on, in
/// document order.
pub uninterp spec fn xml_parse(text: Seq<char>) -> Result<Seq<XmlNodeView>, roxmltree::Error>;

/// Calls `roxmltree::Document::parse` and copies out the nodes that
/// `Document::descendants` walks. Trusted: the outcome is the one that
/// `xml_parse` names for this text, the parser's error or the nodes.
#[verifier::external_body]
pub(crate) fn parse_nodes(text: &str) -> (r: Result<Vec<XmlNode>, roxmltree::Error>)
    ensures
        match r {
            Ok(nodes) => xml_parse(text@) == Ok::<_, roxmltree::Error>(nodes_view(nodes@)),
            Err(error) => xml_parse(text@) == Err::<Seq<XmlNodeView>, _>(error),
        },
{
    let doc = roxmltree::Document::parse(text)?;
    Ok(doc.descendants().map(|n| XmlNode {
        namespace: n.tag_name().namespace().map(|s| s.to_string()),
        name: n.tag_name().name().to_string(),
        attributes: n.attributes().map(|a| XmlAttribute {
            namespace: a.namespace().map(|s| s.to_string()),
            name: a.name().to_string(),
            value: a.value().to_string(),
        }).collect(),
    }).collect())
}

impl XmlNodeView {
    /// The value of the first attribute without a namespace whose local name
    /// is `name`, looking at the attributes from index `from` on.
    pub open spec fn attribute_from(self, name: Seq<char>, from: int) -> Option<Seq<char>>
        decreases self.attributes.len() - from,
    {
        if from < 0 || from >= self.attributes.len() {
            None
        } else if self.attributes[from].namespace is None && self.attributes[from].name == name {
            Some(self.attributes[from].value)
        } else {
            self.attribute_from(name, from + 1)
        }
    }

    /// The value of the first attribute without a namespace whose local name
    /// is `name`.
    pub open spec fn attribute(self, name: Seq<char>) -> Option<Seq<char>> {
        self.attribute_from(name, 0)
    }

    /// Whether the node is an element whose tag has no namespace and the
    /// local name `name`.
    pub open spec fn has_tag(self, name: Seq<char>) -> bool {
        self.namespace is None && self.name == name
    }
}

impl XmlNode {
    /// Whether the node is an element whose tag has no namespace and the
    /// local name `name`.
    pub fn has_tag(&self, name: &str) -> (b: bool)
        ensures
            b == self@.has_tag(name@),
    {
        let wanted = name.to_owned();
        self.namespace.is_none() && self.name == wanted
    }

    /// The value of the first attribute without a namespace whose local name
    /// is `name`.
    pub fn attribute(&self, name: &str) -> (r: Option<&String>)
        ensures
            match r {
                Some(v) => self@.attribute(name@) == Some(v@),
                None => self@.attribute(name@) is None,
            },
    {
        let wanted = name.to_owned();
        let mut i: usize = 0;
        while i < self.attributes.len()
            invariant
                i <= self.attributes.len(),
                wanted@ == name@,
                self@.attribute(name@) == self@.attribute_from(name@, i as int),
            decreases self.attributes.len() - i,
        {
            let a = &self.attributes[i];
            if a.namespace.is_none() && a.name == wanted {
                return Some(&a.value);
            }
            i += 1;
        }
        None
    }
}

} // verus!
