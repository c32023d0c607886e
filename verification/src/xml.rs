//! The XML view of a response: the library's own element tree, produced
//! at the boundary by the `xmltree` parser, and verified lookup of child
//! elements by name.

use vstd::prelude::*;
use crate::strings::str_eq;

verus! {

/// One XML element as the protocol engine reads it: local name, text
/// content (absent when the element holds no text nodes), and child
/// elements in document order.
#[derive(Debug, PartialEq, Eq)]
pub struct XmlNode {
    pub name: String,
    pub text: Option<String>,
    pub children: Vec<XmlNode>,
}

#[verifier::external_type_specification]
#[verifier::external_body]
pub struct ExXmlElement(xmltree::Element);

/// The element tree that XML text parses to, if the text is well-formed:
/// a function of the text alone, realized by the `xmltree` parser.
pub uninterp spec fn xml_doc(s: Seq<char>) -> Option<XmlNode>;

/// Relies on the public fields and `get_text` of `xmltree::Element`:
/// moves one parsed element into the library's tree, keeping the local
/// name, the concatenated text content, and the child elements in order.
#[verifier::external_body]
fn node_of_element(e: xmltree::Element) -> XmlNode {
    let text = e.get_text().map(|t| t.into_owned());
    let mut children = Vec::new();
    for child in e.children {
        if let xmltree::XMLNode::Element(c) = child {
            children.push(node_of_element(c));
        }
    }
    XmlNode { name: e.name, text, children }
}

/// Relies on `xmltree::Element::parse_all`: parses the text as XML and
/// hands back the first root element, or nothing when the text is
/// malformed. The result depends on the text alone.
#[verifier::external_body]
pub fn parse_xml(text: &str) -> (r: Option<XmlNode>)
    ensures
        r == xml_doc(text@),
{
    let nodes = match xmltree::Element::parse_all(text.as_bytes()) {
        Ok(nodes) => nodes,
        Err(_) => return None,
    };
    for node in nodes {
        if let xmltree::XMLNode::Element(e) = node {
            return Some(node_of_element(e));
        }
    }
    None
}

/// The first child element named `name`, if any.
pub open spec fn find_child(cs: Seq<XmlNode>, name: Seq<char>) -> Option<XmlNode>
    decreases cs.len(),
{
    if cs.len() == 0 {
        None
    } else if cs[0].name@ == name {
        Some(cs[0])
    } else {
        find_child(cs.skip(1), name)
    }
}

/// Children without a match may be skipped when looking for the first one.
proof fn lemma_find_child_skip(cs: Seq<XmlNode>, name: Seq<char>, i: int)
    requires
        0 <= i <= cs.len(),
        forall|j: int| 0 <= j < i ==> cs[j].name@ != name,
    ensures
        find_child(cs, name) == find_child(cs.skip(i), name),
    decreases i,
{
    if i > 0 {
        lemma_find_child_skip(cs, name, i - 1);
        let tail = cs.skip(i - 1);
        assert(tail[0] == cs[i - 1]);
        assert(tail.skip(1) =~= cs.skip(i));
    } else {
        assert(cs.skip(0) =~= cs);
    }
}

/// Finds the index of the first child element named `name`.
pub fn find_child_index(cs: &Vec<XmlNode>, name: &str) -> (r: Option<usize>)
    ensures
        match r {
            Some(i) => i < cs@.len() && find_child(cs@, name@) == Some(cs@[i as int])
                && cs@[i as int].name@ == name@,
            None => find_child(cs@, name@) is None,
        },
{
    let len = cs.len();
    let mut i: usize = 0;
    while i < len
        invariant
            i <= len == cs@.len(),
            forall|j: int| 0 <= j < i ==> cs@[j].name@ != name@,
        decreases len - i,
    {
        if str_eq(cs[i].name.as_str(), name) {
            proof {
                lemma_find_child_skip(cs@, name@, i as int);
                assert(cs@.skip(i as int)[0] == cs@[i as int]);
            }
            return Some(i);
        }
        i += 1;
    }
    proof {
        lemma_find_child_skip(cs@, name@, len as int);
        assert(cs@.skip(len as int) =~= Seq::<XmlNode>::empty());
    }
    None
}

} // verus!
