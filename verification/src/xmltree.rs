//! A plain tree of markup elements, and its extraction from bytes.
//!
//! The XMP packet is structured markup. Parsing the bytes is the work of
//! the `elementtree` crate; what it yields is copied at once into the
//! plain tree below — names, attributes, children and text as ordinary
//! strings and vectors — and everything that reads the tree afterwards is
//! verified against that representation alone.

use vstd::prelude::*;

use crate::text::{opt_str_eq, str_eq};

verus! {

/// One attribute of an element: a possibly namespaced name and a value.
#[derive(Debug)]
pub struct XmlAttr {
    pub ns: Option<String>,
    pub name: String,
    pub value: String,
}

/// One markup element: a possibly namespaced tag, its attributes, its
/// child elements in document order, and its text content.
#[derive(Debug)]
pub struct XmlElement {
    pub ns: Option<String>,
    pub name: String,
    pub attrs: Vec<XmlAttr>,
    pub children: Vec<XmlElement>,
    pub text: String,
}

#[verifier::external_type_specification]
#[verifier::external_body]
pub struct ExElement(elementtree::Element);

/// The tree a byte sequence parses to, if it parses: what
/// `elementtree::Element::from_reader` yields depends on the bytes alone.
pub uninterp spec fn xml_doc_of(bytes: Seq<u8>) -> Option<XmlElement>;

/// Relies on `elementtree::Element::from_reader` to parse bytes as a
/// markup document; a tree comes back exactly when the bytes parse.
#[verifier::external_body]
pub(crate) fn parse_xml(bytes: &[u8]) -> (r: Option<XmlElement>)
    ensures
        r == xml_doc_of(bytes@),
{
    match elementtree::Element::from_reader(bytes) {
        Ok(e) => Some(convert_element(&e)),
        Err(_) => None,
    }
}

/// Relies on `elementtree::Element`'s accessors `tag`, `attrs`,
/// `children` and `text`, and on `QName`'s `ns` and `name`, to copy the
/// parsed tree into the crate's own representation, node for node.
#[verifier::external_body]
fn convert_element(e: &elementtree::Element) -> (r: XmlElement) {
    XmlElement {
        ns: e.tag().ns().map(|s| s.to_string()),
        name: e.tag().name().to_string(),
        attrs: e.attrs().map(
            |(q, v): (&elementtree::QName, &str)| XmlAttr {
                ns: q.ns().map(|s| s.to_string()),
                name: q.name().to_string(),
                value: v.to_string(),
            },
        ).collect(),
        children: e.children().map(|c| convert_element(c)).collect(),
        text: e.text().to_string(),
    }
}

/// Whether the element carries the given namespaced tag.
pub open spec fn elem_has_tag(e: XmlElement, ns: Seq<char>, name: Seq<char>) -> bool {
    match e.ns {
        Option::Some(u) => u@ == ns && e.name@ == name,
        Option::None => false,
    }
}

/// The first element at or after index `i` carrying the tag.
pub open spec fn find_child_from(
    cs: Seq<XmlElement>,
    i: int,
    ns: Seq<char>,
    name: Seq<char>,
) -> Option<XmlElement>
    decreases cs.len() - i,
{
    if i < 0 || i >= cs.len() {
        Option::None
    } else if elem_has_tag(cs[i], ns, name) {
        Option::Some(cs[i])
    } else {
        find_child_from(cs, i + 1, ns, name)
    }
}

/// The first direct child of `e` carrying the tag.
pub open spec fn spec_find_child(e: XmlElement, ns: Seq<char>, name: Seq<char>) -> Option<
    XmlElement,
> {
    find_child_from(e.children@, 0, ns, name)
}

/// The first attribute at or after index `i` with the given name.
pub open spec fn find_attr_from(
    attrs: Seq<XmlAttr>,
    i: int,
    ns: Seq<char>,
    name: Seq<char>,
) -> Option<XmlAttr>
    decreases attrs.len() - i,
{
    if i < 0 || i >= attrs.len() {
        Option::None
    } else if attr_has_name(attrs[i], ns, name) {
        Option::Some(attrs[i])
    } else {
        find_attr_from(attrs, i + 1, ns, name)
    }
}

/// Whether the attribute carries the given namespaced name.
pub open spec fn attr_has_name(a: XmlAttr, ns: Seq<char>, name: Seq<char>) -> bool {
    match a.ns {
        Option::Some(u) => u@ == ns && a.name@ == name,
        Option::None => false,
    }
}

/// The attribute of `e` with the given name.
pub open spec fn spec_find_attr(e: XmlElement, ns: Seq<char>, name: Seq<char>) -> Option<XmlAttr> {
    find_attr_from(e.attrs@, 0, ns, name)
}

impl XmlElement {
    /// Whether this element carries the given namespaced tag.
    pub fn has_tag(&self, ns: &str, name: &str) -> (r: bool)
        ensures
            r == elem_has_tag(*self, ns@, name@),
    {
        opt_str_eq(&self.ns, ns) && str_eq(self.name.as_str(), name)
    }

    /// The first direct child carrying the given tag.
    pub fn find_child<'a>(&'a self, ns: &str, name: &str) -> (r: Option<&'a XmlElement>)
        ensures
            match r {
                Option::Some(c) => spec_find_child(*self, ns@, name@) == Option::Some(*c),
                Option::None => spec_find_child(*self, ns@, name@) is None,
            },
    {
        let n = self.children.len();
        let mut i: usize = 0;
        while i < n
            invariant
                0 <= i <= n,
                n == self.children@.len(),
                find_child_from(self.children@, 0, ns@, name@) == find_child_from(
                    self.children@,
                    i as int,
                    ns@,
                    name@,
                ),
            decreases n - i,
        {
            if self.children[i].has_tag(ns, name) {
                proof {
                    assert(find_child_from(self.children@, i as int, ns@, name@) == Option::Some(
                        self.children@[i as int],
                    ));
                }
                return Option::Some(&self.children[i]);
            }
            i = i + 1;
        }
        Option::None
    }

    /// The value of the attribute with the given name.
    pub fn find_attr<'a>(&'a self, ns: &str, name: &str) -> (r: Option<&'a String>)
        ensures
            match r {
                Option::Some(v) => (match spec_find_attr(*self, ns@, name@) {
                    Option::Some(a) => v@ == a.value@,
                    Option::None => false,
                }),
                Option::None => spec_find_attr(*self, ns@, name@) is None,
            },
    {
        let n = self.attrs.len();
        let mut i: usize = 0;
        while i < n
            invariant
                0 <= i <= n,
                n == self.attrs@.len(),
                find_attr_from(self.attrs@, 0, ns@, name@) == find_attr_from(
                    self.attrs@,
                    i as int,
                    ns@,
                    name@,
                ),
            decreases n - i,
        {
            let a = &self.attrs[i];
            let named = match &a.ns {
                Option::Some(u) => str_eq(u.as_str(), ns) && str_eq(a.name.as_str(), name),
                Option::None => false,
            };
            if named {
                proof {
                    assert(find_attr_from(self.attrs@, i as int, ns@, name@) == Option::Some(
                        self.attrs@[i as int],
                    ));
                }
                return Option::Some(&a.value);
            }
            i = i + 1;
        }
        Option::None
    }
}

} // verus!
