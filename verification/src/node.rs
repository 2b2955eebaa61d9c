//! The markup node model: a forest of elements, text spans and comments,
//! and the classification of tag names into standard and custom tags.

use vstd::prelude::*;
use vstd::string::StrSliceExecFns;

verus! {

/// One attribute of an element: a key with an optional value. A key that
/// carries no value stands for a boolean attribute.
pub struct Attribute {
    pub key: String,
    pub value: Option<String>,
}

/// Ghost shape of an [`Attribute`].
pub struct AttrView {
    pub key: Seq<char>,
    pub value: Option<Seq<char>>,
}

impl View for Attribute {
    type V = AttrView;

    open spec fn view(&self) -> AttrView {
        AttrView { key: self.key@, value: self.value.deep_view() }
    }
}

/// Ghost shape of a sequence of attributes.
pub open spec fn attrs_view(attrs: Seq<Attribute>) -> Seq<AttrView> {
    attrs.map_values(|a: Attribute| a@)
}

/// An element: a tag name, an optional id, classes in source order,
/// attributes (keys unique) in the order the forest was built with —
/// the parse boundary supplies its parser's map order — and ordered
/// children. Re-serialization keeps whatever attribute order an element
/// holds.
pub struct Element {
    pub name: String,
    pub id: Option<String>,
    pub classes: Vec<String>,
    pub attributes: Vec<Attribute>,
    pub children: Vec<MdxNode>,
}

/// A node of the markup forest. Comments are kept so that the renderer's
/// rule of skipping them is part of the verified logic.
pub enum MdxNode {
    Element(Element),
    Text(String),
    Comment(String),
}

/// A tag is custom exactly when its name starts with an ASCII uppercase
/// letter; every other name (empty ones included) is a standard tag.
pub open spec fn spec_is_component_tag_name(name: Seq<char>) -> bool {
    name.len() > 0 && 'A' as u32 <= name[0] as u32 && name[0] as u32 <= 'Z' as u32
}

/// Classifies a tag name: custom tags are rendered by a `Handler`,
/// standard tags are re-serialized as markup.
pub fn is_component_tag_name(name: &str) -> (r: bool)
    ensures
        r == spec_is_component_tag_name(name@),
{
    if name.unicode_len() == 0 {
        false
    } else {
        let c = name.get_char(0);
        ('A' as u32) <= (c as u32) && (c as u32) <= ('Z' as u32)
    }
}

} // verus!
