//! Tags: named virtual workspaces.

use vstd::prelude::*;

verus! {

/// A named virtual workspace with an optional layout.
#[derive(Clone, Debug)]
pub struct Tag {
    pub name: String,
    pub layout: Option<String>,
}

impl Tag {
    /// Whether two tags are the same tag: tags are compared by name.
    pub open spec fn same_tag(self, other: Tag) -> bool {
        self.name@ == other.name@
    }

    /// A copy of the tag's name.
    pub fn name(&self) -> (n: String)
        ensures
            n@ == self.name@,
    {
        self.name.clone()
    }

    /// The layout in force on this tag: its own, or the default where it has none.
    pub open spec fn layout_in_force(self, default_layout: Seq<char>) -> Seq<char> {
        match self.layout {
            Some(layout) => layout@,
            None => default_layout,
        }
    }

    /// The layout in force on this tag: its own, or the default where it has none.
    pub fn layout_or(&self, default_layout: &String) -> (layout: String)
        ensures
            layout@ == self.layout_in_force(default_layout@),
    {
        match &self.layout {
            Some(layout) => layout.clone(),
            None => default_layout.clone(),
        }
    }

    /// A tag with the given name and no layout of its own.
    pub fn new(s: String) -> (t: Tag)
        ensures
            t.name == s,
            t.layout.is_none(),
    {
        Tag { name: s, layout: None }
    }

}

impl PartialEq for Tag {
    /// Tags are equal when their names are.
    fn eq(&self, other: &Tag) -> (same: bool) {
        self.name == other.name
    }
}

impl vstd::std_specs::cmp::PartialEqSpecImpl for Tag {
    open spec fn obeys_eq_spec() -> bool {
        true
    }

    open spec fn eq_spec(&self, other: &Tag) -> bool {
        self.same_tag(*other)
    }
}

} // verus!
