//! Items: paths such as `std::option::Option` that name the things a module
//! registers.

use crate::assoc::KeyEq;
use vstd::prelude::*;

verus! {

/// One component of an item path.
#[derive(Debug)]
pub enum Component {
    /// The crate the path starts in.
    Crate(String),
    /// A named segment of the path.
    Str(String),
}

/// The abstract value of a component.
pub enum ComponentView {
    /// The crate the path starts in.
    Crate(Seq<char>),
    /// A named segment of the path.
    Str(Seq<char>),
}

impl View for Component {
    type V = ComponentView;

    open spec fn view(&self) -> ComponentView {
        match self {
            Component::Crate(s) => ComponentView::Crate(s@),
            Component::Str(s) => ComponentView::Str(s@),
        }
    }
}

impl Component {
    /// Compare two components by value.
    pub fn eq_component(&self, other: &Component) -> (b: bool)
        ensures
            b == (self@ == other@),
    {
        match self {
            Component::Crate(a) => match other {
                Component::Crate(b) => *a == *b,
                Component::Str(_) => false,
            },
            Component::Str(a) => match other {
                Component::Str(b) => *a == *b,
                Component::Crate(_) => false,
            },
        }
    }
}

/// An item path, made of components.
#[derive(Debug)]
pub struct Item {
    components: Vec<Component>,
}

/// The path of named segments `names`, as built by [`Item::with_item`].
pub open spec fn spec_with_item(names: Seq<&str>) -> Seq<ComponentView> {
    Seq::new(names.len(), |i: int| ComponentView::Str(names[i]@))
}

impl View for Item {
    type V = Seq<ComponentView>;

    closed spec fn view(&self) -> Seq<ComponentView> {
        Seq::new(self.components@.len(), |i: int| self.components@[i]@)
    }
}

impl Item {
    /// The empty item: the root of the path hierarchy.
    pub fn new() -> (item: Item)
        ensures
            item@ == Seq::<ComponentView>::empty(),
    {
        let item = Item { components: Vec::new() };
        assert(item@ =~= Seq::<ComponentView>::empty());
        item
    }

    /// An item made of the given named segments.
    pub fn with_item(names: &[&str]) -> (item: Item)
        ensures
            item@ == spec_with_item(names@),
    {
        let mut item = Item::new();
        item.push_names(names);
        item
    }

    /// An item naming the root of the given crate.
    pub fn with_crate(name: &str) -> (item: Item)
        ensures
            item@ == seq![ComponentView::Crate(name@)],
    {
        let mut components = Vec::new();
        components.push(Component::Crate(name.to_owned()));
        let item = Item { components };
        assert(item@ =~= seq![ComponentView::Crate(name@)]);
        item
    }

    /// An item in the given crate, made of the given named segments.
    pub fn with_crate_item(name: &str, names: &[&str]) -> (item: Item)
        ensures
            item@ == seq![ComponentView::Crate(name@)] + spec_with_item(names@),
    {
        let mut item = Item::with_crate(name);
        item.push_names(names);
        item
    }

    /// An item of the one named segment `name`.
    pub fn with_name(name: String) -> (item: Item)
        ensures
            item@ == seq![ComponentView::Str(name@)],
    {
        let mut components = Vec::new();
        components.push(Component::Str(name));
        let item = Item { components };
        assert(item@ =~= seq![ComponentView::Str(name@)]);
        item
    }

    /// Append each of `names` as a named segment.
    fn push_names(&mut self, names: &[&str])
        ensures
            final(self)@ == old(self)@ + spec_with_item(names@),
    {
        let mut i: usize = 0;
        while i < names.len()
            invariant
                i <= names@.len(),
                self@ == old(self)@ + spec_with_item(names@.take(i as int)),
            decreases names@.len() - i,
        {
            let ghost before = self@;
            self.components.push(Component::Str(names[i].to_owned()));
            proof {
                assert(self@ =~= before.push(ComponentView::Str(names@[i as int]@)));
                assert(spec_with_item(names@.take(i + 1)) =~= spec_with_item(names@.take(i as int)).push(
                    ComponentView::Str(names@[i as int]@),
                ));
            }
            i = i + 1;
        }
        assert(names@.take(names@.len() as int) =~= names@);
    }

    /// The number of components.
    pub fn len(&self) -> (n: usize)
        ensures
            n == self@.len(),
    {
        self.components.len()
    }

    /// Compare two items by value.
    pub fn eq_item(&self, other: &Item) -> (b: bool)
        ensures
            b == (self@ == other@),
    {
        let n = self.components.len();
        if n != other.components.len() {
            proof {
                if self@ == other@ {
                    assert(self@.len() == other@.len());
                }
            }
            return false;
        }
        let mut i: usize = 0;
        while i < n
            invariant
                n == self.components@.len(),
                n == other.components@.len(),
                i <= n,
                forall|j: int| 0 <= j < i ==> self@[j] == other@[j],
            decreases n - i,
        {
            if !self.components[i].eq_component(&other.components[i]) {
                assert(self@[i as int] != other@[i as int]);
                return false;
            }
            i = i + 1;
        }
        assert(self@ =~= other@);
        true
    }
}

impl KeyEq for Item {
    fn key_eq(&self, other: &Item) -> (b: bool) {
        self.eq_item(other)
    }
}

} // verus!
