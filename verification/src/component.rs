//! Which classes count as components, and the member they are given.
//!
//! A class is taken for a component when one of its methods is keyed by the
//! identifier `render`. A component receives a static `displayName` property
//! holding its own name, unless it declares a property of that key already.
//! Keys that are not plain identifiers never match either name.

use vstd::prelude::*;
use crate::ast::{Class, ClassView, Expr, ExprView, Key, KeyView, Member, MemberView, Property, PropertyView};

verus! {

/// The method key that marks a class as a component.
pub const RENDER: &'static str = "render";

/// The key of the property that names a component.
pub const DISPLAY_NAME: &'static str = "displayName";

/// An edit to a class body: place `member` at position `index`.
#[derive(Debug, PartialEq, Eq)]
pub struct Insertion {
    pub index: usize,
    pub member: Member,
}

/// View of [`Insertion`].
pub struct InsertionView {
    pub index: int,
    pub member: MemberView,
}

impl View for Insertion {
    type V = InsertionView;

    open spec fn view(&self) -> InsertionView {
        InsertionView { index: self.index as int, member: self.member@ }
    }
}

/// The view of an edit that may be absent.
pub open spec fn plan_view(plan: Option<Insertion>) -> Option<InsertionView> {
    match plan {
        Some(edit) => Some(edit@),
        None => None,
    }
}

impl KeyView {
    /// Whether the key is the plain identifier `name`.
    pub open spec fn is_ident(self, name: Seq<char>) -> bool {
        self == KeyView::Ident(name)
    }
}

impl MemberView {
    /// Whether the member is a method keyed by the identifier `name`.
    pub open spec fn is_method_named(self, name: Seq<char>) -> bool {
        self matches MemberView::Method { key, .. } && key.is_ident(name)
    }

    /// Whether the member is a property keyed by the identifier `name`.
    pub open spec fn is_property_named(self, name: Seq<char>) -> bool {
        self matches MemberView::Property(p) && p.key.is_ident(name)
    }

    /// Whether the member is a method keyed `render`.
    pub open spec fn is_render_method(self) -> bool {
        self.is_method_named(RENDER@)
    }

    /// Whether the member is a property keyed `displayName`, whatever it holds.
    pub open spec fn is_display_name_property(self) -> bool {
        self.is_property_named(DISPLAY_NAME@)
    }

    /// The member given to a component called `name`: a static property
    /// keyed `displayName`, without a type annotation, initialised with the
    /// string literal `name`.
    pub open spec fn display_name(name: Seq<char>) -> MemberView {
        MemberView::Property(
            PropertyView {
                key: KeyView::Ident(DISPLAY_NAME@),
                is_static: true,
                type_ann: None,
                value: Some(ExprView::Str(name)),
            },
        )
    }
}

impl ClassView {
    /// Whether some member is a method keyed `render`.
    pub open spec fn is_component(self) -> bool {
        exists|i: int| 0 <= i < self.body.len() && (#[trigger] self.body[i]).is_render_method()
    }

    /// Whether some member is a property keyed `displayName`.
    pub open spec fn has_display_name(self) -> bool {
        exists|i: int|
            0 <= i < self.body.len() && (#[trigger] self.body[i]).is_display_name_property()
    }

    /// Whether the class is a component that does not name itself yet.
    pub open spec fn needs_display_name(self) -> bool {
        self.is_component() && !self.has_display_name()
    }

    /// The class after it has been offered the name `name`: with
    /// `displayName` in front of its members where it needs one, and as it
    /// was otherwise.
    pub open spec fn with_display_name(self, name: Seq<char>) -> ClassView {
        if self.needs_display_name() {
            ClassView { body: seq![MemberView::display_name(name)] + self.body }
        } else {
            self
        }
    }

    /// The edit that [`ClassView::with_display_name`] amounts to, or `None`
    /// where the class stays as it is.
    pub open spec fn planned_insertion(self, name: Seq<char>) -> Option<InsertionView> {
        if self.needs_display_name() {
            Some(InsertionView { index: 0, member: MemberView::display_name(name) })
        } else {
            None
        }
    }

    /// The class after an edit has been made to it.
    pub open spec fn applied(self, plan: Option<InsertionView>) -> ClassView {
        match plan {
            Some(edit) => ClassView { body: self.body.insert(edit.index, edit.member) },
            None => self,
        }
    }
}

impl Key {
    /// Whether the key is the plain identifier `name`.
    pub fn is_ident(&self, name: &String) -> (r: bool)
        ensures
            r == self@.is_ident(name@),
    {
        match self {
            Key::Ident(own) => *own == *name,
            _ => false,
        }
    }
}

impl Member {
    /// Whether the member is a method keyed by the identifier `name`.
    pub fn is_method_named(&self, name: &String) -> (r: bool)
        ensures
            r == self@.is_method_named(name@),
    {
        match self {
            Member::Method { key, .. } => key.is_ident(name),
            _ => false,
        }
    }

    /// Whether the member is a property keyed by the identifier `name`.
    pub fn is_property_named(&self, name: &String) -> (r: bool)
        ensures
            r == self@.is_property_named(name@),
    {
        match self {
            Member::Property(p) => p.key.is_ident(name),
            _ => false,
        }
    }

    /// Whether the member is a method keyed `render`.
    pub fn is_render_method(&self) -> (r: bool)
        ensures
            r == self@.is_render_method(),
    {
        let name: String = RENDER.to_owned();
        self.is_method_named(&name)
    }

    /// Whether the member is a property keyed `displayName`.
    pub fn is_display_name_property(&self) -> (r: bool)
        ensures
            r == self@.is_display_name_property(),
    {
        let name: String = DISPLAY_NAME.to_owned();
        self.is_property_named(&name)
    }

    /// Builds the member given to a component called `name`.
    pub fn display_name(name: &str) -> (member: Member)
        ensures
            member@ == MemberView::display_name(name@),
    {
        Member::Property(
            Property {
                key: Key::Ident(DISPLAY_NAME.to_owned()),
                is_static: true,
                type_ann: None,
                value: Some(Expr::Str(name.to_owned())),
            },
        )
    }
}

impl Class {
    /// Whether the class has a method keyed `render`.
    pub fn is_component(&self) -> (r: bool)
        ensures
            r == self@.is_component(),
    {
        let name: String = RENDER.to_owned();
        let mut i: usize = 0;
        while i < self.body.len()
            invariant
                i <= self.body.len(),
                name@ == RENDER@,
                forall|j: int| 0 <= j < i ==> !(#[trigger] self@.body[j]).is_render_method(),
            decreases self.body.len() - i,
        {
            if self.body[i].is_method_named(&name) {
                assert(self@.body[i as int].is_render_method());
                return true;
            }
            i = i + 1;
        }
        false
    }

    /// Whether the class has a property keyed `displayName`.
    pub fn has_display_name(&self) -> (r: bool)
        ensures
            r == self@.has_display_name(),
    {
        let name: String = DISPLAY_NAME.to_owned();
        let mut i: usize = 0;
        while i < self.body.len()
            invariant
                i <= self.body.len(),
                name@ == DISPLAY_NAME@,
                forall|j: int|
                    0 <= j < i ==> !(#[trigger] self@.body[j]).is_display_name_property(),
            decreases self.body.len() - i,
        {
            if self.body[i].is_property_named(&name) {
                assert(self@.body[i as int].is_display_name_property());
                return true;
            }
            i = i + 1;
        }
        false
    }

    /// Whether the class is a component that does not name itself yet.
    pub fn needs_display_name(&self) -> (r: bool)
        ensures
            r == self@.needs_display_name(),
    {
        self.is_component() && !self.has_display_name()
    }

    /// Decides what offering the name `ident` does to the class, without
    /// touching it: the member to insert and where, or `None`.
    ///
    /// A host that keeps its own tree applies the edit there.
    pub fn planned_insertion(&self, ident: &str) -> (plan: Option<Insertion>)
        ensures
            plan_view(plan) == self@.planned_insertion(ident@),
            self@.applied(plan_view(plan)) == self@.with_display_name(ident@),
    {
        if self.needs_display_name() {
            let member = Member::display_name(ident);
            assert(self@.body.insert(0, member@) =~= seq![member@] + self@.body);
            Some(Insertion { index: 0, member })
        } else {
            None
        }
    }
}

} // verus!
