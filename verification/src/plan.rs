//! The transform as a list of edits, for a host that keeps its own tree.
//!
//! A host that cannot hand over its tree describes one declaration at a
//! time, asks what is to be done to the classes that the declaration
//! declares, and makes those edits itself. What is nested in the declaration
//! it describes in turn, as it comes to it.

use vstd::prelude::*;
use crate::ast::{declarators_view, Decl, DeclView, Expr, VarDeclarator};
use crate::component::{plan_view, Insertion, InsertionView};
use crate::visitor::TransformVisitor;

verus! {

/// The views of a list of edits, in order.
pub open spec fn plans_view(plans: Vec<Option<Insertion>>) -> Seq<Option<InsertionView>> {
    Seq::new(plans.len() as nat, |i: int| plan_view(plans[i]))
}

impl VarDeclarator {
    /// Decides what the transform does to the class that the binding
    /// declares, without touching it.
    ///
    /// The result is `None` where the binding is not initialised with a
    /// class expression, where that class has no name to go by, and where
    /// the class does not need a `displayName`.
    pub fn planned_insertion(&self) -> (plan: Option<Insertion>)
        ensures
            plan_view(plan) == self@.planned_insertion(),
    {
        match &self.init {
            Some(Expr::Class { ident, class }) => {
                match TransformVisitor::class_expr_name(ident, &self.name) {
                    Some(name) => class.planned_insertion(name.as_str()),
                    None => None,
                }
            },
            _ => None,
        }
    }
}

impl Decl {
    /// Decides what the transform does to the classes that the declaration
    /// itself declares, without touching them.
    ///
    /// A class declaration gives one entry. A variable declaration gives
    /// one entry for each binding, in order. Any other declaration gives
    /// none.
    pub fn planned_insertions(&self) -> (plans: Vec<Option<Insertion>>)
        ensures
            plans_view(plans) == self@.planned_insertions(),
    {
        let mut plans: Vec<Option<Insertion>> = Vec::new();
        match self {
            Decl::Class { ident, class } => {
                plans.push(class.planned_insertion(ident.as_str()));
                assert(plans_view(plans) =~= self@.planned_insertions());
            },
            Decl::Var(decls) => {
                let mut i: usize = 0;
                while i < decls.len()
                    invariant
                        i <= decls.len(),
                        plans.len() == i,
                        forall|j: int|
                            0 <= j < i ==> plan_view(#[trigger] plans[j])
                                == decls[j]@.planned_insertion(),
                    decreases decls.len() - i,
                {
                    plans.push(decls[i].planned_insertion());
                    i = i + 1;
                }
                assert(self@ == DeclView::Var(declarators_view(*decls)));
                assert(plans_view(plans) =~= self@.planned_insertions());
            },
            _ => {
                assert(plans_view(plans) =~= self@.planned_insertions());
            },
        }
        plans
    }
}

} // verus!
