//! What the transform makes of a tree, as functions on views.
//!
//! A node is *walked* when every declaration nested inside it has been
//! transformed, and *transformed* when, in addition, the classes that the
//! node itself declares have been offered their names. Classes are declared
//! by class declarations and by variable bindings initialised with a class
//! expression; a class expression anywhere else is only walked.

use vstd::prelude::*;
use crate::ast::{
    ClassView, DeclView, ExprView, MemberView, ProgramView, PropertyView, StmtView,
    VarDeclaratorView,
};
use crate::component::InsertionView;

verus! {

/// The name that a class expression bound by a variable goes by: the name
/// written after `class` where there is one, else the name of the variable.
/// `None` means that the class cannot be named and is left alone.
pub open spec fn class_expr_name(own: Option<Seq<char>>, bound: Option<Seq<char>>) -> Option<
    Seq<char>,
> {
    if own is Some {
        own
    } else {
        bound
    }
}

/// Each member walked, in order.
pub open spec fn walked_members(members: Seq<MemberView>) -> Seq<MemberView>
    decreases members,
{
    Seq::new(
        members.len(),
        |i: int|
            if 0 <= i < members.len() {
                members[i].walked()
            } else {
                arbitrary()
            },
    )
}

/// Each binding transformed, in order.
pub open spec fn transformed_declarators(decls: Seq<VarDeclaratorView>) -> Seq<VarDeclaratorView>
    decreases decls,
{
    Seq::new(
        decls.len(),
        |i: int|
            if 0 <= i < decls.len() {
                decls[i].transformed()
            } else {
                arbitrary()
            },
    )
}

/// Each statement transformed, in order.
pub open spec fn transformed_stmts(stmts: Seq<StmtView>) -> Seq<StmtView>
    decreases stmts,
{
    Seq::new(
        stmts.len(),
        |i: int|
            if 0 <= i < stmts.len() {
                stmts[i].transformed()
            } else {
                arbitrary()
            },
    )
}

impl ExprView {
    /// The expression with the declarations inside it transformed. A class
    /// expression is walked, not named: naming is up to what binds it.
    pub open spec fn walked(self) -> ExprView
        decreases self,
    {
        match self {
            ExprView::Class { ident, class } => ExprView::Class { ident, class: class.walked() },
            ExprView::Str(text) => ExprView::Str(text),
            ExprView::Other => ExprView::Other,
        }
    }
}

impl MemberView {
    /// The member with the declarations inside it transformed: those in a
    /// method's body and those in a property's initialiser.
    pub open spec fn walked(self) -> MemberView
        decreases self,
    {
        match self {
            MemberView::Property(p) => MemberView::Property(
                PropertyView {
                    key: p.key,
                    is_static: p.is_static,
                    type_ann: p.type_ann,
                    value: match p.value {
                        Some(e) => Some(e.walked()),
                        None => None,
                    },
                },
            ),
            MemberView::Method { key, body } => MemberView::Method {
                key,
                body: transformed_stmts(body),
            },
            MemberView::Other => MemberView::Other,
        }
    }
}

impl ClassView {
    /// The class with the declarations inside its members transformed.
    pub open spec fn walked(self) -> ClassView
        decreases self,
    {
        ClassView { body: walked_members(self.body) }
    }

    /// The class after it has been offered `name`, if there is a name to
    /// offer.
    pub open spec fn named(self, name: Option<Seq<char>>) -> ClassView {
        match name {
            Some(n) => self.with_display_name(n),
            None => self,
        }
    }
}

impl VarDeclaratorView {
    /// The binding transformed: a class expression that initialises it is
    /// walked and offered the name it goes by.
    pub open spec fn transformed(self) -> VarDeclaratorView
        decreases self,
    {
        VarDeclaratorView {
            name: self.name,
            init: match self.init {
                Some(ExprView::Class { ident, class }) => Some(
                    ExprView::Class {
                        ident,
                        class: class.walked().named(class_expr_name(ident, self.name)),
                    },
                ),
                Some(ExprView::Str(text)) => Some(ExprView::Str(text)),
                Some(ExprView::Other) => Some(ExprView::Other),
                None => None,
            },
        }
    }
}

impl DeclView {
    /// The declaration transformed. A class declaration is walked and
    /// offered its own name; a variable declaration has each binding
    /// transformed; a function has its body transformed; any other
    /// declaration stays as it is.
    pub open spec fn transformed(self) -> DeclView
        decreases self,
    {
        match self {
            DeclView::Class { ident, class } => DeclView::Class {
                ident,
                class: class.walked().with_display_name(ident),
            },
            DeclView::Var(decls) => DeclView::Var(transformed_declarators(decls)),
            DeclView::Fn { ident, body } => DeclView::Fn { ident, body: transformed_stmts(body) },
            DeclView::Other => DeclView::Other,
        }
    }
}

impl StmtView {
    /// The statement with every declaration in it transformed.
    pub open spec fn transformed(self) -> StmtView
        decreases self,
    {
        match self {
            StmtView::Decl(decl) => StmtView::Decl(decl.transformed()),
            StmtView::Block(stmts) => StmtView::Block(transformed_stmts(stmts)),
            StmtView::Other => StmtView::Other,
        }
    }
}

impl ProgramView {
    /// The program with every declaration in it transformed.
    pub open spec fn transformed(self) -> ProgramView {
        ProgramView { body: transformed_stmts(self.body) }
    }
}

impl VarDeclaratorView {
    /// The edit that the transform makes to the class that the binding
    /// declares, or `None` where it makes none.
    pub open spec fn planned_insertion(self) -> Option<InsertionView> {
        match self.init {
            Some(ExprView::Class { ident, class }) => match class_expr_name(ident, self.name) {
                Some(name) => class.planned_insertion(name),
                None => None,
            },
            _ => None,
        }
    }

    /// The binding after an edit has been made to the class that it
    /// declares.
    pub open spec fn applied(self, plan: Option<InsertionView>) -> VarDeclaratorView {
        match self.init {
            Some(ExprView::Class { ident, class }) => VarDeclaratorView {
                name: self.name,
                init: Some(ExprView::Class { ident, class: class.applied(plan) }),
            },
            _ => self,
        }
    }

    /// The binding with the declarations inside its initialiser
    /// transformed.
    pub open spec fn walked(self) -> VarDeclaratorView {
        VarDeclaratorView {
            name: self.name,
            init: match self.init {
                Some(e) => Some(e.walked()),
                None => None,
            },
        }
    }
}

impl DeclView {
    /// The edits that the transform makes to the classes that the
    /// declaration itself declares: one entry for a class declaration, one
    /// entry for each binding of a variable declaration, none for any other
    /// declaration.
    pub open spec fn planned_insertions(self) -> Seq<Option<InsertionView>> {
        match self {
            DeclView::Class { ident, class } => seq![class.planned_insertion(ident)],
            DeclView::Var(decls) => Seq::new(decls.len(), |i: int| decls[i].planned_insertion()),
            _ => Seq::empty(),
        }
    }

    /// The declaration after the edits have been made to the classes that
    /// it declares, entry by entry.
    pub open spec fn applied(self, plans: Seq<Option<InsertionView>>) -> DeclView {
        match self {
            DeclView::Class { ident, class } => DeclView::Class {
                ident,
                class: class.applied(plans[0]),
            },
            DeclView::Var(decls) => DeclView::Var(
                Seq::new(decls.len(), |i: int| decls[i].applied(plans[i])),
            ),
            _ => self,
        }
    }

    /// The declaration with the declarations nested in it transformed.
    pub open spec fn walked(self) -> DeclView {
        match self {
            DeclView::Class { ident, class } => DeclView::Class { ident, class: class.walked() },
            DeclView::Var(decls) => DeclView::Var(
                Seq::new(decls.len(), |i: int| decls[i].walked()),
            ),
            DeclView::Fn { ident, body } => DeclView::Fn { ident, body: transformed_stmts(body) },
            DeclView::Other => DeclView::Other,
        }
    }
}

/// Whether every member is settled.
pub open spec fn members_settled(members: Seq<MemberView>) -> bool
    decreases members,
{
    forall|i: int| 0 <= i < members.len() ==> (#[trigger] members[i]).settled()
}

/// Whether every binding is settled.
pub open spec fn declarators_settled(decls: Seq<VarDeclaratorView>) -> bool
    decreases decls,
{
    forall|i: int| 0 <= i < decls.len() ==> (#[trigger] decls[i]).settled()
}

/// Whether every statement is settled.
pub open spec fn stmts_settled(stmts: Seq<StmtView>) -> bool
    decreases stmts,
{
    forall|i: int| 0 <= i < stmts.len() ==> (#[trigger] stmts[i]).settled()
}

impl ExprView {
    /// Whether the declarations inside the expression are settled.
    pub open spec fn settled(self) -> bool
        decreases self,
    {
        match self {
            ExprView::Class { ident, class } => members_settled(class.body),
            ExprView::Str(text) => true,
            ExprView::Other => true,
        }
    }
}

impl MemberView {
    /// Whether the declarations inside the member are settled.
    pub open spec fn settled(self) -> bool
        decreases self,
    {
        match self {
            MemberView::Property(p) => match p.value {
                Some(e) => e.settled(),
                None => true,
            },
            MemberView::Method { key, body } => stmts_settled(body),
            MemberView::Other => true,
        }
    }
}

impl VarDeclaratorView {
    /// Whether the binding is settled: a class that it declares under a
    /// name needs no `displayName`, and what is inside its initialiser is
    /// settled.
    pub open spec fn settled(self) -> bool
        decreases self,
    {
        match self.init {
            Some(ExprView::Class { ident, class }) => {
                &&& class_expr_name(ident, self.name) is Some ==> !class.needs_display_name()
                &&& members_settled(class.body)
            },
            Some(ExprView::Str(text)) => true,
            Some(ExprView::Other) => true,
            None => true,
        }
    }
}

impl DeclView {
    /// Whether the declaration is settled: a class that it declares needs
    /// no `displayName`, and every declaration nested in it is settled.
    pub open spec fn settled(self) -> bool
        decreases self,
    {
        match self {
            DeclView::Class { ident, class } => {
                &&& !class.needs_display_name()
                &&& members_settled(class.body)
            },
            DeclView::Var(decls) => declarators_settled(decls),
            DeclView::Fn { ident, body } => stmts_settled(body),
            DeclView::Other => true,
        }
    }
}

impl StmtView {
    /// Whether every declaration in the statement is settled.
    pub open spec fn settled(self) -> bool
        decreases self,
    {
        match self {
            StmtView::Decl(decl) => decl.settled(),
            StmtView::Block(stmts) => stmts_settled(stmts),
            StmtView::Other => true,
        }
    }
}

impl ProgramView {
    /// Whether the transform has nothing left to do: no class that a
    /// declaration of the program declares under a name is a component
    /// without a `displayName`.
    pub open spec fn settled(self) -> bool {
        stmts_settled(self.body)
    }
}

} // verus!
