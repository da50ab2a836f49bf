//! The pass over a tree.
//!
//! [`TransformVisitor`] reaches every declaration of a tree, however deeply
//! it is nested, and offers each class that a declaration binds the name it
//! is bound to. The pass keeps no state: what it makes of a node depends on
//! that node alone.

use vstd::prelude::*;
use crate::ast::{
    declarators_view, name_view, stmts_view, Class, Decl, Expr, Member, MemberView, Program,
    Stmt, VarDeclarator,
};
use crate::laws::lemma_order_is_immaterial;
use crate::size::{
    declarators_size, lemma_declarator_is_smaller, lemma_member_is_smaller,
    lemma_size_with_display_name, lemma_stmt_is_smaller, stmts_size,
};
use crate::transform::{
    class_expr_name, transformed_declarators, transformed_stmts, walked_members,
};

verus! {

/// What a host hands over beside the tree. The transform reads nothing
/// from it.
#[derive(Debug, PartialEq, Eq)]
pub struct PluginMetadata {
    /// The configuration that the host was given for this plugin, as text.
    pub plugin_config: Option<String>,
}

/// The pass that gives components their `displayName`.
pub struct TransformVisitor;

impl TransformVisitor {
    /// A visitor ready for any number of trees.
    pub fn new() -> (visitor: Self) {
        Self
    }

    /// Offers `class` the name `ident`.
    ///
    /// A class with a `render` method and without a `displayName` property
    /// gets `static displayName = "<ident>"` as its first member, in front of
    /// all the members it had, which keep their order. Any other class is
    /// left exactly as it was: one without a `render` method, and one that
    /// declares `displayName` already, whatever value that property holds.
    pub fn add_displayname(&mut self, class: &mut Class, ident: &str)
        ensures
            final(class)@ == old(class)@.with_display_name(ident@),
            !old(class)@.is_component() ==> final(class)@ == old(class)@,
            old(class)@.has_display_name() ==> final(class)@ == old(class)@,
            old(class)@.needs_display_name() ==> {
                &&& final(class)@.body.len() == old(class)@.body.len() + 1
                &&& final(class)@.body[0] == MemberView::display_name(ident@)
                &&& forall|i: int|
                    0 <= i < old(class)@.body.len() ==> #[trigger] final(class)@.body[i + 1] == old(
                        class,
                    )@.body[i]
            },
    {
        match class.planned_insertion(ident) {
            Some(edit) => {
                let ghost planned = edit@;
                class.body.insert(edit.index, edit.member);
                assert(class@.body =~= old(class)@.body.insert(planned.index, planned.member));
            },
            None => {},
        }
    }

    /// Transforms every declaration inside an expression. A class
    /// expression met here is entered, but not named.
    pub fn visit_mut_expr(&mut self, expr: &mut Expr)
        ensures
            final(expr)@ == old(expr)@.walked(),
        decreases old(expr)@.size(),
    {
        match expr {
            Expr::Class { ident: _, class } => {
                self.visit_mut_class(class);
            },
            _ => {},
        }
    }

    /// Transforms every declaration inside a class member.
    pub fn visit_mut_class_member(&mut self, member: &mut Member)
        ensures
            final(member)@ == old(member)@.walked(),
        decreases old(member)@.size(),
    {
        match member {
            Member::Property(p) => {
                match &mut p.value {
                    Some(value) => {
                        self.visit_mut_expr(value);
                    },
                    None => {},
                }
            },
            Member::Method { key: _, body } => {
                self.visit_mut_stmts(body);
            },
            Member::Other => {},
        }
    }

    /// Transforms every declaration inside the members of a class, member
    /// by member in source order. The class itself is not offered a name
    /// here.
    pub fn visit_mut_class(&mut self, class: &mut Class)
        ensures
            final(class)@ == old(class)@.walked(),
        decreases old(class)@.size(),
    {
        let n: usize = class.body.len();
        let mut i: usize = 0;
        while i < n
            invariant
                i <= n,
                class.body.len() == n,
                old(class).body.len() == n,
                forall|j: int|
                    0 <= j < i ==> (#[trigger] class.body[j])@ == old(class).body[j]@.walked(),
                forall|j: int| i <= j < n ==> #[trigger] class.body[j] == old(class).body[j],
            decreases n - i,
        {
            proof {
                lemma_member_is_smaller(old(class)@.body, i as int);
            }
            self.visit_mut_class_member(&mut class.body[i]);
            i = i + 1;
        }
        assert(class@.body =~= walked_members(old(class)@.body));
    }

    /// The name that a class expression bound by a variable goes by: the
    /// name written after `class` where there is one, else the name of the
    /// variable. `None` means that there is neither.
    pub fn class_expr_name<'a>(own: &'a Option<String>, bound: &'a Option<String>) -> (name:
        Option<&'a String>)
        ensures
            class_expr_name(name_view(*own), name_view(*bound)) == match name {
                Some(n) => Some(n@),
                None => None,
            },
    {
        match own {
            Some(n) => Some(n),
            None => match bound {
                Some(n) => Some(n),
                None => None,
            },
        }
    }

    /// Transforms one binding of a variable declaration.
    ///
    /// Where the binding is initialised with a class expression, that class
    /// is offered the name written after `class`, or else the name of the
    /// variable, and is then entered. A class expression that has neither
    /// name is entered and otherwise left alone.
    pub fn visit_mut_var_declarator(&mut self, declarator: &mut VarDeclarator)
        ensures
            final(declarator)@ == old(declarator)@.transformed(),
        decreases old(declarator)@.size(),
    {
        match &mut declarator.init {
            Some(Expr::Class { ident, class }) => {
                let ghost unnamed = class@;
                match Self::class_expr_name(ident, &declarator.name) {
                    Some(name) => {
                        self.add_displayname(class, name.as_str());
                        proof {
                            lemma_size_with_display_name(unnamed, name@);
                            lemma_order_is_immaterial(unnamed, name@);
                        }
                    },
                    None => {},
                }
                self.visit_mut_class(class);
            },
            _ => {},
        }
    }

    /// Transforms the bindings of a variable declaration, in source order.
    pub fn visit_mut_var_declarators(&mut self, decls: &mut Vec<VarDeclarator>)
        ensures
            declarators_view(*final(decls)) == transformed_declarators(
                declarators_view(*old(decls)),
            ),
        decreases declarators_size(declarators_view(*old(decls))),
    {
        let n: usize = decls.len();
        let mut i: usize = 0;
        while i < n
            invariant
                i <= n,
                decls.len() == n,
                old(decls).len() == n,
                forall|j: int|
                    0 <= j < i ==> (#[trigger] decls[j])@ == old(decls)[j]@.transformed(),
                forall|j: int| i <= j < n ==> #[trigger] decls[j] == old(decls)[j],
            decreases n - i,
        {
            proof {
                lemma_declarator_is_smaller(declarators_view(*old(decls)), i as int);
            }
            self.visit_mut_var_declarator(&mut decls[i]);
            i = i + 1;
        }
        assert(declarators_view(*decls) =~= transformed_declarators(
            declarators_view(*old(decls)),
        ));
    }

    /// Transforms a declaration and every declaration nested in it: the
    /// declaration first, then what it encloses.
    ///
    /// A class declaration has its class offered the declared name. A
    /// variable declaration has each binding transformed. A function is
    /// entered for the declarations in its body. Every other kind of
    /// declaration passes through unchanged.
    pub fn visit_mut_decl(&mut self, decl: &mut Decl)
        ensures
            final(decl)@ == old(decl)@.transformed(),
        decreases old(decl)@.size(),
    {
        match decl {
            Decl::Class { ident, class } => {
                let ghost unnamed = class@;
                self.add_displayname(class, ident.as_str());
                proof {
                    lemma_size_with_display_name(unnamed, ident@);
                    lemma_order_is_immaterial(unnamed, ident@);
                }
                self.visit_mut_class(class);
            },
            Decl::Var(decls) => {
                self.visit_mut_var_declarators(decls);
            },
            Decl::Fn { ident: _, body } => {
                self.visit_mut_stmts(body);
            },
            Decl::Other => {},
        }
    }

    /// Transforms every declaration inside a statement.
    pub fn visit_mut_stmt(&mut self, stmt: &mut Stmt)
        ensures
            final(stmt)@ == old(stmt)@.transformed(),
        decreases old(stmt)@.size(),
    {
        match stmt {
            Stmt::Decl(decl) => {
                self.visit_mut_decl(decl);
            },
            Stmt::Block(stmts) => {
                self.visit_mut_stmts(stmts);
            },
            Stmt::Other => {},
        }
    }

    /// Transforms every declaration inside a run of statements, in source
    /// order.
    pub fn visit_mut_stmts(&mut self, stmts: &mut Vec<Stmt>)
        ensures
            stmts_view(*final(stmts)) == transformed_stmts(stmts_view(*old(stmts))),
        decreases stmts_size(stmts_view(*old(stmts))),
    {
        let n: usize = stmts.len();
        let mut i: usize = 0;
        while i < n
            invariant
                i <= n,
                stmts.len() == n,
                old(stmts).len() == n,
                forall|j: int|
                    0 <= j < i ==> (#[trigger] stmts[j])@ == old(stmts)[j]@.transformed(),
                forall|j: int| i <= j < n ==> #[trigger] stmts[j] == old(stmts)[j],
            decreases n - i,
        {
            proof {
                lemma_stmt_is_smaller(stmts_view(*old(stmts)), i as int);
            }
            self.visit_mut_stmt(&mut stmts[i]);
            i = i + 1;
        }
        assert(stmts_view(*stmts) =~= transformed_stmts(stmts_view(*old(stmts))));
    }

    /// Transforms every declaration of a program.
    pub fn visit_mut_program(&mut self, program: &mut Program)
        ensures
            final(program)@ == old(program)@.transformed(),
    {
        self.visit_mut_stmts(&mut program.body);
    }
}

/// The entry point for a host: takes a program, gives every component in it
/// its `displayName`, and hands the program back. `_metadata` is ignored.
pub fn process_transform(program: Program, _metadata: PluginMetadata) -> (out: Program)
    ensures
        out@ == program@.transformed(),
{
    let mut program = program;
    let mut visitor = TransformVisitor::new();
    visitor.visit_mut_program(&mut program);
    program
}

} // verus!
