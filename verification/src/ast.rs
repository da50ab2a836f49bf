//! The slice of a program tree that the transform reads and writes.
//!
//! A host parser owns the full syntax tree. This module holds the part of it
//! that decides where a `displayName` goes: declarations, the classes they
//! bind, the members of those classes, and the statements that nest further
//! declarations. Everything else is folded into the `Other` variants.
//!
//! Each type has a mathematical view (`@`) in which strings are sequences of
//! characters and vectors are sequences of views. All contracts of the crate
//! are stated over these views.

use vstd::prelude::*;

verus! {

/// The key under which a class member is declared.
#[derive(Debug, PartialEq, Eq)]
pub enum Key {
    /// A plain identifier, as in `render() {}`.
    Ident(String),
    /// A string literal, as in `"render"() {}`.
    Str(String),
    /// Any other key, such as a number or a computed expression.
    Other,
}

/// An expression, as far as the transform tells expressions apart.
#[derive(Debug, PartialEq, Eq)]
pub enum Expr {
    /// A string literal with the given text.
    Str(String),
    /// A class expression, with the name written after `class`, if any.
    Class { ident: Option<String>, class: Class },
    /// Any other expression.
    Other,
}

/// A class property, `static key: type_ann = value`.
#[derive(Debug, PartialEq, Eq)]
pub struct Property {
    pub key: Key,
    pub is_static: bool,
    /// The text of the type annotation, if one is written.
    pub type_ann: Option<String>,
    pub value: Option<Expr>,
}

/// One member of a class body.
#[derive(Debug, PartialEq, Eq)]
pub enum Member {
    Property(Property),
    /// A method, with the statements of its body.
    Method { key: Key, body: Vec<Stmt> },
    /// Any other member: a constructor, a static block, an index signature.
    Other,
}

/// A class: the ordered sequence of its members.
#[derive(Debug, PartialEq, Eq)]
pub struct Class {
    pub body: Vec<Member>,
}

/// One binding of a variable declaration.
#[derive(Debug, PartialEq, Eq)]
pub struct VarDeclarator {
    /// The bound name, or `None` where the binding is a pattern.
    pub name: Option<String>,
    pub init: Option<Expr>,
}

/// A declaration.
#[derive(Debug, PartialEq, Eq)]
pub enum Decl {
    /// `class ident { .. }`
    Class { ident: String, class: Class },
    /// `const a = .., b = ..;`
    Var(Vec<VarDeclarator>),
    /// `function ident() { .. }`
    Fn { ident: String, body: Vec<Stmt> },
    /// Any other declaration: an interface, an enum, a type alias.
    Other,
}

/// A statement.
#[derive(Debug, PartialEq, Eq)]
pub enum Stmt {
    Decl(Decl),
    /// A statement that encloses other statements, in source order.
    Block(Vec<Stmt>),
    /// A statement that encloses no declaration.
    Other,
}

/// The root of a tree: its top-level statements in source order.
#[derive(Debug, PartialEq, Eq)]
pub struct Program {
    pub body: Vec<Stmt>,
}

/// View of [`Key`].
pub enum KeyView {
    Ident(Seq<char>),
    Str(Seq<char>),
    Other,
}

/// View of [`Expr`].
pub enum ExprView {
    Str(Seq<char>),
    Class { ident: Option<Seq<char>>, class: ClassView },
    Other,
}

/// View of [`Property`].
pub struct PropertyView {
    pub key: KeyView,
    pub is_static: bool,
    pub type_ann: Option<Seq<char>>,
    pub value: Option<ExprView>,
}

/// View of [`Member`].
pub enum MemberView {
    Property(PropertyView),
    Method { key: KeyView, body: Seq<StmtView> },
    Other,
}

/// View of [`Class`].
pub struct ClassView {
    pub body: Seq<MemberView>,
}

/// View of [`VarDeclarator`].
pub struct VarDeclaratorView {
    pub name: Option<Seq<char>>,
    pub init: Option<ExprView>,
}

/// View of [`Decl`].
pub enum DeclView {
    Class { ident: Seq<char>, class: ClassView },
    Var(Seq<VarDeclaratorView>),
    Fn { ident: Seq<char>, body: Seq<StmtView> },
    Other,
}

/// View of [`Stmt`].
pub enum StmtView {
    Decl(DeclView),
    Block(Seq<StmtView>),
    Other,
}

/// View of [`Program`].
pub struct ProgramView {
    pub body: Seq<StmtView>,
}

/// The text of an optional name.
pub open spec fn name_view(name: Option<String>) -> Option<Seq<char>> {
    match name {
        Some(s) => Some(s@),
        None => None,
    }
}

/// The views of the members of a class body, in order.
pub open spec fn members_view(members: Vec<Member>) -> Seq<MemberView>
    decreases members,
{
    Seq::new(
        members.len() as nat,
        |i: int|
            if 0 <= i < members.len() {
                members[i]@
            } else {
                arbitrary()
            },
    )
}

/// The views of the bindings of a variable declaration, in order.
pub open spec fn declarators_view(decls: Vec<VarDeclarator>) -> Seq<VarDeclaratorView>
    decreases decls,
{
    Seq::new(
        decls.len() as nat,
        |i: int|
            if 0 <= i < decls.len() {
                decls[i]@
            } else {
                arbitrary()
            },
    )
}

/// The views of a run of statements, in order.
pub open spec fn stmts_view(stmts: Vec<Stmt>) -> Seq<StmtView>
    decreases stmts,
{
    Seq::new(
        stmts.len() as nat,
        |i: int|
            if 0 <= i < stmts.len() {
                stmts[i]@
            } else {
                arbitrary()
            },
    )
}

impl View for Key {
    type V = KeyView;

    open spec fn view(&self) -> KeyView {
        match self {
            Key::Ident(name) => KeyView::Ident(name@),
            Key::Str(text) => KeyView::Str(text@),
            Key::Other => KeyView::Other,
        }
    }
}

impl View for Expr {
    type V = ExprView;

    open spec fn view(&self) -> ExprView
        decreases self,
    {
        match self {
            Expr::Str(text) => ExprView::Str(text@),
            Expr::Class { ident, class } => ExprView::Class {
                ident: name_view(*ident),
                class: class@,
            },
            Expr::Other => ExprView::Other,
        }
    }
}

impl View for Property {
    type V = PropertyView;

    open spec fn view(&self) -> PropertyView
        decreases self,
    {
        PropertyView {
            key: self.key@,
            is_static: self.is_static,
            type_ann: name_view(self.type_ann),
            value: match self.value {
                Some(e) => Some(e@),
                None => None,
            },
        }
    }
}

impl View for Member {
    type V = MemberView;

    open spec fn view(&self) -> MemberView
        decreases self,
    {
        match self {
            Member::Property(p) => MemberView::Property(p@),
            Member::Method { key, body } => MemberView::Method { key: key@, body: stmts_view(*body) },
            Member::Other => MemberView::Other,
        }
    }
}

impl View for Class {
    type V = ClassView;

    open spec fn view(&self) -> ClassView
        decreases self,
    {
        ClassView { body: members_view(self.body) }
    }
}

impl View for VarDeclarator {
    type V = VarDeclaratorView;

    open spec fn view(&self) -> VarDeclaratorView
        decreases self,
    {
        VarDeclaratorView {
            name: name_view(self.name),
            init: match self.init {
                Some(e) => Some(e@),
                None => None,
            },
        }
    }
}

impl View for Decl {
    type V = DeclView;

    open spec fn view(&self) -> DeclView
        decreases self,
    {
        match self {
            Decl::Class { ident, class } => DeclView::Class { ident: ident@, class: class@ },
            Decl::Var(decls) => DeclView::Var(declarators_view(*decls)),
            Decl::Fn { ident, body } => DeclView::Fn { ident: ident@, body: stmts_view(*body) },
            Decl::Other => DeclView::Other,
        }
    }
}

impl View for Stmt {
    type V = StmtView;

    open spec fn view(&self) -> StmtView
        decreases self,
    {
        match self {
            Stmt::Decl(decl) => StmtView::Decl(decl@),
            Stmt::Block(stmts) => StmtView::Block(stmts_view(*stmts)),
            Stmt::Other => StmtView::Other,
        }
    }
}

impl View for Program {
    type V = ProgramView;

    open spec fn view(&self) -> ProgramView {
        ProgramView { body: stmts_view(self.body) }
    }
}

} // verus!
