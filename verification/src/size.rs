//! The size of a tree: the measure by which the pass terminates.
//!
//! The pass hands a class its name before it enters the members of the
//! class, so what it enters is not a part of what it was given. Sizes are
//! counted such that a declaration is larger than the class it binds even
//! after that class has received its `displayName`.

use vstd::prelude::*;
use crate::ast::{ClassView, DeclView, ExprView, MemberView, StmtView, VarDeclaratorView};

verus! {

/// The size of a run of members: one more than the sizes of the members.
pub open spec fn members_size(members: Seq<MemberView>) -> nat
    decreases members,
{
    if members.len() == 0 {
        1
    } else {
        members.last().size() + members_size(members.drop_last())
    }
}

/// The size of a run of bindings: one more than the sizes of the bindings.
pub open spec fn declarators_size(decls: Seq<VarDeclaratorView>) -> nat
    decreases decls,
{
    if decls.len() == 0 {
        1
    } else {
        decls.last().size() + declarators_size(decls.drop_last())
    }
}

/// The size of a run of statements: one more than the sizes of the
/// statements.
pub open spec fn stmts_size(stmts: Seq<StmtView>) -> nat
    decreases stmts,
{
    if stmts.len() == 0 {
        1
    } else {
        stmts.last().size() + stmts_size(stmts.drop_last())
    }
}

impl ExprView {
    /// One for the expression, and the size of the class it holds.
    pub open spec fn size(self) -> nat
        decreases self,
    {
        match self {
            ExprView::Class { ident, class } => 1 + class.size(),
            ExprView::Str(text) => 1,
            ExprView::Other => 1,
        }
    }
}

impl MemberView {
    /// One for the member, and the size of what it encloses.
    pub open spec fn size(self) -> nat
        decreases self,
    {
        match self {
            MemberView::Property(p) => match p.value {
                Some(e) => 1 + e.size(),
                None => 1,
            },
            MemberView::Method { key, body } => 1 + stmts_size(body),
            MemberView::Other => 1,
        }
    }
}

impl ClassView {
    /// One for the class, and the size of its members.
    pub open spec fn size(self) -> nat
        decreases self,
    {
        1 + members_size(self.body)
    }
}

impl VarDeclaratorView {
    /// A binding leaves room for the member that its class may receive.
    pub open spec fn size(self) -> nat
        decreases self,
    {
        match self.init {
            Some(e) => 3 + e.size(),
            None => 1,
        }
    }
}

impl DeclView {
    /// A class declaration leaves room for the member that its class may
    /// receive.
    pub open spec fn size(self) -> nat
        decreases self,
    {
        match self {
            DeclView::Class { ident, class } => 3 + class.size(),
            DeclView::Var(decls) => 1 + declarators_size(decls),
            DeclView::Fn { ident, body } => 1 + stmts_size(body),
            DeclView::Other => 1,
        }
    }
}

impl StmtView {
    /// One for the statement, and the size of what it encloses.
    pub open spec fn size(self) -> nat
        decreases self,
    {
        match self {
            StmtView::Decl(decl) => 1 + decl.size(),
            StmtView::Block(stmts) => 1 + stmts_size(stmts),
            StmtView::Other => 1,
        }
    }
}

/// A run of members has a size of one at least.
pub proof fn lemma_members_size_is_positive(members: Seq<MemberView>)
    ensures
        members_size(members) >= 1,
    decreases members.len(),
{
    if members.len() > 0 {
        lemma_members_size_is_positive(members.drop_last());
    }
}

/// Each member is smaller than the run it stands in.
pub proof fn lemma_member_is_smaller(members: Seq<MemberView>, at: int)
    requires
        0 <= at < members.len(),
    ensures
        members[at].size() < members_size(members),
    decreases members.len(),
{
    lemma_members_size_is_positive(members.drop_last());
    if at < members.len() - 1 {
        lemma_member_is_smaller(members.drop_last(), at);
    }
}

/// A run of bindings has a size of one at least.
pub proof fn lemma_declarators_size_is_positive(decls: Seq<VarDeclaratorView>)
    ensures
        declarators_size(decls) >= 1,
    decreases decls.len(),
{
    if decls.len() > 0 {
        lemma_declarators_size_is_positive(decls.drop_last());
    }
}

/// Each binding is smaller than the run it stands in.
pub proof fn lemma_declarator_is_smaller(decls: Seq<VarDeclaratorView>, at: int)
    requires
        0 <= at < decls.len(),
    ensures
        decls[at].size() < declarators_size(decls),
    decreases decls.len(),
{
    lemma_declarators_size_is_positive(decls.drop_last());
    if at < decls.len() - 1 {
        lemma_declarator_is_smaller(decls.drop_last(), at);
    }
}

/// A run of statements has a size of one at least.
pub proof fn lemma_stmts_size_is_positive(stmts: Seq<StmtView>)
    ensures
        stmts_size(stmts) >= 1,
    decreases stmts.len(),
{
    if stmts.len() > 0 {
        lemma_stmts_size_is_positive(stmts.drop_last());
    }
}

/// Each statement is smaller than the run it stands in.
pub proof fn lemma_stmt_is_smaller(stmts: Seq<StmtView>, at: int)
    requires
        0 <= at < stmts.len(),
    ensures
        stmts[at].size() < stmts_size(stmts),
    decreases stmts.len(),
{
    lemma_stmts_size_is_positive(stmts.drop_last());
    if at < stmts.len() - 1 {
        lemma_stmt_is_smaller(stmts.drop_last(), at);
    }
}

/// A member in front of a run adds its own size to that of the run.
pub proof fn lemma_size_with_member_in_front(member: MemberView, members: Seq<MemberView>)
    ensures
        members_size(seq![member] + members) == member.size() + members_size(members),
    decreases members.len(),
{
    let all = seq![member] + members;
    if members.len() == 0 {
        assert(all.drop_last() =~= Seq::<MemberView>::empty());
        assert(members_size(all.drop_last()) == 1);
    } else {
        assert(all.drop_last() =~= seq![member] + members.drop_last());
        assert(all.last() == members.last());
        lemma_size_with_member_in_front(member, members.drop_last());
    }
}

/// Offering a class a name makes it larger by two at most.
pub proof fn lemma_size_with_display_name(class: ClassView, name: Seq<char>)
    ensures
        class.with_display_name(name).size() <= class.size() + 2,
{
    if class.needs_display_name() {
        lemma_size_with_member_in_front(MemberView::display_name(name), class.body);
    }
}

} // verus!
