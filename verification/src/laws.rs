//! What holds of the transform on every tree.

use vstd::prelude::*;
use crate::ast::{
    ClassView, DeclView, ExprView, KeyView, MemberView, ProgramView, StmtView, VarDeclaratorView,
};
use crate::component::DISPLAY_NAME;
use crate::transform::{
    class_expr_name, declarators_settled, members_settled, stmts_settled, transformed_declarators,
    transformed_stmts, walked_members,
};

verus! {

/// A class that has been offered a name declares `displayName` if it is a
/// component.
pub proof fn lemma_component_is_named(class: ClassView, name: Seq<char>)
    requires
        class.is_component(),
    ensures
        class.with_display_name(name).is_component(),
        class.with_display_name(name).has_display_name(),
        !class.with_display_name(name).needs_display_name(),
{
    let named = class.with_display_name(name);
    if class.needs_display_name() {
        let i = choose|i: int| 0 <= i < class.body.len() && (#[trigger] class.body[i]).is_render_method();
        assert(named.body[i + 1] == class.body[i]);
        assert(named.body[i + 1].is_render_method());
        assert(named.body[0].is_display_name_property());
    }
}

/// Offering a class the same name twice is the same as offering it once.
pub proof fn lemma_naming_is_idempotent(class: ClassView, name: Seq<char>)
    ensures
        class.with_display_name(name).with_display_name(name) == class.with_display_name(name),
{
    if class.needs_display_name() {
        lemma_component_is_named(class, name);
    }
}

/// A class without a `render` method is left as it is: the same members, in
/// the same order.
pub proof fn lemma_not_a_component_is_untouched(class: ClassView, name: Seq<char>)
    requires
        !class.is_component(),
    ensures
        class.with_display_name(name) == class,
{
}

/// A class that declares `displayName` is left as it is, whatever value
/// that property holds: every member keeps its place and its value, that
/// property among them, so that no second one is added.
pub proof fn lemma_declared_name_is_kept(class: ClassView, name: Seq<char>, at: int)
    requires
        0 <= at < class.body.len(),
        class.body[at].is_display_name_property(),
    ensures
        class.with_display_name(name) == class,
        class.with_display_name(name).body[at] == class.body[at],
{
}

/// A component without `displayName` gets one as its first member: a static
/// property of that key, without a type annotation, whose initialiser is
/// the string literal of the name. The members it had follow in their
/// order.
pub proof fn lemma_insertion_shape(class: ClassView, name: Seq<char>)
    requires
        class.is_component(),
        !class.has_display_name(),
    ensures
        class.with_display_name(name).body.len() == class.body.len() + 1,
        class.with_display_name(name).body[0] matches MemberView::Property(p) && {
            &&& p.key == KeyView::Ident(DISPLAY_NAME@)
            &&& p.is_static
            &&& p.type_ann is None
            &&& p.value == Some(ExprView::Str(name))
        },
        forall|i: int|
            0 <= i < class.body.len() ==> #[trigger] class.with_display_name(name).body[i + 1]
                == class.body[i],
        class.with_display_name(name).body.drop_first() == class.body,
{
    assert(class.with_display_name(name).body.drop_first() =~= class.body);
}

/// Walking a member changes neither its kind nor its key, and so neither
/// whether it is a `render` method nor whether it is a `displayName`
/// property.
pub proof fn lemma_walk_keeps_member_kind(member: MemberView)
    ensures
        match (member, member.walked()) {
            (MemberView::Property(before), MemberView::Property(after)) => {
                &&& after.key == before.key
                &&& after.is_static == before.is_static
                &&& after.type_ann == before.type_ann
            },
            (MemberView::Method { key: before, .. }, MemberView::Method { key: after, .. }) => after
                == before,
            (MemberView::Other, MemberView::Other) => true,
            _ => false,
        },
        member.walked().is_render_method() == member.is_render_method(),
        member.walked().is_display_name_property() == member.is_display_name_property(),
{
}

/// Walking a class changes neither whether it is a component nor whether it
/// declares `displayName`.
pub proof fn lemma_walk_keeps_classification(class: ClassView)
    ensures
        class.walked().body.len() == class.body.len(),
        class.walked().is_component() == class.is_component(),
        class.walked().has_display_name() == class.has_display_name(),
        class.walked().needs_display_name() == class.needs_display_name(),
{
    let walked = class.walked();
    assert forall|i: int| 0 <= i < class.body.len() implies (#[trigger] walked.body[i]).is_render_method()
        == class.body[i].is_render_method() && walked.body[i].is_display_name_property()
        == class.body[i].is_display_name_property() by {
        lemma_walk_keeps_member_kind(class.body[i]);
    }
    if class.is_component() {
        let i = choose|i: int| 0 <= i < class.body.len() && (#[trigger] class.body[i]).is_render_method();
        assert(walked.body[i].is_render_method());
    }
    if walked.is_component() {
        let i = choose|i: int| 0 <= i < walked.body.len() && (#[trigger] walked.body[i]).is_render_method();
        assert(class.body[i].is_render_method());
    }
    if class.has_display_name() {
        let i = choose|i: int|
            0 <= i < class.body.len() && (#[trigger] class.body[i]).is_display_name_property();
        assert(walked.body[i].is_display_name_property());
    }
    if walked.has_display_name() {
        let i = choose|i: int|
            0 <= i < walked.body.len() && (#[trigger] walked.body[i]).is_display_name_property();
        assert(class.body[i].is_display_name_property());
    }
}

/// It makes no difference whether a class is offered its name before or
/// after the declarations nested in it are transformed.
pub proof fn lemma_order_is_immaterial(class: ClassView, name: Seq<char>)
    ensures
        class.with_display_name(name).walked() == class.walked().with_display_name(name),
{
    lemma_walk_keeps_classification(class);
    if class.needs_display_name() {
        assert(MemberView::display_name(name).walked() == MemberView::display_name(name));
        assert(class.with_display_name(name).walked().body =~= class.walked().with_display_name(
            name,
        ).body);
    }
}

/// What the pass makes of a class declaration, told by the class as it
/// was: without a `render` method, or with a `displayName` property, the
/// class gets no member, and its members stay in place with the
/// declarations nested in them transformed; otherwise `displayName` comes
/// first and those members follow.
pub proof fn lemma_pass_on_class_declaration(ident: Seq<char>, class: ClassView)
    ensures
        !class.is_component() || class.has_display_name() ==> (DeclView::Class {
            ident,
            class,
        }).transformed() == (DeclView::Class { ident, class: class.walked() }),
        class.is_component() && !class.has_display_name() ==> (DeclView::Class {
            ident,
            class,
        }).transformed() == (DeclView::Class {
            ident,
            class: ClassView {
                body: seq![MemberView::display_name(ident)] + walked_members(class.body),
            },
        }),
{
    lemma_walk_keeps_classification(class);
}

/// What is inside a walked expression is settled.
pub proof fn lemma_walked_expr_is_settled(expr: ExprView)
    ensures
        expr.walked().settled(),
    decreases expr,
{
    match expr {
        ExprView::Class { ident, class } => {
            lemma_walked_members_are_settled(class.body);
        },
        _ => {},
    }
}

/// What is inside a walked member is settled.
pub proof fn lemma_walked_member_is_settled(member: MemberView)
    ensures
        member.walked().settled(),
    decreases member,
{
    match member {
        MemberView::Property(p) => {
            match p.value {
                Some(e) => {
                    lemma_walked_expr_is_settled(e);
                },
                None => {},
            }
        },
        MemberView::Method { key, body } => {
            lemma_transformed_stmts_are_settled(body);
        },
        MemberView::Other => {},
    }
}

/// What is inside walked members is settled.
pub proof fn lemma_walked_members_are_settled(members: Seq<MemberView>)
    ensures
        members_settled(walked_members(members)),
    decreases members,
{
    assert forall|i: int| 0 <= i < members.len() implies (#[trigger] walked_members(
        members,
    )[i]).settled() by {
        lemma_walked_member_is_settled(members[i]);
    }
}

/// A class that was walked and offered a name needs no `displayName`, and
/// what is inside it is settled.
pub proof fn lemma_named_class_is_settled(class: ClassView, name: Seq<char>)
    requires
        members_settled(class.body),
    ensures
        members_settled(class.with_display_name(name).body),
        !class.with_display_name(name).needs_display_name(),
{
    if class.is_component() {
        lemma_component_is_named(class, name);
    }
    if class.needs_display_name() {
        let named = class.with_display_name(name);
        assert forall|i: int| 0 <= i < named.body.len() implies (#[trigger] named.body[i]).settled() by {
            if i > 0 {
                assert(named.body[i] == class.body[i - 1]);
            }
        }
    }
}

/// A transformed binding is settled.
pub proof fn lemma_transformed_declarator_is_settled(declarator: VarDeclaratorView)
    ensures
        declarator.transformed().settled(),
    decreases declarator,
{
    match declarator.init {
        Some(ExprView::Class { ident, class }) => {
            lemma_walked_members_are_settled(class.body);
            match class_expr_name(ident, declarator.name) {
                Some(name) => {
                    lemma_named_class_is_settled(class.walked(), name);
                },
                None => {},
            }
        },
        _ => {},
    }
}

/// A transformed declaration is settled.
pub proof fn lemma_transformed_decl_is_settled(decl: DeclView)
    ensures
        decl.transformed().settled(),
    decreases decl,
{
    match decl {
        DeclView::Class { ident, class } => {
            lemma_walked_members_are_settled(class.body);
            lemma_named_class_is_settled(class.walked(), ident);
        },
        DeclView::Var(decls) => {
            assert forall|i: int| 0 <= i < decls.len() implies (#[trigger] transformed_declarators(
                decls,
            )[i]).settled() by {
                lemma_transformed_declarator_is_settled(decls[i]);
            }
            assert(declarators_settled(transformed_declarators(decls)));
        },
        DeclView::Fn { ident, body } => {
            lemma_transformed_stmts_are_settled(body);
        },
        DeclView::Other => {},
    }
}

/// A transformed statement is settled.
pub proof fn lemma_transformed_stmt_is_settled(stmt: StmtView)
    ensures
        stmt.transformed().settled(),
    decreases stmt,
{
    match stmt {
        StmtView::Decl(decl) => {
            lemma_transformed_decl_is_settled(decl);
        },
        StmtView::Block(stmts) => {
            lemma_transformed_stmts_are_settled(stmts);
        },
        StmtView::Other => {},
    }
}

/// Transformed statements are settled.
pub proof fn lemma_transformed_stmts_are_settled(stmts: Seq<StmtView>)
    ensures
        stmts_settled(transformed_stmts(stmts)),
    decreases stmts,
{
    assert forall|i: int| 0 <= i < stmts.len() implies (#[trigger] transformed_stmts(
        stmts,
    )[i]).settled() by {
        lemma_transformed_stmt_is_settled(stmts[i]);
    }
}

/// The transform leaves nothing to do: in its output, every class that a
/// declaration declares under a name either has no `render` method or
/// declares `displayName`.
pub proof fn lemma_transform_settles(program: ProgramView)
    ensures
        program.transformed().settled(),
{
    lemma_transformed_stmts_are_settled(program.body);
}

/// Walking an expression whose inside is settled changes nothing.
pub proof fn lemma_settled_expr_is_fixed(expr: ExprView)
    requires
        expr.settled(),
    ensures
        expr.walked() == expr,
    decreases expr,
{
    match expr {
        ExprView::Class { ident, class } => {
            lemma_settled_members_are_fixed(class.body);
        },
        _ => {},
    }
}

/// Walking a member whose inside is settled changes nothing.
pub proof fn lemma_settled_member_is_fixed(member: MemberView)
    requires
        member.settled(),
    ensures
        member.walked() == member,
    decreases member,
{
    match member {
        MemberView::Property(p) => {
            match p.value {
                Some(e) => {
                    lemma_settled_expr_is_fixed(e);
                },
                None => {},
            }
        },
        MemberView::Method { key, body } => {
            lemma_settled_stmts_are_fixed(body);
        },
        MemberView::Other => {},
    }
}

/// Walking members whose inside is settled changes nothing.
pub proof fn lemma_settled_members_are_fixed(members: Seq<MemberView>)
    requires
        members_settled(members),
    ensures
        walked_members(members) == members,
    decreases members,
{
    assert forall|i: int| 0 <= i < members.len() implies (#[trigger] members[i]).walked()
        == members[i] by {
        lemma_settled_member_is_fixed(members[i]);
    }
    assert(walked_members(members) =~= members);
}

/// Transforming a settled binding changes nothing.
pub proof fn lemma_settled_declarator_is_fixed(declarator: VarDeclaratorView)
    requires
        declarator.settled(),
    ensures
        declarator.transformed() == declarator,
    decreases declarator,
{
    match declarator.init {
        Some(ExprView::Class { ident, class }) => {
            lemma_settled_members_are_fixed(class.body);
        },
        _ => {},
    }
}

/// Transforming a settled declaration changes nothing.
pub proof fn lemma_settled_decl_is_fixed(decl: DeclView)
    requires
        decl.settled(),
    ensures
        decl.transformed() == decl,
    decreases decl,
{
    match decl {
        DeclView::Class { ident, class } => {
            lemma_settled_members_are_fixed(class.body);
        },
        DeclView::Var(decls) => {
            assert forall|i: int| 0 <= i < decls.len() implies (#[trigger] decls[i]).transformed()
                == decls[i] by {
                lemma_settled_declarator_is_fixed(decls[i]);
            }
            assert(transformed_declarators(decls) =~= decls);
        },
        DeclView::Fn { ident, body } => {
            lemma_settled_stmts_are_fixed(body);
        },
        DeclView::Other => {},
    }
}

/// Transforming a settled statement changes nothing.
pub proof fn lemma_settled_stmt_is_fixed(stmt: StmtView)
    requires
        stmt.settled(),
    ensures
        stmt.transformed() == stmt,
    decreases stmt,
{
    match stmt {
        StmtView::Decl(decl) => {
            lemma_settled_decl_is_fixed(decl);
        },
        StmtView::Block(stmts) => {
            lemma_settled_stmts_are_fixed(stmts);
        },
        StmtView::Other => {},
    }
}

/// Transforming settled statements changes nothing.
pub proof fn lemma_settled_stmts_are_fixed(stmts: Seq<StmtView>)
    requires
        stmts_settled(stmts),
    ensures
        transformed_stmts(stmts) == stmts,
    decreases stmts,
{
    assert forall|i: int| 0 <= i < stmts.len() implies (#[trigger] stmts[i]).transformed()
        == stmts[i] by {
        lemma_settled_stmt_is_fixed(stmts[i]);
    }
    assert(transformed_stmts(stmts) =~= stmts);
}

/// The transform changes a program only where there is something to do: a
/// settled program comes back as it went in.
pub proof fn lemma_settled_program_is_untouched(program: ProgramView)
    requires
        program.settled(),
    ensures
        program.transformed() == program,
{
    lemma_settled_stmts_are_fixed(program.body);
}

/// Transforming a declaration twice is the same as transforming it once.
pub proof fn lemma_transformed_decl_is_fixed(decl: DeclView)
    ensures
        decl.transformed().transformed() == decl.transformed(),
{
    lemma_transformed_decl_is_settled(decl);
    lemma_settled_decl_is_fixed(decl.transformed());
}

/// Transforming a statement twice is the same as transforming it once.
pub proof fn lemma_transformed_stmt_is_fixed(stmt: StmtView)
    ensures
        stmt.transformed().transformed() == stmt.transformed(),
{
    lemma_transformed_stmt_is_settled(stmt);
    lemma_settled_stmt_is_fixed(stmt.transformed());
}

/// The transform is idempotent: running it on its own output changes
/// nothing.
pub proof fn lemma_transform_is_idempotent(program: ProgramView)
    ensures
        program.transformed().transformed() == program.transformed(),
{
    lemma_transform_settles(program);
    lemma_settled_program_is_untouched(program.transformed());
}

/// A host that makes the planned edits to a declaration and then
/// transforms what is nested in it arrives at what the pass makes of the
/// declaration.
pub proof fn lemma_plan_agrees_with_pass(decl: DeclView)
    ensures
        decl.applied(decl.planned_insertions()).walked() == decl.transformed(),
{
    match decl {
        DeclView::Class { ident, class } => {
            assert(class.applied(class.planned_insertion(ident)).body =~= class.with_display_name(
                ident,
            ).body);
            lemma_order_is_immaterial(class, ident);
        },
        DeclView::Var(decls) => {
            let plans = decl.planned_insertions();
            let edited = Seq::new(decls.len(), |i: int| decls[i].applied(plans[i]));
            assert forall|i: int| 0 <= i < decls.len() implies (#[trigger] edited[i]).walked()
                == decls[i].transformed() by {
                lemma_plan_agrees_with_pass_on_binding(decls[i]);
            }
            assert(Seq::new(edited.len(), |i: int| edited[i].walked()) =~= transformed_declarators(
                decls,
            ));
        },
        _ => {},
    }
}

/// The same for one binding of a variable declaration.
pub proof fn lemma_plan_agrees_with_pass_on_binding(declarator: VarDeclaratorView)
    ensures
        declarator.applied(declarator.planned_insertion()).walked() == declarator.transformed(),
{
    match declarator.init {
        Some(ExprView::Class { ident, class }) => {
            match class_expr_name(ident, declarator.name) {
                Some(name) => {
                    assert(class.applied(class.planned_insertion(name)).body
                        =~= class.with_display_name(name).body);
                    lemma_order_is_immaterial(class, name);
                },
                None => {},
            }
        },
        _ => {},
    }
}

} // verus!
