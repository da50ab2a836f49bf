use react_display_name::ast::{Class, Decl, Expr, Key, Member, Program, Property, Stmt, VarDeclarator};
use react_display_name::{process_transform, PluginMetadata, TransformVisitor};

fn ident(name: &str) -> Key {
    Key::Ident(name.to_string())
}

fn method(name: &str, body: Vec<Stmt>) -> Member {
    Member::Method { key: ident(name), body }
}

fn string_property(key: &str, is_static: bool, value: &str) -> Member {
    Member::Property(Property {
        key: ident(key),
        is_static,
        type_ann: None,
        value: Some(Expr::Str(value.to_string())),
    })
}

fn typed_property(key: &str, type_ann: &str) -> Member {
    Member::Property(Property {
        key: ident(key),
        is_static: false,
        type_ann: Some(type_ann.to_string()),
        value: None,
    })
}

fn class_decl(name: &str, body: Vec<Member>) -> Stmt {
    Stmt::Decl(Decl::Class { ident: name.to_string(), class: Class { body } })
}

fn transform(body: Vec<Stmt>) -> Vec<Stmt> {
    process_transform(Program { body }, PluginMetadata { plugin_config: None }).body
}

fn named(body: Vec<Member>, name: &str) -> Vec<Member> {
    let mut class = Class { body };
    TransformVisitor::new().add_displayname(&mut class, name);
    class.body
}

fn bodies() -> Vec<Vec<Member>> {
    vec![
        vec![],
        vec![method("render", vec![])],
        vec![method("foo", vec![])],
        vec![string_property("displayName", true, "Given"), method("render", vec![])],
        vec![method("render", vec![]), string_property("displayName", false, "Given")],
        vec![string_property("displayName", true, "Given")],
        vec![Member::Other, typed_property("props", "Props"), method("render", vec![])],
        vec![method("render", vec![]), method("render", vec![])],
        vec![Member::Method { key: Key::Str("render".to_string()), body: vec![] }],
        vec![Member::Method { key: Key::Other, body: vec![] }, method("render", vec![])],
    ]
}

#[test]
fn naming_is_idempotent_on_every_sample() {
    for (i, body) in bodies().into_iter().enumerate() {
        let once = named(body, "Sample");
        let twice = named(named(bodies().remove(i), "Sample"), "Sample");
        assert_eq!(twice, once);
    }
}

#[test]
fn class_without_render_keeps_count_order_and_content() {
    for (i, body) in bodies().into_iter().enumerate() {
        let is_component = Class { body: bodies().remove(i) }.is_component();
        if !is_component {
            assert_eq!(named(body, "Sample"), bodies().remove(i));
        }
    }
}

#[test]
fn declared_display_name_keeps_its_value_and_stays_alone() {
    for (i, body) in bodies().into_iter().enumerate() {
        if (Class { body: bodies().remove(i) }).has_display_name() {
            let after = named(body, "Sample");
            assert_eq!(after, bodies().remove(i));
            let count = after.iter().filter(|member| member.is_display_name_property()).count();
            assert_eq!(count, 1);
            assert!(after.contains(&string_property("displayName", true, "Given"))
                || after.contains(&string_property("displayName", false, "Given")));
        }
    }
}

#[test]
fn new_member_is_first_and_the_rest_follows_in_order() {
    for (i, body) in bodies().into_iter().enumerate() {
        if (Class { body: bodies().remove(i) }).needs_display_name() {
            let after = named(body, "Sample");
            let before = bodies().remove(i);
            assert_eq!(after.len(), before.len() + 1);
            assert_eq!(after[0], string_property("displayName", true, "Sample"));
            assert_eq!(after[1..], before[..]);
        }
    }
}

#[test]
fn component_declares_display_name_afterwards() {
    for body in bodies() {
        let after = Class { body: named(body, "Sample") };
        assert!(!after.needs_display_name());
        assert!(!after.is_component() || after.has_display_name());
    }
}

fn program() -> Vec<Stmt> {
    let mut stmts: Vec<Stmt> = Vec::new();
    for (i, body) in bodies().into_iter().enumerate() {
        stmts.push(class_decl(&format!("Class{}", i), body));
    }
    stmts.push(Stmt::Decl(Decl::Fn {
        ident: "nest".to_string(),
        body: vec![Stmt::Block(
            bodies()
                .into_iter()
                .map(|body| {
                    Stmt::Decl(Decl::Var(vec![VarDeclarator {
                        name: Some("Bound".to_string()),
                        init: Some(Expr::Class { ident: None, class: Class { body } }),
                    }]))
                })
                .collect(),
        )],
    }));
    stmts.push(class_decl(
        "Host",
        vec![method("render", bodies().into_iter().map(|body| class_decl("Guest", body)).collect())],
    ));
    stmts
}

#[test]
fn transform_is_idempotent_on_a_program() {
    let once = transform(program());
    let twice = transform(transform(program()));
    assert_eq!(twice, once);
}

#[test]
fn transform_keeps_the_number_of_statements() {
    assert_eq!(transform(program()).len(), program().len());
}

#[test]
fn program_with_nothing_to_do_comes_back_as_it_was() {
    let settled = || {
        vec![
            class_decl("Plain", vec![method("foo", vec![])]),
            class_decl(
                "Named",
                vec![string_property("displayName", true, "Named"), method("render", vec![])],
            ),
            Stmt::Decl(Decl::Var(vec![VarDeclarator {
                name: None,
                init: Some(Expr::Class {
                    ident: None,
                    class: Class { body: vec![method("render", vec![])] },
                }),
            }])),
            Stmt::Other,
        ]
    };
    assert_eq!(transform(settled()), settled());
}

#[test]
fn order_of_naming_and_entering_does_not_matter() {
    let make = || Class {
        body: vec![method(
            "render",
            vec![class_decl("Inner", vec![method("render", vec![])])],
        )],
    };
    let mut named_first = make();
    let mut visitor = TransformVisitor::new();
    visitor.add_displayname(&mut named_first, "Outer");
    visitor.visit_mut_class(&mut named_first);

    let mut entered_first = make();
    visitor.visit_mut_class(&mut entered_first);
    visitor.add_displayname(&mut entered_first, "Outer");

    assert_eq!(named_first, entered_first);
}

#[test]
fn same_tree_gives_same_result_every_time() {
    let first = transform(program());
    for _ in 0..5 {
        assert_eq!(transform(program()), first);
    }
}
