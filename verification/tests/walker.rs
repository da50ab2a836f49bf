use react_display_name::ast::{Class, Decl, Expr, Key, Member, Program, Property, Stmt, VarDeclarator};
use react_display_name::visitor::{process_transform, PluginMetadata, TransformVisitor};

fn ident(name: &str) -> Key {
    Key::Ident(name.to_string())
}

fn method(name: &str, body: Vec<Stmt>) -> Member {
    Member::Method { key: ident(name), body }
}

fn render() -> Member {
    method("render", vec![])
}

fn injected(name: &str) -> Member {
    Member::Property(Property {
        key: ident("displayName"),
        is_static: true,
        type_ann: None,
        value: Some(Expr::Str(name.to_string())),
    })
}

fn property(name: &str, value: Option<Expr>) -> Member {
    Member::Property(Property { key: ident(name), is_static: false, type_ann: None, value })
}

fn class_decl(name: &str, body: Vec<Member>) -> Stmt {
    Stmt::Decl(Decl::Class { ident: name.to_string(), class: Class { body } })
}

fn function(name: &str, body: Vec<Stmt>) -> Stmt {
    Stmt::Decl(Decl::Fn { ident: name.to_string(), body })
}

fn class_expr(own: Option<&str>, body: Vec<Member>) -> Expr {
    Expr::Class { ident: own.map(|name| name.to_string()), class: Class { body } }
}

fn binding(name: Option<&str>, init: Option<Expr>) -> VarDeclarator {
    VarDeclarator { name: name.map(|name| name.to_string()), init }
}

fn variables(decls: Vec<VarDeclarator>) -> Stmt {
    Stmt::Decl(Decl::Var(decls))
}

fn transform(body: Vec<Stmt>) -> Vec<Stmt> {
    process_transform(Program { body }, PluginMetadata { plugin_config: None }).body
}

#[test]
fn class_in_a_function_body_is_reached() {
    let input = vec![function("make", vec![class_decl("Inner", vec![render()])])];
    let expected =
        vec![function("make", vec![class_decl("Inner", vec![injected("Inner"), render()])])];
    assert_eq!(transform(input), expected);
}

#[test]
fn class_in_nested_blocks_is_reached() {
    let input = vec![Stmt::Block(vec![
        Stmt::Other,
        Stmt::Block(vec![class_decl("Deep", vec![render()]), Stmt::Other]),
    ])];
    let expected = vec![Stmt::Block(vec![
        Stmt::Other,
        Stmt::Block(vec![class_decl("Deep", vec![injected("Deep"), render()]), Stmt::Other]),
    ])];
    assert_eq!(transform(input), expected);
}

#[test]
fn class_in_a_method_body_is_reached() {
    let input = vec![class_decl(
        "Outer",
        vec![method("render", vec![class_decl("Inner", vec![render()])])],
    )];
    let expected = vec![class_decl(
        "Outer",
        vec![
            injected("Outer"),
            method("render", vec![class_decl("Inner", vec![injected("Inner"), render()])]),
        ],
    )];
    assert_eq!(transform(input), expected);
}

#[test]
fn class_inside_a_class_that_is_no_component_is_reached() {
    let input =
        vec![class_decl("Helper", vec![method("build", vec![class_decl("Inner", vec![render()])])])];
    let expected = vec![class_decl(
        "Helper",
        vec![method("build", vec![class_decl("Inner", vec![injected("Inner"), render()])])],
    )];
    assert_eq!(transform(input), expected);
}

#[test]
fn class_expression_in_a_property_is_entered_but_not_named() {
    let input = vec![class_decl(
        "Holder",
        vec![property(
            "Part",
            Some(class_expr(
                Some("Part"),
                vec![method("render", vec![class_decl("Inner", vec![render()])])],
            )),
        )],
    )];
    let expected = vec![class_decl(
        "Holder",
        vec![property(
            "Part",
            Some(class_expr(
                Some("Part"),
                vec![method("render", vec![class_decl("Inner", vec![injected("Inner"), render()])])],
            )),
        )],
    )];
    assert_eq!(transform(input), expected);
}

#[test]
fn class_expression_goes_by_its_own_name_first() {
    let input = vec![variables(vec![binding(Some("Foo"), Some(class_expr(Some("Bar"), vec![render()])))])];
    let expected = vec![variables(vec![binding(
        Some("Foo"),
        Some(class_expr(Some("Bar"), vec![injected("Bar"), render()])),
    )])];
    assert_eq!(transform(input), expected);
}

#[test]
fn class_expression_with_own_name_under_a_pattern_is_named() {
    let input = vec![variables(vec![binding(None, Some(class_expr(Some("Bar"), vec![render()])))])];
    let expected = vec![variables(vec![binding(
        None,
        Some(class_expr(Some("Bar"), vec![injected("Bar"), render()])),
    )])];
    assert_eq!(transform(input), expected);
}

#[test]
fn class_expression_without_any_name_is_skipped() {
    let input = vec![variables(vec![binding(None, Some(class_expr(None, vec![render()])))])];
    let expected = vec![variables(vec![binding(None, Some(class_expr(None, vec![render()])))])];
    assert_eq!(transform(input), expected);
}

#[test]
fn class_expression_without_any_name_is_still_entered() {
    let input = vec![variables(vec![binding(
        None,
        Some(class_expr(None, vec![method("render", vec![class_decl("Inner", vec![render()])])])),
    )])];
    let expected = vec![variables(vec![binding(
        None,
        Some(class_expr(
            None,
            vec![method("render", vec![class_decl("Inner", vec![injected("Inner"), render()])])],
        )),
    )])];
    assert_eq!(transform(input), expected);
}

#[test]
fn skipped_binding_does_not_stop_the_next() {
    let input = vec![variables(vec![
        binding(None, Some(class_expr(None, vec![render()]))),
        binding(Some("B"), Some(class_expr(None, vec![render()]))),
    ])];
    let expected = vec![variables(vec![
        binding(None, Some(class_expr(None, vec![render()]))),
        binding(Some("B"), Some(class_expr(None, vec![injected("B"), render()]))),
    ])];
    assert_eq!(transform(input), expected);
}

#[test]
fn each_binding_is_handled_on_its_own() {
    let input = vec![variables(vec![
        binding(Some("A"), Some(class_expr(None, vec![render()]))),
        binding(Some("text"), Some(Expr::Str("render".to_string()))),
        binding(Some("late"), None),
        binding(Some("other"), Some(Expr::Other)),
        binding(Some("Plain"), Some(class_expr(None, vec![method("foo", vec![])]))),
        binding(Some("Named"), Some(class_expr(None, vec![injected("Custom"), render()]))),
        binding(Some("Z"), Some(class_expr(Some("Y"), vec![render()]))),
    ])];
    let expected = vec![variables(vec![
        binding(Some("A"), Some(class_expr(None, vec![injected("A"), render()]))),
        binding(Some("text"), Some(Expr::Str("render".to_string()))),
        binding(Some("late"), None),
        binding(Some("other"), Some(Expr::Other)),
        binding(Some("Plain"), Some(class_expr(None, vec![method("foo", vec![])]))),
        binding(Some("Named"), Some(class_expr(None, vec![injected("Custom"), render()]))),
        binding(Some("Z"), Some(class_expr(Some("Y"), vec![injected("Y"), render()]))),
    ])];
    assert_eq!(transform(input), expected);
}

#[test]
fn other_declarations_and_statements_pass_through() {
    let input = vec![
        Stmt::Other,
        Stmt::Decl(Decl::Other),
        function("render", vec![]),
        Stmt::Block(vec![]),
        variables(vec![]),
    ];
    let expected = vec![
        Stmt::Other,
        Stmt::Decl(Decl::Other),
        function("render", vec![]),
        Stmt::Block(vec![]),
        variables(vec![]),
    ];
    assert_eq!(transform(input), expected);
}

#[test]
fn statements_keep_their_order() {
    let input = vec![
        class_decl("First", vec![render()]),
        Stmt::Other,
        class_decl("Second", vec![method("foo", vec![])]),
        class_decl("Third", vec![render()]),
    ];
    let expected = vec![
        class_decl("First", vec![injected("First"), render()]),
        Stmt::Other,
        class_decl("Second", vec![method("foo", vec![])]),
        class_decl("Third", vec![injected("Third"), render()]),
    ];
    assert_eq!(transform(input), expected);
}

#[test]
fn classes_of_one_name_are_each_named() {
    let input = vec![
        class_decl("Same", vec![render()]),
        Stmt::Block(vec![class_decl("Same", vec![render()])]),
    ];
    let expected = vec![
        class_decl("Same", vec![injected("Same"), render()]),
        Stmt::Block(vec![class_decl("Same", vec![injected("Same"), render()])]),
    ];
    assert_eq!(transform(input), expected);
}

fn sample() -> Vec<Stmt> {
    vec![
        class_decl(
            "Outer",
            vec![
                property("state", Some(Expr::Other)),
                method(
                    "render",
                    vec![
                        variables(vec![binding(Some("Row"), Some(class_expr(None, vec![render()])))]),
                        Stmt::Other,
                    ],
                ),
                Member::Other,
            ],
        ),
        function(
            "factory",
            vec![Stmt::Block(vec![class_decl("Made", vec![injected("Made by hand"), render()])])],
        ),
        variables(vec![binding(None, Some(class_expr(None, vec![render()])))]),
    ]
}

#[test]
fn transforming_twice_is_transforming_once() {
    let once = transform(sample());
    let twice = transform(transform(sample()));
    assert_eq!(twice, once);
    assert_ne!(once, sample());
}

#[test]
fn transform_of_the_sample() {
    let expected = vec![
        class_decl(
            "Outer",
            vec![
                injected("Outer"),
                property("state", Some(Expr::Other)),
                method(
                    "render",
                    vec![
                        variables(vec![binding(
                            Some("Row"),
                            Some(class_expr(None, vec![injected("Row"), render()])),
                        )]),
                        Stmt::Other,
                    ],
                ),
                Member::Other,
            ],
        ),
        function(
            "factory",
            vec![Stmt::Block(vec![class_decl("Made", vec![injected("Made by hand"), render()])])],
        ),
        variables(vec![binding(None, Some(class_expr(None, vec![render()])))]),
    ];
    assert_eq!(transform(sample()), expected);
}

#[test]
fn visit_mut_program_is_the_entry_point_in_place() {
    let mut program = Program { body: sample() };
    TransformVisitor::new().visit_mut_program(&mut program);
    assert_eq!(program.body, transform(sample()));
}

#[test]
fn visit_mut_stmts_takes_a_run_of_statements() {
    let mut stmts = sample();
    TransformVisitor::new().visit_mut_stmts(&mut stmts);
    assert_eq!(stmts, transform(sample()));
}

#[test]
fn visit_mut_stmt_takes_one_statement() {
    let mut stmt = class_decl("One", vec![render()]);
    TransformVisitor::new().visit_mut_stmt(&mut stmt);
    assert_eq!(stmt, class_decl("One", vec![injected("One"), render()]));
    let mut other = Stmt::Other;
    TransformVisitor::new().visit_mut_stmt(&mut other);
    assert_eq!(other, Stmt::Other);
}

#[test]
fn visit_mut_decl_names_a_class_declaration() {
    let mut decl = Decl::Class { ident: "Alert".to_string(), class: Class { body: vec![render()] } };
    TransformVisitor::new().visit_mut_decl(&mut decl);
    assert_eq!(
        decl,
        Decl::Class {
            ident: "Alert".to_string(),
            class: Class { body: vec![injected("Alert"), render()] },
        }
    );
}

#[test]
fn visit_mut_decl_enters_a_function() {
    let mut decl =
        Decl::Fn { ident: "f".to_string(), body: vec![class_decl("In", vec![render()])] };
    TransformVisitor::new().visit_mut_decl(&mut decl);
    assert_eq!(
        decl,
        Decl::Fn {
            ident: "f".to_string(),
            body: vec![class_decl("In", vec![injected("In"), render()])],
        }
    );
}

#[test]
fn visit_mut_var_declarators_takes_the_bindings() {
    let mut decls = vec![
        binding(Some("A"), Some(class_expr(None, vec![render()]))),
        binding(Some("b"), None),
    ];
    TransformVisitor::new().visit_mut_var_declarators(&mut decls);
    assert_eq!(
        decls,
        vec![
            binding(Some("A"), Some(class_expr(None, vec![injected("A"), render()]))),
            binding(Some("b"), None),
        ]
    );
}

#[test]
fn visit_mut_var_declarator_takes_one_binding() {
    let mut declarator = binding(Some("Foo"), Some(class_expr(None, vec![render()])));
    TransformVisitor::new().visit_mut_var_declarator(&mut declarator);
    assert_eq!(
        declarator,
        binding(Some("Foo"), Some(class_expr(None, vec![injected("Foo"), render()])))
    );
}

#[test]
fn visit_mut_class_enters_without_naming() {
    let mut class =
        Class { body: vec![method("render", vec![class_decl("Inner", vec![render()])])] };
    TransformVisitor::new().visit_mut_class(&mut class);
    assert_eq!(
        class,
        Class {
            body: vec![method("render", vec![class_decl("Inner", vec![injected("Inner"), render()])])],
        }
    );
}

#[test]
fn visit_mut_class_member_enters_a_method_and_a_property() {
    let mut a_method = method("foo", vec![class_decl("Inner", vec![render()])]);
    TransformVisitor::new().visit_mut_class_member(&mut a_method);
    assert_eq!(a_method, method("foo", vec![class_decl("Inner", vec![injected("Inner"), render()])]));

    let mut a_property = property("p", Some(class_expr(Some("P"), vec![render()])));
    TransformVisitor::new().visit_mut_class_member(&mut a_property);
    assert_eq!(a_property, property("p", Some(class_expr(Some("P"), vec![render()]))));

    let mut other = Member::Other;
    TransformVisitor::new().visit_mut_class_member(&mut other);
    assert_eq!(other, Member::Other);
}

#[test]
fn visit_mut_expr_enters_a_class_expression_without_naming() {
    let mut expr = class_expr(
        Some("Named"),
        vec![method("render", vec![class_decl("Inner", vec![render()])])],
    );
    TransformVisitor::new().visit_mut_expr(&mut expr);
    assert_eq!(
        expr,
        class_expr(
            Some("Named"),
            vec![method("render", vec![class_decl("Inner", vec![injected("Inner"), render()])])],
        )
    );
    let mut text = Expr::Str("render".to_string());
    TransformVisitor::new().visit_mut_expr(&mut text);
    assert_eq!(text, Expr::Str("render".to_string()));
}

#[test]
fn class_expr_name_prefers_the_own_name() {
    let own = Some("Own".to_string());
    let bound = Some("Bound".to_string());
    let none: Option<String> = None;
    assert_eq!(TransformVisitor::class_expr_name(&own, &bound), Some(&"Own".to_string()));
    assert_eq!(TransformVisitor::class_expr_name(&own, &none), Some(&"Own".to_string()));
    assert_eq!(TransformVisitor::class_expr_name(&none, &bound), Some(&"Bound".to_string()));
    assert_eq!(TransformVisitor::class_expr_name(&none, &none), None);
}

#[test]
fn one_visitor_serves_many_trees() {
    let mut visitor = TransformVisitor::new();
    let mut first = Program { body: vec![class_decl("A", vec![render()])] };
    let mut second = Program { body: vec![class_decl("B", vec![render()])] };
    visitor.visit_mut_program(&mut first);
    visitor.visit_mut_program(&mut second);
    assert_eq!(first.body, vec![class_decl("A", vec![injected("A"), render()])]);
    assert_eq!(second.body, vec![class_decl("B", vec![injected("B"), render()])]);
}

#[test]
fn deep_nesting_is_walked_to_the_bottom() {
    let mut tree = vec![class_decl("Leaf", vec![render()])];
    let mut expected = vec![class_decl("Leaf", vec![injected("Leaf"), render()])];
    for _ in 0..200 {
        tree = vec![Stmt::Block(tree)];
        expected = vec![Stmt::Block(expected)];
    }
    assert_eq!(transform(tree), expected);
}
