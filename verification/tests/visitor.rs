use geiger_audit::counters::{Count, CounterBlock};
use geiger_audit::visitor::{
    checked_node_tally, file_forbids_unsafe, scope_need_of, GeigerSynVisitor, IncludeTests, NodeKind, RootAttribute, SourceFile,
    SyntaxNode,
};

fn node(kind: NodeKind, is_unsafe: bool, children: Vec<SyntaxNode>) -> SyntaxNode {
    SyntaxNode { kind, is_unsafe, is_test: false, children }
}

fn test_node(kind: NodeKind, children: Vec<SyntaxNode>) -> SyntaxNode {
    SyntaxNode { kind, is_unsafe: false, is_test: true, children }
}

fn expr(children: Vec<SyntaxNode>) -> SyntaxNode {
    node(NodeKind::Expression, false, children)
}

fn file_of(items: Vec<SyntaxNode>) -> SourceFile {
    SourceFile { attributes: vec![], root: node(NodeKind::Other, false, items) }
}

fn scan(file: &SourceFile, include_tests: IncludeTests) -> GeigerSynVisitor {
    let mut visitor = GeigerSynVisitor::new(include_tests, String::new());
    visitor.visit_file(file);
    visitor
}

#[test]
fn new_visitor_is_empty() {
    let visitor = GeigerSynVisitor::new(IncludeTests::No, String::from("pkg/lib"));
    assert_eq!(visitor.metrics.counters, CounterBlock::new());
    assert!(!visitor.metrics.forbids_unsafe);
    assert_eq!(visitor.unsafe_scopes, 0);
    assert_eq!(visitor.include_tests, IncludeTests::No);
    assert_eq!(visitor.path, "pkg/lib");
}

#[test]
fn scopes_nest() {
    let mut visitor = GeigerSynVisitor::new(IncludeTests::Yes, String::new());
    visitor.enter_unsafe_scope();
    visitor.enter_unsafe_scope();
    assert_eq!(visitor.unsafe_scopes, 2);
    visitor.exit_unsafe_scope();
    assert_eq!(visitor.unsafe_scopes, 1);
    visitor.exit_unsafe_scope();
    assert_eq!(visitor.unsafe_scopes, 0);
    assert_eq!(visitor.metrics.counters, CounterBlock::new());
}

#[test]
fn empty_file() {
    let visitor = scan(&file_of(vec![]), IncludeTests::Yes);
    assert_eq!(visitor.metrics.counters, CounterBlock::new());
    assert!(!visitor.metrics.forbids_unsafe);
    assert_eq!(visitor.unsafe_scopes, 0);
}

#[test]
fn leaf_constructs_are_tallied() {
    let file = file_of(vec![
        node(NodeKind::Function, false, vec![]),
        node(NodeKind::Function, true, vec![]),
        node(NodeKind::Trait, true, vec![]),
        node(NodeKind::Trait, false, vec![]),
        node(NodeKind::Impl, true, vec![node(NodeKind::Method, false, vec![])]),
        node(NodeKind::Impl, false, vec![node(NodeKind::Method, true, vec![])]),
    ]);
    let counters = scan(&file, IncludeTests::No).metrics.counters;
    assert_eq!(counters.functions, Count { safe: 1, unsafe_: 1 });
    assert_eq!(counters.item_traits, Count { safe: 1, unsafe_: 1 });
    assert_eq!(counters.item_impls, Count { safe: 1, unsafe_: 1 });
    assert_eq!(counters.methods, Count { safe: 1, unsafe_: 1 });
    assert_eq!(counters.exprs, Count { safe: 0, unsafe_: 0 });
}

#[test]
fn expressions_go_by_their_scope() {
    // fn f() { a(b); unsafe { c(d(1)); } e }
    let file = file_of(vec![node(
        NodeKind::Function,
        false,
        vec![
            expr(vec![node(NodeKind::PathExpr, false, vec![]), node(NodeKind::PathExpr, false, vec![])]),
            node(
                NodeKind::UnsafeBlock,
                false,
                vec![expr(vec![
                    node(NodeKind::PathExpr, false, vec![]),
                    expr(vec![node(NodeKind::LitExpr, false, vec![])]),
                ])],
            ),
            expr(vec![]),
        ],
    )]);
    let visitor = scan(&file, IncludeTests::No);
    assert_eq!(visitor.metrics.counters.exprs, Count { safe: 2, unsafe_: 2 });
    assert_eq!(visitor.metrics.counters.functions, Count { safe: 1, unsafe_: 0 });
    assert_eq!(visitor.unsafe_scopes, 0);
}

#[test]
fn an_unsafe_function_is_a_scope() {
    let file = file_of(vec![node(
        NodeKind::Function,
        true,
        vec![expr(vec![]), node(NodeKind::UnsafeBlock, false, vec![expr(vec![])])],
    )]);
    let visitor = scan(&file, IncludeTests::No);
    assert_eq!(visitor.metrics.counters.functions, Count { safe: 0, unsafe_: 1 });
    assert_eq!(visitor.metrics.counters.exprs, Count { safe: 0, unsafe_: 2 });
    assert_eq!(visitor.unsafe_scopes, 0);
}

#[test]
fn an_unsafe_method_is_a_scope_but_its_impl_is_not() {
    let file = file_of(vec![node(
        NodeKind::Impl,
        true,
        vec![
            node(NodeKind::Method, false, vec![expr(vec![])]),
            node(NodeKind::Method, true, vec![expr(vec![]), expr(vec![])]),
        ],
    )]);
    let counters = scan(&file, IncludeTests::No).metrics.counters;
    assert_eq!(counters.item_impls, Count { safe: 0, unsafe_: 1 });
    assert_eq!(counters.methods, Count { safe: 1, unsafe_: 1 });
    assert_eq!(counters.exprs, Count { safe: 1, unsafe_: 2 });
}

#[test]
fn an_unsafe_trait_opens_no_scope() {
    let file = file_of(vec![node(
        NodeKind::Trait,
        true,
        vec![node(NodeKind::Other, false, vec![expr(vec![])])],
    )]);
    let counters = scan(&file, IncludeTests::No).metrics.counters;
    assert_eq!(counters.item_traits, Count { safe: 0, unsafe_: 1 });
    assert_eq!(counters.exprs, Count { safe: 1, unsafe_: 0 });
}

#[test]
fn path_and_literal_expressions_are_passed_over() {
    let file = file_of(vec![
        node(NodeKind::PathExpr, false, vec![expr(vec![])]),
        node(NodeKind::LitExpr, false, vec![expr(vec![])]),
    ]);
    assert_eq!(scan(&file, IncludeTests::Yes).metrics.counters, CounterBlock::new());
}

fn file_with_tests() -> SourceFile {
    file_of(vec![
        node(NodeKind::Function, false, vec![expr(vec![])]),
        test_node(
            NodeKind::Function,
            vec![node(NodeKind::UnsafeBlock, false, vec![expr(vec![])])],
        ),
        test_node(
            NodeKind::Module,
            vec![node(NodeKind::Function, true, vec![expr(vec![])]), node(NodeKind::Trait, false, vec![])],
        ),
        node(NodeKind::Module, false, vec![node(NodeKind::Function, false, vec![])]),
    ])
}

#[test]
fn tests_are_left_out() {
    let visitor = scan(&file_with_tests(), IncludeTests::No);
    let counters = visitor.metrics.counters;
    assert_eq!(counters.functions, Count { safe: 2, unsafe_: 0 });
    assert_eq!(counters.exprs, Count { safe: 1, unsafe_: 0 });
    assert_eq!(counters.item_traits, Count { safe: 0, unsafe_: 0 });
    assert_eq!(visitor.unsafe_scopes, 0);
}

#[test]
fn tests_are_walked_on_request() {
    let visitor = scan(&file_with_tests(), IncludeTests::Yes);
    let counters = visitor.metrics.counters;
    assert_eq!(counters.functions, Count { safe: 3, unsafe_: 1 });
    assert_eq!(counters.exprs, Count { safe: 1, unsafe_: 2 });
    assert_eq!(counters.item_traits, Count { safe: 1, unsafe_: 0 });
    assert_eq!(visitor.unsafe_scopes, 0);
}

#[test]
fn a_test_marker_on_a_method_or_trait_skips_nothing() {
    let file = file_of(vec![test_node(NodeKind::Impl, vec![test_node(NodeKind::Method, vec![])])]);
    let counters = scan(&file, IncludeTests::No).metrics.counters;
    assert_eq!(counters.item_impls, Count { safe: 1, unsafe_: 0 });
    assert_eq!(counters.methods, Count { safe: 1, unsafe_: 0 });
}

#[test]
fn repeated_walks_agree() {
    let first = scan(&file_with_tests(), IncludeTests::Yes);
    let second = scan(&file_with_tests(), IncludeTests::Yes);
    assert_eq!(first.metrics, second.metrics);
}

#[test]
fn totals_equal_the_numbers_of_constructs() {
    let counters = scan(&file_with_tests(), IncludeTests::Yes).metrics.counters;
    assert_eq!(counters.functions.safe + counters.functions.unsafe_, 4);
    assert_eq!(counters.exprs.safe + counters.exprs.unsafe_, 3);
    assert_eq!(counters.item_traits.safe + counters.item_traits.unsafe_, 1);
    assert_eq!(counters.item_impls.safe + counters.item_impls.unsafe_, 0);
    assert_eq!(counters.methods.safe + counters.methods.unsafe_, 0);
}

#[test]
fn deep_nesting_returns_to_the_starting_depth() {
    let mut tree = expr(vec![]);
    for _ in 0..50 {
        tree = node(NodeKind::UnsafeBlock, false, vec![expr(vec![tree])]);
    }
    let mut visitor = GeigerSynVisitor::new(IncludeTests::No, String::new());
    visitor.enter_unsafe_scope();
    visitor.visit_node(&tree);
    assert_eq!(visitor.unsafe_scopes, 1);
    assert_eq!(visitor.metrics.counters.exprs, Count { safe: 0, unsafe_: 51 });
}

#[test]
fn forbidding_attribute_at_the_root() {
    let forbids = RootAttribute { inner: true, forbids_unsafe_code: true };
    let outer = RootAttribute { inner: false, forbids_unsafe_code: true };
    let other = RootAttribute { inner: true, forbids_unsafe_code: false };
    let with = |attributes: Vec<RootAttribute>| SourceFile {
        attributes,
        root: node(NodeKind::Other, false, vec![test_node(NodeKind::Module, vec![])]),
    };
    assert!(file_forbids_unsafe(&with(vec![other, forbids])));
    assert!(!file_forbids_unsafe(&with(vec![other, outer])));
    assert!(!file_forbids_unsafe(&with(vec![])));
    let visitor = scan(&with(vec![forbids]), IncludeTests::No);
    assert!(visitor.metrics.forbids_unsafe);
    assert_eq!(visitor.metrics.counters, CounterBlock::new());
}

#[test]
fn each_visit_method_handles_its_kind() {
    let mut visitor = GeigerSynVisitor::new(IncludeTests::No, String::new());
    visitor.visit_item_fn(&node(NodeKind::Function, true, vec![expr(vec![])]));
    visitor.visit_impl_item_method(&node(NodeKind::Method, false, vec![expr(vec![])]));
    visitor.visit_item_impl(&node(NodeKind::Impl, false, vec![]));
    visitor.visit_item_trait(&node(NodeKind::Trait, true, vec![]));
    visitor.visit_item_mod(&node(NodeKind::Module, false, vec![expr(vec![])]));
    visitor.visit_expr(&node(NodeKind::UnsafeBlock, false, vec![expr(vec![])]));
    visitor.visit_children(&node(NodeKind::Function, true, vec![expr(vec![])]));
    let counters = visitor.metrics.counters;
    assert_eq!(counters.functions, Count { safe: 0, unsafe_: 1 });
    assert_eq!(counters.methods, Count { safe: 1, unsafe_: 0 });
    assert_eq!(counters.item_impls, Count { safe: 1, unsafe_: 0 });
    assert_eq!(counters.item_traits, Count { safe: 0, unsafe_: 1 });
    assert_eq!(counters.exprs, Count { safe: 3, unsafe_: 2 });
    assert_eq!(visitor.unsafe_scopes, 0);
}

fn stems(names: &[&str]) -> Vec<String> {
    names.iter().map(|name| name.to_string()).collect()
}

#[test]
fn dump_name_of_a_nested_file() {
    let name = geiger_audit::dump::get_filename(&stems(&["bar", "foo", "src", "pkg", "home"]));
    assert_eq!(name, Some(stems(&["pkg", "foo", "bar"])));
}

#[test]
fn dump_name_of_a_file_directly_below_src() {
    let name = geiger_audit::dump::get_filename(&stems(&["lib", "src", "pkg"]));
    assert_eq!(name, Some(stems(&["pkg", "lib"])));
}

#[test]
fn dump_name_goes_by_the_innermost_src() {
    let name = geiger_audit::dump::get_filename(&stems(&["a", "src", "inner", "src", "outer"]));
    assert_eq!(name, Some(stems(&["inner", "a"])));
}

#[test]
fn no_dump_name_outside_src() {
    assert_eq!(geiger_audit::dump::get_filename(&stems(&["lib", "source", "pkg"])), None);
    assert_eq!(geiger_audit::dump::get_filename(&stems(&[])), None);
}

#[test]
fn scope_need_is_the_deepest_nesting() {
    let flat = file_of(vec![
        node(NodeKind::Function, true, vec![expr(vec![])]),
        node(NodeKind::Function, true, vec![node(NodeKind::UnsafeBlock, false, vec![])]),
        node(NodeKind::Impl, true, vec![node(NodeKind::Method, true, vec![])]),
    ]);
    assert_eq!(scope_need_of(&flat.root, IncludeTests::No), Some(2));
    assert_eq!(scope_need_of(&file_of(vec![]).root, IncludeTests::No), Some(0));
    assert_eq!(scope_need_of(&file_with_tests().root, IncludeTests::No), Some(0));
    assert_eq!(scope_need_of(&file_with_tests().root, IncludeTests::Yes), Some(1));
    let hidden = node(NodeKind::PathExpr, false, vec![node(NodeKind::UnsafeBlock, false, vec![])]);
    assert_eq!(scope_need_of(&hidden, IncludeTests::Yes), Some(0));
}

#[test]
fn checked_tally_agrees_with_the_walk() {
    let file = file_with_tests();
    for include_tests in [IncludeTests::Yes, IncludeTests::No] {
        let walked = scan(&file, include_tests).metrics.counters;
        assert_eq!(checked_node_tally(&file.root, false, include_tests), Some(walked));
    }
    let inside = checked_node_tally(&expr(vec![expr(vec![])]), true, IncludeTests::No).unwrap();
    assert_eq!(inside.exprs, Count { safe: 0, unsafe_: 2 });
}

#[test]
fn a_walk_fits_until_a_counter_is_full() {
    let tree = node(NodeKind::Function, true, vec![expr(vec![])]);
    let mut visitor = GeigerSynVisitor::new(IncludeTests::No, String::new());
    assert!(visitor.fits_walk(&tree));
    visitor.metrics.counters.exprs.unsafe_ = u64::MAX;
    assert!(!visitor.fits_walk(&tree));
    visitor.metrics.counters.exprs.unsafe_ = u64::MAX - 1;
    assert!(visitor.fits_walk(&tree));
    visitor.metrics.counters.functions.safe = u64::MAX;
    assert!(visitor.fits_walk(&tree));
    visitor.unsafe_scopes = u32::MAX;
    assert!(!visitor.fits_walk(&tree));
    assert!(visitor.fits_walk(&expr(vec![])));
}

#[test]
fn node_predicates() {
    assert!(test_node(NodeKind::Module, vec![]).is_skipped(IncludeTests::No));
    assert!(!test_node(NodeKind::Module, vec![]).is_skipped(IncludeTests::Yes));
    assert!(!test_node(NodeKind::Trait, vec![]).is_skipped(IncludeTests::No));
    assert!(node(NodeKind::LitExpr, false, vec![]).is_trivial_expr());
    assert!(!expr(vec![]).is_trivial_expr());
    assert!(node(NodeKind::UnsafeBlock, false, vec![]).is_scope());
    assert!(node(NodeKind::Method, true, vec![]).is_scope());
    assert!(!node(NodeKind::Impl, true, vec![]).is_scope());
    assert_eq!(
        node(NodeKind::Impl, true, vec![]).own_counters(false).item_impls,
        Count { safe: 0, unsafe_: 1 }
    );
    assert_eq!(expr(vec![]).own_counters(true).exprs, Count { safe: 0, unsafe_: 1 });
    assert_eq!(node(NodeKind::Module, true, vec![]).own_counters(true), CounterBlock::new());
}

#[test]
fn scan_of_a_file_ends_in_safe_code() {
    let file = SourceFile {
        attributes: vec![RootAttribute { inner: true, forbids_unsafe_code: true }],
        root: file_with_tests().root,
    };
    let visitor =
        GeigerSynVisitor::scan_file(IncludeTests::Yes, String::from("pkg/lib"), &file).unwrap();
    assert_eq!(visitor.unsafe_scopes, 0);
    assert!(visitor.metrics.forbids_unsafe);
    assert_eq!(visitor.metrics.counters, scan(&file, IncludeTests::Yes).metrics.counters);
    assert_eq!(visitor.metrics.counters.functions, Count { safe: 3, unsafe_: 1 });
    assert_eq!(visitor.include_tests, IncludeTests::Yes);
    assert_eq!(visitor.path, "pkg/lib");
    let empty = GeigerSynVisitor::scan_file(IncludeTests::No, String::new(), &file_of(vec![]));
    assert_eq!(empty.unwrap().metrics.counters, CounterBlock::new());
}
