//! The walk over one file's syntax tree that tallies safe and unsafe
//! occurrences of functions, expressions, impls, traits and methods.

use vstd::prelude::*;
use crate::counters::{CounterBlock, Pair, Tally};

verus! {

/// Whether test functions and test modules are walked.
#[derive(Clone, Copy, Debug, PartialEq, Eq, Structural)]
pub enum IncludeTests {
    Yes,
    No,
}

/// What a node of the syntax tree is.
#[derive(Clone, Copy, Debug, PartialEq, Eq, Structural)]
pub enum NodeKind {
    /// A free function.
    Function,
    /// A method in an impl block.
    Method,
    Module,
    Trait,
    Impl,
    /// An `unsafe { .. }` block expression.
    UnsafeBlock,
    /// An expression that only names a path.
    PathExpr,
    /// A literal expression.
    LitExpr,
    /// Any other expression.
    Expression,
    /// Any other syntax: statements, blocks, patterns, types.
    Other,
}

/// A node of the syntax tree with what the walk reads of it.
#[derive(Debug)]
pub struct SyntaxNode {
    pub kind: NodeKind,
    /// The node's own `unsafe` marker (functions, methods, traits, impls).
    pub is_unsafe: bool,
    /// Whether the node is a test function or a test module.
    pub is_test: bool,
    pub children: Vec<SyntaxNode>,
}

/// An attribute at the root of a file.
#[derive(Clone, Copy, Debug, PartialEq, Eq, Structural)]
pub struct RootAttribute {
    /// Whether it is an inner attribute, which applies to the file itself.
    pub inner: bool,
    /// Whether it forbids unsafe code.
    pub forbids_unsafe_code: bool,
}

/// The syntax tree of one file.
#[derive(Debug)]
pub struct SourceFile {
    pub attributes: Vec<RootAttribute>,
    /// The file itself; its children are the file's items.
    pub root: SyntaxNode,
}

/// The result of scanning one file.
#[derive(Clone, Copy, Debug, PartialEq, Eq, Structural)]
pub struct RsFileMetrics {
    pub counters: CounterBlock,
    pub forbids_unsafe: bool,
}

impl SyntaxNode {
    /// The node and all below it are left out: a test function or a test
    /// module while tests are not walked.
    pub open spec fn skipped(self, include_tests: bool) -> bool {
        !include_tests && self.is_test && (self.kind == NodeKind::Function || self.kind
            == NodeKind::Module)
    }

    /// A path or literal expression: never tallied, never entered.
    pub open spec fn is_trivial(self) -> bool {
        self.kind == NodeKind::PathExpr || self.kind == NodeKind::LitExpr
    }

    /// The node opens an unsafe scope for what is below it.
    pub open spec fn opens_scope(self) -> bool {
        self.kind == NodeKind::UnsafeBlock || (self.is_unsafe && (self.kind == NodeKind::Function
            || self.kind == NodeKind::Method))
    }

    /// What the node itself adds, apart from what is below it: items by
    /// their own marker, expressions by the scope they stand in.
    pub open spec fn own_tally(self, in_unsafe: bool) -> Tally {
        let zero = Tally::zero();
        match self.kind {
            NodeKind::Function => Tally { functions: Pair::one(self.is_unsafe), ..zero },
            NodeKind::Method => Tally { methods: Pair::one(self.is_unsafe), ..zero },
            NodeKind::Trait => Tally { item_traits: Pair::one(self.is_unsafe), ..zero },
            NodeKind::Impl => Tally { item_impls: Pair::one(self.is_unsafe), ..zero },
            NodeKind::Expression => Tally { exprs: Pair::one(in_unsafe), ..zero },
            _ => zero,
        }
    }
}

/// What walking `node` adds to the counters, where `in_unsafe` says whether
/// the node stands inside an unsafe scope.
pub open spec fn node_tally(node: SyntaxNode, in_unsafe: bool, include_tests: bool) -> Tally
    decreases node, node.children.len() + 1,
{
    if node.skipped(include_tests) || node.is_trivial() {
        Tally::zero()
    } else {
        node.own_tally(in_unsafe).plus(
            children_tally(
                node,
                node.children.len() as int,
                in_unsafe || node.opens_scope(),
                include_tests,
            ),
        )
    }
}

/// What walking the first `n` children of `node` adds to the counters.
pub open spec fn children_tally(node: SyntaxNode, n: int, in_unsafe: bool, include_tests: bool) -> Tally
    decreases node, n,
{
    if n <= 0 || n > node.children.len() {
        Tally::zero()
    } else {
        children_tally(node, n - 1, in_unsafe, include_tests).plus(
            node_tally(node.children[n - 1], in_unsafe, include_tests),
        )
    }
}

/// The deepest nesting of unsafe scopes that walking `node` reaches.
pub open spec fn scope_need(node: SyntaxNode, include_tests: bool) -> int
    decreases node, node.children.len() + 1,
{
    if node.skipped(include_tests) || node.is_trivial() {
        0
    } else {
        (if node.opens_scope() {
            1int
        } else {
            0int
        }) + children_scope_need(node, node.children.len() as int, include_tests)
    }
}

/// The deepest nesting that walking the first `n` children of `node` reaches.
pub open spec fn children_scope_need(node: SyntaxNode, n: int, include_tests: bool) -> int
    decreases node, n,
{
    if n <= 0 || n > node.children.len() {
        0
    } else {
        let before = children_scope_need(node, n - 1, include_tests);
        let child = scope_need(node.children[n - 1], include_tests);
        if before >= child {
            before
        } else {
            child
        }
    }
}

/// The number of walked nodes of `kind` in the tree under `node`, itself included.
pub open spec fn construct_count(node: SyntaxNode, kind: NodeKind, include_tests: bool) -> int
    decreases node, node.children.len() + 1,
{
    if node.skipped(include_tests) || node.is_trivial() {
        0
    } else {
        (if node.kind == kind {
            1int
        } else {
            0int
        }) + children_construct_count(node, node.children.len() as int, kind, include_tests)
    }
}

/// The number of walked nodes of `kind` under the first `n` children of `node`.
pub open spec fn children_construct_count(
    node: SyntaxNode,
    n: int,
    kind: NodeKind,
    include_tests: bool,
) -> int
    decreases node, n,
{
    if n <= 0 || n > node.children.len() {
        0
    } else {
        children_construct_count(node, n - 1, kind, include_tests) + construct_count(
            node.children[n - 1],
            kind,
            include_tests,
        )
    }
}

impl NodeKind {
    /// The kind is one of the five that the counters tally.
    pub open spec fn is_tallied(self) -> bool {
        self == NodeKind::Function || self == NodeKind::Method || self == NodeKind::Trait || self
            == NodeKind::Impl || self == NodeKind::Expression
    }
}

/// The safe and the unsafe tally of `kind` taken together.
pub open spec fn kind_total(tally: Tally, kind: NodeKind) -> int {
    match kind {
        NodeKind::Function => tally.functions.total(),
        NodeKind::Method => tally.methods.total(),
        NodeKind::Trait => tally.item_traits.total(),
        NodeKind::Impl => tally.item_impls.total(),
        NodeKind::Expression => tally.exprs.total(),
        _ => 0,
    }
}

/// For each of the five kinds, the safe and unsafe tallies of a walk add up
/// to the number of walked nodes of that kind, whatever scope the walk
/// starts in.
pub proof fn lemma_tally_counts_constructs(
    node: SyntaxNode,
    in_unsafe: bool,
    include_tests: bool,
    kind: NodeKind,
)
    requires
        kind.is_tallied(),
    ensures
        kind_total(node_tally(node, in_unsafe, include_tests), kind) == construct_count(
            node,
            kind,
            include_tests,
        ),
    decreases node, node.children.len() + 1,
{
    if !(node.skipped(include_tests) || node.is_trivial()) {
        lemma_children_tally_counts_constructs(
            node,
            node.children.len() as int,
            in_unsafe || node.opens_scope(),
            include_tests,
            kind,
        );
    }
}

/// The same for the first `n` children of a node.
pub proof fn lemma_children_tally_counts_constructs(
    node: SyntaxNode,
    n: int,
    in_unsafe: bool,
    include_tests: bool,
    kind: NodeKind,
)
    requires
        kind.is_tallied(),
    ensures
        kind_total(children_tally(node, n, in_unsafe, include_tests), kind)
            == children_construct_count(node, n, kind, include_tests),
    decreases node, n,
{
    if !(n <= 0 || n > node.children.len()) {
        lemma_children_tally_counts_constructs(node, n - 1, in_unsafe, include_tests, kind);
        lemma_tally_counts_constructs(node.children[n - 1], in_unsafe, include_tests, kind);
    }
}

impl SyntaxNode {
    /// Whether the node goes to the unsafe side of its counter: an
    /// expression by the scope it stands in, an item by its own marker.
    pub open spec fn counts_as_unsafe(self, in_unsafe: bool) -> bool {
        if self.kind == NodeKind::Expression {
            in_unsafe
        } else {
            self.is_unsafe
        }
    }
}

/// The unsafe tally of `kind`.
pub open spec fn kind_unsafe(tally: Tally, kind: NodeKind) -> int {
    match kind {
        NodeKind::Function => tally.functions.unsafe_,
        NodeKind::Method => tally.methods.unsafe_,
        NodeKind::Trait => tally.item_traits.unsafe_,
        NodeKind::Impl => tally.item_impls.unsafe_,
        NodeKind::Expression => tally.exprs.unsafe_,
        _ => 0,
    }
}

/// The number of walked nodes of `kind` under `node`, itself included, that
/// go to the unsafe side of their counter.
pub open spec fn unsafe_construct_count(
    node: SyntaxNode,
    kind: NodeKind,
    in_unsafe: bool,
    include_tests: bool,
) -> int
    decreases node, node.children.len() + 1,
{
    if node.skipped(include_tests) || node.is_trivial() {
        0
    } else {
        (if node.kind == kind && node.counts_as_unsafe(in_unsafe) {
            1int
        } else {
            0int
        }) + children_unsafe_construct_count(
            node,
            node.children.len() as int,
            kind,
            in_unsafe || node.opens_scope(),
            include_tests,
        )
    }
}

/// The same number under the first `n` children of `node`.
pub open spec fn children_unsafe_construct_count(
    node: SyntaxNode,
    n: int,
    kind: NodeKind,
    in_unsafe: bool,
    include_tests: bool,
) -> int
    decreases node, n,
{
    if n <= 0 || n > node.children.len() {
        0
    } else {
        children_unsafe_construct_count(node, n - 1, kind, in_unsafe, include_tests)
            + unsafe_construct_count(node.children[n - 1], kind, in_unsafe, include_tests)
    }
}

/// For each of the five kinds, the unsafe tally of a walk is the number of
/// walked nodes of that kind that are unsafe: items by their own marker,
/// expressions by standing in an unsafe scope.
pub proof fn lemma_tally_counts_unsafe_constructs(
    node: SyntaxNode,
    in_unsafe: bool,
    include_tests: bool,
    kind: NodeKind,
)
    requires
        kind.is_tallied(),
    ensures
        kind_unsafe(node_tally(node, in_unsafe, include_tests), kind) == unsafe_construct_count(
            node,
            kind,
            in_unsafe,
            include_tests,
        ),
    decreases node, node.children.len() + 1,
{
    if !(node.skipped(include_tests) || node.is_trivial()) {
        lemma_children_tally_counts_unsafe_constructs(
            node,
            node.children.len() as int,
            in_unsafe || node.opens_scope(),
            include_tests,
            kind,
        );
    }
}

/// The same for the first `n` children of a node.
pub proof fn lemma_children_tally_counts_unsafe_constructs(
    node: SyntaxNode,
    n: int,
    in_unsafe: bool,
    include_tests: bool,
    kind: NodeKind,
)
    requires
        kind.is_tallied(),
    ensures
        kind_unsafe(children_tally(node, n, in_unsafe, include_tests), kind)
            == children_unsafe_construct_count(node, n, kind, in_unsafe, include_tests),
    decreases node, n,
{
    if !(n <= 0 || n > node.children.len()) {
        lemma_children_tally_counts_unsafe_constructs(node, n - 1, in_unsafe, include_tests, kind);
        lemma_tally_counts_unsafe_constructs(node.children[n - 1], in_unsafe, include_tests, kind);
    }
}

/// A walk adds to each counter or leaves it: no tally of a walk is
/// negative, nor is the nesting it reaches.
pub proof fn lemma_tally_non_negative(node: SyntaxNode, in_unsafe: bool, include_tests: bool)
    ensures
        node_tally(node, in_unsafe, include_tests).non_negative(),
        scope_need(node, include_tests) >= 0,
    decreases node, node.children.len() + 1,
{
    if !(node.skipped(include_tests) || node.is_trivial()) {
        lemma_children_non_negative(
            node,
            node.children.len() as int,
            in_unsafe || node.opens_scope(),
            include_tests,
        );
    }
}

/// The same for the first `n` children of a node.
pub proof fn lemma_children_non_negative(
    node: SyntaxNode,
    n: int,
    in_unsafe: bool,
    include_tests: bool,
)
    ensures
        children_tally(node, n, in_unsafe, include_tests).non_negative(),
        children_scope_need(node, n, include_tests) >= 0,
    decreases node, n,
{
    if !(n <= 0 || n > node.children.len()) {
        lemma_children_non_negative(node, n - 1, in_unsafe, include_tests);
        lemma_tally_non_negative(node.children[n - 1], in_unsafe, include_tests);
    }
}

/// The tally and the nesting of a shorter run of children are within those
/// of a longer run, and so are those of each child in it.
pub proof fn lemma_children_monotone(node: SyntaxNode, i: int, n: int, in_unsafe: bool, t: bool)
    requires
        0 <= i <= n <= node.children.len(),
    ensures
        children_tally(node, i, in_unsafe, t).le(children_tally(node, n, in_unsafe, t)),
        children_scope_need(node, i, t) <= children_scope_need(node, n, t),
        i < n ==> children_tally(node, i + 1, in_unsafe, t).le(children_tally(node, n, in_unsafe, t)),
        i < n ==> scope_need(node.children[i], t) <= children_scope_need(node, n, t),
    decreases n - i,
{
    if i < n {
        lemma_children_monotone(node, i + 1, n, in_unsafe, t);
        lemma_tally_non_negative(node.children[i], in_unsafe, t);
        lemma_children_non_negative(node, i, in_unsafe, t);
    }
}

/// Two walks of one node from the same state end in the same state: the
/// result of a walk is a function of the tree and the starting state alone.
pub proof fn lemma_walk_is_repeatable(
    start: GeigerSynVisitor,
    first: GeigerSynVisitor,
    second: GeigerSynVisitor,
    node: SyntaxNode,
)
    requires
        first.advanced_by(start, node_tally(node, start.in_unsafe(), start.counts_tests())),
        second.advanced_by(start, node_tally(node, start.in_unsafe(), start.counts_tests())),
    ensures
        first == second,
{
}

/// The state of a walk over one file.
#[derive(Debug)]
pub struct GeigerSynVisitor {
    /// Whether test functions and test modules are walked.
    pub include_tests: IncludeTests,
    /// The result of the scan so far.
    pub metrics: RsFileMetrics,
    /// The number of nested unsafe scopes that the walk is in: 0 in safe
    /// code, 2 inside an unsafe block inside an unsafe function.
    pub unsafe_scopes: u32,
    /// The file's name in reports.
    pub path: String,
}

/// Whether an inner attribute among the first `n` forbids unsafe code.
pub open spec fn forbids_among(attributes: Seq<RootAttribute>, n: int) -> bool {
    exists|i: int|
        0 <= i < n && i < attributes.len() && (#[trigger] attributes[i]).inner
            && attributes[i].forbids_unsafe_code
}

/// Whether the file forbids unsafe code by an inner attribute at its root.
pub fn file_forbids_unsafe(file: &SourceFile) -> (forbids: bool)
    ensures
        forbids == forbids_among(file.attributes@, file.attributes@.len() as int),
{
    let mut i: usize = 0;
    while i < file.attributes.len()
        invariant
            i <= file.attributes.len(),
            !forbids_among(file.attributes@, i as int),
        decreases file.attributes.len() - i,
    {
        if file.attributes[i].inner && file.attributes[i].forbids_unsafe_code {
            return true;
        }
        i += 1;
    }
    false
}

impl GeigerSynVisitor {
    /// The number of unsafe scopes that the walk is in.
    pub open spec fn scope_depth(self) -> int {
        self.unsafe_scopes as int
    }

    /// Whether test functions and test modules are walked.
    pub open spec fn counts_tests(self) -> bool {
        self.include_tests == IncludeTests::Yes
    }

    /// Whether the walk stands inside an unsafe scope.
    pub open spec fn in_unsafe(self) -> bool {
        self.scope_depth() > 0
    }

    /// `self` is `before` with `added` more in its counters and nothing else changed.
    pub open spec fn advanced_by(self, before: GeigerSynVisitor, added: Tally) -> bool {
        &&& self.metrics.counters@ == before.metrics.counters@.plus(added)
        &&& self.metrics.forbids_unsafe == before.metrics.forbids_unsafe
        &&& self.scope_depth() == before.scope_depth()
        &&& self.counts_tests() == before.counts_tests()
        &&& self.path == before.path
    }

    /// Neither the counters nor the scope depth overflow while `node` is walked.
    pub open spec fn can_walk(self, node: SyntaxNode) -> bool {
        &&& self.metrics.counters@.plus(
            node_tally(node, self.in_unsafe(), self.counts_tests()),
        ).fits()
        &&& self.scope_depth() + scope_need(node, self.counts_tests()) <= u32::MAX
    }

    /// Neither overflows while the children of `node` are walked.
    pub open spec fn can_walk_children(self, node: SyntaxNode) -> bool {
        &&& self.metrics.counters@.plus(
            children_tally(
                node,
                node.children.len() as int,
                self.in_unsafe(),
                self.counts_tests(),
            ),
        ).fits()
        &&& self.scope_depth() + children_scope_need(
            node,
            node.children.len() as int,
            self.counts_tests(),
        ) <= u32::MAX
    }

    /// A walk that has seen nothing yet and stands in safe code.
    pub fn new(include_tests: IncludeTests, path: String) -> (visitor: GeigerSynVisitor)
        ensures
            visitor.metrics.counters@ == Tally::zero(),
            !visitor.metrics.forbids_unsafe,
            visitor.scope_depth() == 0,
            visitor.counts_tests() == (include_tests == IncludeTests::Yes),
            visitor.path == path,
    {
        GeigerSynVisitor {
            include_tests,
            metrics: RsFileMetrics { counters: CounterBlock::new(), forbids_unsafe: false },
            unsafe_scopes: 0,
            path,
        }
    }

    /// Enters one more unsafe scope.
    pub fn enter_unsafe_scope(&mut self)
        requires
            old(self).scope_depth() < u32::MAX,
        ensures
            final(self).scope_depth() == old(self).scope_depth() + 1,
            final(self).metrics == old(self).metrics,
            final(self).counts_tests() == old(self).counts_tests(),
            final(self).path == old(self).path,
    {
        self.unsafe_scopes = self.unsafe_scopes + 1;
    }

    /// Leaves the innermost unsafe scope.
    pub fn exit_unsafe_scope(&mut self)
        requires
            old(self).scope_depth() > 0,
        ensures
            final(self).scope_depth() == old(self).scope_depth() - 1,
            final(self).metrics == old(self).metrics,
            final(self).counts_tests() == old(self).counts_tests(),
            final(self).path == old(self).path,
    {
        self.unsafe_scopes = self.unsafe_scopes - 1;
    }

    /// Walks a whole file: notes whether its root forbids unsafe code, then
    /// walks its tree. The scope depth ends where it began.
    pub fn visit_file(&mut self, file: &SourceFile)
        requires
            old(self).can_walk(file.root),
        ensures
            final(self).metrics.counters@ == old(self).metrics.counters@.plus(
                node_tally(file.root, old(self).in_unsafe(), old(self).counts_tests()),
            ),
            final(self).metrics.forbids_unsafe == forbids_among(
                file.attributes@,
                file.attributes@.len() as int,
            ),
            old(self).metrics.counters@.le(final(self).metrics.counters@),
            final(self).scope_depth() == old(self).scope_depth(),
            final(self).counts_tests() == old(self).counts_tests(),
            final(self).path == old(self).path,
    {
        proof {
            lemma_tally_non_negative(file.root, self.in_unsafe(), self.counts_tests());
        }
        self.metrics.forbids_unsafe = file_forbids_unsafe(file);
        self.visit_node(&file.root);
    }

    /// Walks `node` and all below it.
    pub fn visit_node(&mut self, node: &SyntaxNode)
        requires
            old(self).can_walk(*node),
        ensures
            final(self).advanced_by(
                *old(self),
                node_tally(*node, old(self).in_unsafe(), old(self).counts_tests()),
            ),
        decreases *node, 2int,
    {
        match node.kind {
            NodeKind::Function => self.visit_item_fn(node),
            NodeKind::Method => self.visit_impl_item_method(node),
            NodeKind::Module => self.visit_item_mod(node),
            NodeKind::Trait => self.visit_item_trait(node),
            NodeKind::Impl => self.visit_item_impl(node),
            NodeKind::Other => self.visit_children(node),
            _ => self.visit_expr(node),
        }
    }

    /// Walks the children of `node`, in order.
    pub fn visit_children(&mut self, node: &SyntaxNode)
        requires
            old(self).can_walk_children(*node),
        ensures
            final(self).advanced_by(
                *old(self),
                children_tally(
                    *node,
                    node.children.len() as int,
                    old(self).in_unsafe(),
                    old(self).counts_tests(),
                ),
            ),
        decreases *node, 0int,
    {
        let ghost before = *self;
        let ghost in_unsafe = self.in_unsafe();
        let ghost t = self.counts_tests();
        let n = node.children.len();
        let mut i: usize = 0;
        while i < n
            invariant
                i <= n,
                n == node.children.len(),
                before.can_walk_children(*node),
                in_unsafe == before.in_unsafe(),
                t == before.counts_tests(),
                self.advanced_by(before, children_tally(*node, i as int, in_unsafe, t)),
            decreases n - i,
        {
            proof {
                lemma_children_monotone(*node, i as int, n as int, in_unsafe, t);
                lemma_children_non_negative(*node, i as int, in_unsafe, t);
                lemma_tally_non_negative(node.children[i as int], in_unsafe, t);
            }
            self.visit_node(&node.children[i]);
            i += 1;
        }
    }

    /// A free function: tallied by its own marker; an unsafe one is an
    /// unsafe scope for its body. A test function is left out with all
    /// below it while tests are not walked.
    pub fn visit_item_fn(&mut self, node: &SyntaxNode)
        requires
            node.kind == NodeKind::Function,
            old(self).can_walk(*node),
        ensures
            final(self).advanced_by(
                *old(self),
                node_tally(*node, old(self).in_unsafe(), old(self).counts_tests()),
            ),
        decreases *node, 1int,
    {
        if self.include_tests == IncludeTests::No && node.is_test {
            return ;
        }
        proof {
            lemma_children_non_negative(
                *node,
                node.children.len() as int,
                self.in_unsafe() || node.opens_scope(),
                self.counts_tests(),
            );
        }
        if node.is_unsafe {
            self.enter_unsafe_scope();
        }
        self.metrics.counters.functions.count(node.is_unsafe);
        self.visit_children(node);
        if node.is_unsafe {
            self.exit_unsafe_scope();
        }
    }

    /// An expression: tallied by the scope it stands in, but for path and
    /// literal expressions, which are passed over, and for an unsafe block,
    /// which is only a scope for what it holds.
    pub fn visit_expr(&mut self, node: &SyntaxNode)
        requires
            node.kind == NodeKind::UnsafeBlock || node.kind == NodeKind::PathExpr || node.kind
                == NodeKind::LitExpr || node.kind == NodeKind::Expression,
            old(self).can_walk(*node),
        ensures
            final(self).advanced_by(
                *old(self),
                node_tally(*node, old(self).in_unsafe(), old(self).counts_tests()),
            ),
        decreases *node, 1int,
    {
        proof {
            lemma_children_non_negative(
                *node,
                node.children.len() as int,
                self.in_unsafe() || node.opens_scope(),
                self.counts_tests(),
            );
        }
        match node.kind {
            NodeKind::UnsafeBlock => {
                self.enter_unsafe_scope();
                self.visit_children(node);
                self.exit_unsafe_scope();
            },
            NodeKind::PathExpr | NodeKind::LitExpr => {},
            _ => {
                let in_unsafe = self.unsafe_scopes > 0;
                self.metrics.counters.exprs.count(in_unsafe);
                self.visit_children(node);
            },
        }
    }

    /// A module: walked, unless it is a test module while tests are not walked.
    pub fn visit_item_mod(&mut self, node: &SyntaxNode)
        requires
            node.kind == NodeKind::Module,
            old(self).can_walk(*node),
        ensures
            final(self).advanced_by(
                *old(self),
                node_tally(*node, old(self).in_unsafe(), old(self).counts_tests()),
            ),
        decreases *node, 1int,
    {
        if self.include_tests == IncludeTests::No && node.is_test {
            return ;
        }
        self.visit_children(node);
    }

    /// An impl block: tallied by its own marker, which opens no scope.
    pub fn visit_item_impl(&mut self, node: &SyntaxNode)
        requires
            node.kind == NodeKind::Impl,
            old(self).can_walk(*node),
        ensures
            final(self).advanced_by(
                *old(self),
                node_tally(*node, old(self).in_unsafe(), old(self).counts_tests()),
            ),
        decreases *node, 1int,
    {
        proof {
            lemma_children_non_negative(
                *node,
                node.children.len() as int,
                self.in_unsafe(),
                self.counts_tests(),
            );
        }
        self.metrics.counters.item_impls.count(node.is_unsafe);
        self.visit_children(node);
    }

    /// A trait: tallied by its own marker, which opens no scope.
    pub fn visit_item_trait(&mut self, node: &SyntaxNode)
        requires
            node.kind == NodeKind::Trait,
            old(self).can_walk(*node),
        ensures
            final(self).advanced_by(
                *old(self),
                node_tally(*node, old(self).in_unsafe(), old(self).counts_tests()),
            ),
        decreases *node, 1int,
    {
        proof {
            lemma_children_non_negative(
                *node,
                node.children.len() as int,
                self.in_unsafe(),
                self.counts_tests(),
            );
        }
        self.metrics.counters.item_traits.count(node.is_unsafe);
        self.visit_children(node);
    }

    /// A method: tallied by its own marker; an unsafe one is an unsafe
    /// scope for its body.
    pub fn visit_impl_item_method(&mut self, node: &SyntaxNode)
        requires
            node.kind == NodeKind::Method,
            old(self).can_walk(*node),
        ensures
            final(self).advanced_by(
                *old(self),
                node_tally(*node, old(self).in_unsafe(), old(self).counts_tests()),
            ),
        decreases *node, 1int,
    {
        proof {
            lemma_children_non_negative(
                *node,
                node.children.len() as int,
                self.in_unsafe() || node.opens_scope(),
                self.counts_tests(),
            );
        }
        if node.is_unsafe {
            self.enter_unsafe_scope();
        }
        self.metrics.counters.methods.count(node.is_unsafe);
        self.visit_children(node);
        if node.is_unsafe {
            self.exit_unsafe_scope();
        }
    }
}

impl SyntaxNode {
    /// Whether the node and all below it are left out of a walk.
    pub fn is_skipped(&self, include_tests: IncludeTests) -> (r: bool)
        ensures
            r == self.skipped(include_tests == IncludeTests::Yes),
    {
        include_tests == IncludeTests::No && self.is_test && (self.kind == NodeKind::Function
            || self.kind == NodeKind::Module)
    }

    /// Whether the node is a path or literal expression.
    pub fn is_trivial_expr(&self) -> (r: bool)
        ensures
            r == self.is_trivial(),
    {
        self.kind == NodeKind::PathExpr || self.kind == NodeKind::LitExpr
    }

    /// Whether the node opens an unsafe scope for what is below it.
    pub fn is_scope(&self) -> (r: bool)
        ensures
            r == self.opens_scope(),
    {
        self.kind == NodeKind::UnsafeBlock || (self.is_unsafe && (self.kind == NodeKind::Function
            || self.kind == NodeKind::Method))
    }

    /// What the node itself adds to the counters.
    pub fn own_counters(&self, in_unsafe: bool) -> (block: CounterBlock)
        ensures
            block@ == self.own_tally(in_unsafe),
    {
        let mut block = CounterBlock::new();
        match self.kind {
            NodeKind::Function => block.functions.count(self.is_unsafe),
            NodeKind::Method => block.methods.count(self.is_unsafe),
            NodeKind::Trait => block.item_traits.count(self.is_unsafe),
            NodeKind::Impl => block.item_impls.count(self.is_unsafe),
            NodeKind::Expression => block.exprs.count(in_unsafe),
            _ => {},
        }
        block
    }
}

/// The deepest nesting of unsafe scopes that a walk of `node` reaches,
/// where it fits the depth counter, else `None`.
pub fn scope_need_of(node: &SyntaxNode, include_tests: IncludeTests) -> (need: Option<u32>)
    ensures
        need.is_some() == (scope_need(*node, include_tests == IncludeTests::Yes) <= u32::MAX),
        need.is_some() ==> need.unwrap() == scope_need(*node, include_tests == IncludeTests::Yes),
    decreases *node,
{
    let ghost t = include_tests == IncludeTests::Yes;
    if node.is_skipped(include_tests) || node.is_trivial_expr() {
        return Some(0);
    }
    let n = node.children.len();
    let mut deepest: u32 = 0;
    let mut i: usize = 0;
    while i < n
        invariant
            i <= n,
            n == node.children.len(),
            t == (include_tests == IncludeTests::Yes),
            !node.skipped(t) && !node.is_trivial(),
            deepest == children_scope_need(*node, i as int, t),
        decreases n - i,
    {
        proof {
            lemma_children_monotone(*node, i as int, n as int, false, t);
            lemma_children_non_negative(*node, n as int, false, t);
        }
        match scope_need_of(&node.children[i], include_tests) {
            None => {
                return None;
            },
            Some(below) => {
                if below > deepest {
                    deepest = below;
                }
            },
        }
        i += 1;
    }
    if node.is_scope() {
        if deepest == u32::MAX {
            None
        } else {
            Some(deepest + 1)
        }
    } else {
        Some(deepest)
    }
}

/// What a walk of `node` adds to the counters, where every tally of it
/// fits its counter, else `None`.
pub fn checked_node_tally(node: &SyntaxNode, in_unsafe: bool, include_tests: IncludeTests) -> (tally:
    Option<CounterBlock>)
    ensures
        tally.is_some() == node_tally(*node, in_unsafe, include_tests == IncludeTests::Yes).fits(),
        tally.is_some() ==> tally.unwrap()@ == node_tally(
            *node,
            in_unsafe,
            include_tests == IncludeTests::Yes,
        ),
    decreases *node,
{
    let ghost t = include_tests == IncludeTests::Yes;
    if node.is_skipped(include_tests) || node.is_trivial_expr() {
        return Some(CounterBlock::new());
    }
    let below_unsafe = in_unsafe || node.is_scope();
    let n = node.children.len();
    let mut sum = CounterBlock::new();
    let mut i: usize = 0;
    while i < n
        invariant
            i <= n,
            n == node.children.len(),
            t == (include_tests == IncludeTests::Yes),
            !node.skipped(t) && !node.is_trivial(),
            below_unsafe == (in_unsafe || node.opens_scope()),
            sum@ == children_tally(*node, i as int, below_unsafe, t),
        decreases n - i,
    {
        proof {
            lemma_children_monotone(*node, i as int, n as int, below_unsafe, t);
            lemma_children_non_negative(*node, n as int, below_unsafe, t);
            lemma_children_non_negative(*node, i as int, below_unsafe, t);
            lemma_tally_non_negative(node.children[i as int], below_unsafe, t);
        }
        match checked_node_tally(&node.children[i], below_unsafe, include_tests) {
            None => {
                return None;
            },
            Some(below) => match sum.checked_plus(below) {
                None => {
                    return None;
                },
                Some(more) => {
                    sum = more;
                },
            },
        }
        i += 1;
    }
    node.own_counters(in_unsafe).checked_plus(sum)
}

impl GeigerSynVisitor {
    /// Scans a file from a fresh state, where neither a counter nor the
    /// scope depth would overflow, else `None`. The walk ends in safe code.
    pub fn scan_file(include_tests: IncludeTests, path: String, file: &SourceFile) -> (visitor:
        Option<GeigerSynVisitor>)
        ensures
            visitor.is_some() == (node_tally(
                file.root,
                false,
                include_tests == IncludeTests::Yes,
            ).fits() && scope_need(file.root, include_tests == IncludeTests::Yes) <= u32::MAX),
            visitor.is_some() ==> {
                let v = visitor.unwrap();
                &&& v.metrics.counters@ == node_tally(
                    file.root,
                    false,
                    include_tests == IncludeTests::Yes,
                )
                &&& v.metrics.forbids_unsafe == forbids_among(
                    file.attributes@,
                    file.attributes@.len() as int,
                )
                &&& v.scope_depth() == 0
                &&& v.counts_tests() == (include_tests == IncludeTests::Yes)
                &&& v.path == path
            },
    {
        let mut visitor = GeigerSynVisitor::new(include_tests, path);
        if !visitor.fits_walk(&file.root) {
            return None;
        }
        visitor.visit_file(file);
        Some(visitor)
    }

    /// Whether `node` can be walked from this state without an overflow of
    /// the counters or of the scope depth.
    pub fn fits_walk(&self, node: &SyntaxNode) -> (ok: bool)
        ensures
            ok == self.can_walk(*node),
    {
        proof {
            lemma_tally_non_negative(*node, self.in_unsafe(), self.counts_tests());
        }
        let tally = checked_node_tally(node, self.unsafe_scopes > 0, self.include_tests);
        let need = scope_need_of(node, self.include_tests);
        match (tally, need) {
            (Some(added), Some(depth)) => self.metrics.counters.checked_plus(added).is_some()
                && depth <= u32::MAX - self.unsafe_scopes,
            _ => false,
        }
    }
}

} // verus!
