use bracketlint::ident::AstNodeId;
use bracketlint::kind::{AstKind, AstRef, AstRefMut};
use bracketlint::node::{AstNode, AstNodeRef, AstNodeRefMut};
use bracketlint::nodes::AstNodes;
use bracketlint::tree::{
    BinExpr, BinOp, Block, Body, Document, Expr, If, IfClause, Lit, LitExpr, Name, Statement,
    Text, Var, VarExpr,
};
use bracketlint::visitor::{walk, walk_mut, AstVisitor, AstVisitorMut};

fn node<T>(body: T, id: u32) -> AstNode<T> {
    AstNode { body: Box::new(body), id: AstNodeId(id) }
}

fn list<T>(nodes: Vec<AstNode<T>>, id: u32) -> AstNodes<T> {
    AstNodes::with_id(nodes, AstNodeId(id))
}

fn literal(value: i64, id: u32) -> AstNode<Expr> {
    node(Expr::Lit(LitExpr { lit: Lit::Int(value) }), id)
}

fn sample() -> AstNode<Document> {
    let condition = node(
        Expr::Bin(BinExpr { lhs: literal(1, 11), rhs: literal(2, 12), op: node(BinOp::Lt, 13) }),
        10,
    );
    let then = node(
        Body { contents: list(vec![node(Statement::Text(Text {}), 21)], 20) },
        19,
    );
    let clause = node(IfClause { condition, if_body: then }, 9);
    let otherwise = node(
        Body {
            contents: list(
                vec![node(Statement::Var(Var { identifier: node(Name { data: 5 }, 32) }), 31)],
                30,
            ),
        },
        29,
    );
    let branch = node(
        Statement::If(If { clauses: list(vec![clause], 8), otherwise: Some(otherwise) }),
        7,
    );
    let block = node(
        Statement::Block(Block {
            label: Some(node(Name { data: 1 }, 3)),
            children: list(vec![node(Statement::Text(Text {}), 5), branch], 4),
        }),
        2,
    );
    node(Document { children: list(vec![block, node(Statement::Text(Text {}), 40)], 41) }, 1)
}

fn label(node: &AstRef) -> &'static str {
    match node {
        AstRef::Document(_) => "document",
        AstRef::Statement(_) => "statement",
        AstRef::Block(_) => "block",
        AstRef::Name(_) => "name",
        AstRef::Text(_) => "text",
        AstRef::If(_) => "if",
        AstRef::IfClause(_) => "clause",
        AstRef::Expr(_) => "expr",
        AstRef::BinExpr(_) => "bin",
        AstRef::LitExpr(_) => "lit",
        AstRef::BinOp(_) => "op",
        AstRef::Body(_) => "body",
        AstRef::Var(_) => "var",
        _ => "other",
    }
}

struct Trace {
    seen: Vec<(&'static str, u32)>,
    skip: Option<&'static str>,
}

impl AstVisitor for Trace {
    fn visit<K: AstKind>(&mut self, node: AstNodeRef<'_, K>) {
        let any = K::wrap(node);
        let name = label(&any);
        self.seen.push((name, any.id().0));
        if self.skip != Some(name) {
            walk(self, node);
        }
    }
}

#[test]
fn read_visitor_sees_the_tree_in_preorder() {
    let root = sample();
    let mut trace = Trace { seen: vec![], skip: None };
    trace.visit(root.ast_ref());
    assert_eq!(
        trace.seen,
        vec![
            ("document", 1),
            ("statement", 2),
            ("block", 2),
            ("name", 3),
            ("statement", 5),
            ("text", 5),
            ("statement", 7),
            ("if", 7),
            ("clause", 9),
            ("expr", 10),
            ("bin", 10),
            ("expr", 11),
            ("lit", 11),
            ("expr", 12),
            ("lit", 12),
            ("op", 13),
            ("body", 19),
            ("statement", 21),
            ("text", 21),
            ("body", 29),
            ("statement", 31),
            ("var", 31),
            ("name", 32),
            ("statement", 40),
            ("text", 40),
        ]
    );
}

#[test]
fn read_visitor_may_skip_a_subtree() {
    let root = sample();
    let mut trace = Trace { seen: vec![], skip: Some("if") };
    trace.visit(root.ast_ref());
    assert_eq!(
        trace.seen,
        vec![
            ("document", 1),
            ("statement", 2),
            ("block", 2),
            ("name", 3),
            ("statement", 5),
            ("text", 5),
            ("statement", 7),
            ("if", 7),
            ("statement", 40),
            ("text", 40),
        ]
    );
}

#[test]
fn children_come_in_source_order() {
    let root = sample();
    let top = AstRef::Document(root.ast_ref()).children();
    let ids: Vec<u32> = top.iter().map(|child| child.id().0).collect();
    assert_eq!(ids, vec![2, 40]);
    let leaf = node(Expr::Var(VarExpr { var: Name { data: 3 } }), 50);
    let inner = AstRef::Expr(leaf.ast_ref()).children();
    assert_eq!(inner.len(), 1);
    assert_eq!(label(&inner[0]), "other");
    assert_eq!(inner[0].id(), AstNodeId(50));
    assert!(inner[0].children().is_empty());
}

struct Rewrite {
    seen: Vec<u32>,
    descend_into_rewritten: bool,
}

impl AstVisitorMut for Rewrite {
    fn visit_mut<K: AstKind>(&mut self, mut node: AstNodeRefMut<'_, K>) {
        let id = node.id();
        self.seen.push(id.0);
        let mut rewritten = false;
        match K::wrap_mut(AstNodeRefMut::new(node.body_mut(), id)) {
            AstRefMut::LitExpr(mut lit) => lit.replace(|old| match old.lit {
                Lit::Int(value) => LitExpr { lit: Lit::Int(value * 10) },
                other => LitExpr { lit: other },
            }),
            AstRefMut::Statement(mut statement) => {
                if matches!(statement.body(), Statement::Text(_)) && id.0 == 5 {
                    statement.replace(|_| {
                        Statement::Var(Var { identifier: node_of(Name { data: 9 }, 77) })
                    });
                    rewritten = true;
                }
            }
            _ => {}
        }
        if !rewritten || self.descend_into_rewritten {
            walk_mut(self, node);
        }
    }
}

fn node_of<T>(body: T, id: u32) -> AstNode<T> {
    node(body, id)
}

#[test]
fn mutating_visitor_rewrites_nodes_in_place() {
    let mut root = sample();
    let mut rewrite = Rewrite { seen: vec![], descend_into_rewritten: false };
    rewrite.visit_mut(root.ast_ref_mut());
    assert_eq!(
        rewrite.seen,
        vec![1, 2, 2, 3, 5, 7, 7, 9, 10, 10, 11, 11, 12, 12, 13, 19, 21, 21, 29, 31, 31, 32, 40, 40]
    );
    let mut expected = sample();
    match expected.body.children.nodes[0].body.as_mut() {
        Statement::Block(block) => {
            block.children.nodes[0] =
                node(Statement::Var(Var { identifier: node(Name { data: 9 }, 77) }), 5);
            match block.children.nodes[1].body.as_mut() {
                Statement::If(branch) => match branch.clauses.nodes[0].body.condition.body.as_mut() {
                    Expr::Bin(bin) => {
                        bin.lhs = literal(10, 11);
                        bin.rhs = literal(20, 12);
                    }
                    _ => unreachable!(),
                },
                _ => unreachable!(),
            }
        }
        _ => unreachable!(),
    }
    assert_eq!(root, expected);
}

#[test]
fn mutating_visitor_walks_a_rewritten_node_only_on_demand() {
    let mut root = sample();
    let mut rewrite = Rewrite { seen: vec![], descend_into_rewritten: true };
    rewrite.visit_mut(root.ast_ref_mut());
    assert_eq!(
        rewrite.seen,
        vec![
            1, 2, 2, 3, 5, 5, 77, 7, 7, 9, 10, 10, 11, 11, 12, 12, 13, 19, 21, 21, 29, 31, 31,
            32, 40, 40
        ]
    );
}
