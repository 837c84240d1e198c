use vstd::prelude::*;

verus! {

/// A whole grammar file: its productions in source order.
#[derive(Debug, PartialEq)]
pub struct Grammar {
    pub productions: Vec<Production>,
}

/// One rule such as `125 digits = digit { digit } .`
#[derive(Debug, PartialEq)]
pub struct Production {
    /// Optional numeric label at the start of the rule.
    pub index: Option<u32>,
    /// Left-hand side non-terminal.
    pub lhs: Ident,
    /// Right-hand side tree.
    pub rhs: Expr,
}

/// Anything on the right-hand side of a rule.
#[derive(Debug, PartialEq)]
pub enum Expr {
    /// `a | b | c`
    Choice(Vec<Expr>),
    /// `a b c`
    Sequence(Vec<Expr>),
    /// `[ a ]`, zero or one
    Optional(Box<Expr>),
    /// `{ a }`, zero or more
    Repeat(Box<Expr>),
    /// `( a )`, kept in the tree although it only groups
    Group(Box<Expr>),
    /// a leaf symbol
    Atom(Atom),
}

/// Leaf symbols.
#[derive(Clone, Debug, PartialEq)]
pub enum Atom {
    /// `'abs'`, `'0'`, `\xA`, ...
    Terminal(String),
    /// `digit`, `width_spec`, ...
    NonTerminal(Ident),
}

/// An identifier.
#[derive(Clone, Debug, PartialEq, Eq, Hash)]
pub struct Ident(pub String);

/// The mathematical shape of an expression tree.
pub enum ExprModel {
    Choice(Seq<ExprModel>),
    Sequence(Seq<ExprModel>),
    Optional(Box<ExprModel>),
    Repeat(Box<ExprModel>),
    Group(Box<ExprModel>),
    Terminal(Seq<char>),
    NonTerminal(Seq<char>),
}

/// The mathematical shape of a production.
pub struct ProductionModel {
    pub index: Option<u32>,
    pub lhs: Seq<char>,
    pub rhs: ExprModel,
}

pub open spec fn expr_model(e: Expr) -> ExprModel
    decreases e,
{
    match e {
        Expr::Choice(v) => ExprModel::Choice(
            Seq::new(
                v@.len(),
                |i: int|
                    if 0 <= i < v@.len() {
                        expr_model(v@[i])
                    } else {
                        ExprModel::Terminal(seq![])
                    },
            ),
        ),
        Expr::Sequence(v) => ExprModel::Sequence(
            Seq::new(
                v@.len(),
                |i: int|
                    if 0 <= i < v@.len() {
                        expr_model(v@[i])
                    } else {
                        ExprModel::Terminal(seq![])
                    },
            ),
        ),
        Expr::Optional(b) => ExprModel::Optional(Box::new(expr_model(*b))),
        Expr::Repeat(b) => ExprModel::Repeat(Box::new(expr_model(*b))),
        Expr::Group(b) => ExprModel::Group(Box::new(expr_model(*b))),
        Expr::Atom(Atom::Terminal(s)) => ExprModel::Terminal(s@),
        Expr::Atom(Atom::NonTerminal(id)) => ExprModel::NonTerminal(id.0@),
    }
}

pub open spec fn production_model(p: Production) -> ProductionModel {
    ProductionModel { index: p.index, lhs: p.lhs.0@, rhs: expr_model(p.rhs) }
}

pub open spec fn grammar_model(g: Grammar) -> Seq<ProductionModel> {
    g.productions@.map_values(|p: Production| production_model(p))
}

/// The models of a list of expressions, in order.
pub open spec fn expr_models(v: Seq<Expr>) -> Seq<ExprModel> {
    v.map_values(|e: Expr| expr_model(e))
}

} // verus!
