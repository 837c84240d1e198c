use vstd::prelude::*;
use crate::ast::{
    expr_model, expr_models, grammar_model, production_model, Atom, Expr, ExprModel, Grammar,
    Ident, Production, ProductionModel,
};
use crate::lexer::{
    lemma_offset_bound, lemma_scan_progress, lex_all, scan, skip_blank, tokenize, width_sum,
    LexicalError, Lexer, Scan, StreamStop, Token, TokenModel, TokenStream,
};

verus! {

/// Why a text could not be parsed.
#[derive(Clone, Debug, PartialEq)]
pub enum ParseError {
    /// The tokenizer found no token rule matching the text at this byte offset.
    Lexical { offset: usize },
    /// The token at this byte offset does not continue the grammar; `found` is that token,
    /// or `None` at the end of the text.
    Syntax { offset: usize, found: Option<Token> },
}

/// The mathematical shape of a parse failure.
pub enum FailureModel {
    Lexical(nat),
    Syntax(nat, Option<TokenModel>),
}

pub open spec fn failure_model(e: ParseError) -> FailureModel {
    match e {
        ParseError::Lexical { offset } => FailureModel::Lexical(offset as nat),
        ParseError::Syntax { offset, found } => FailureModel::Syntax(
            offset as nat,
            match found {
                Some(t) => Some(t@),
                None => None,
            },
        ),
    }
}

/// The token at index `p` of the stream, if there is one.
pub open spec fn tok_at(ts: TokenStream, p: int) -> Option<TokenModel> {
    if 0 <= p < ts.items.len() {
        Some(ts.items[p].1)
    } else {
        None
    }
}

/// The failure reported when the token at index `p` does not fit: past the last token that is
/// the end of the text, or the tokenizer's failure.
pub open spec fn fail_at(ts: TokenStream, p: int) -> FailureModel {
    if 0 <= p < ts.items.len() {
        FailureModel::Syntax(ts.items[p].0, Some(ts.items[p].1))
    } else {
        match ts.stop {
            StreamStop::End(o) => FailureModel::Syntax(o, None),
            StreamStop::Failed(o) => FailureModel::Lexical(o),
        }
    }
}

/// Tokens (and the end of the stream) at which a sequence of factors stops.
pub open spec fn ends_sequence(t: Option<TokenModel>) -> bool {
    t is None || t == Some(TokenModel::Pipe) || t == Some(TokenModel::RightParen) || t == Some(
        TokenModel::RightBracket,
    ) || t == Some(TokenModel::RightBrace) || t == Some(TokenModel::Period)
}

/// `open Expr close` at `p`: the inner expression and the index after `close`.
pub open spec fn parse_bracketed(ts: TokenStream, p: int, close: TokenModel) -> Result<
    (ExprModel, int),
    FailureModel,
>
    decreases ts.items.len() - p, 0nat,
{
    if 0 <= p < ts.items.len() {
        match parse_choice(ts, p + 1) {
            Ok((e, q)) => if tok_at(ts, q) == Some(close) {
                Ok((e, q + 1))
            } else {
                Err(fail_at(ts, q))
            },
            Err(f) => Err(f),
        }
    } else {
        Err(fail_at(ts, p))
    }
}

/// A factor at `p`: an atom, or a bracketed expression with its wrapper.
pub open spec fn parse_factor(ts: TokenStream, p: int) -> Result<(ExprModel, int), FailureModel>
    decreases ts.items.len() - p, 1nat,
{
    if 0 <= p < ts.items.len() {
        match ts.items[p].1 {
            TokenModel::String(s) => Ok((ExprModel::Terminal(s), p + 1)),
            TokenModel::EscapeSequence(s) => Ok((ExprModel::Terminal(s), p + 1)),
            TokenModel::Identifier(s) => Ok((ExprModel::NonTerminal(s), p + 1)),
            TokenModel::LeftBracket => match parse_bracketed(ts, p, TokenModel::RightBracket) {
                Ok((e, q)) => Ok((ExprModel::Optional(Box::new(e)), q)),
                Err(f) => Err(f),
            },
            TokenModel::LeftBrace => match parse_bracketed(ts, p, TokenModel::RightBrace) {
                Ok((e, q)) => Ok((ExprModel::Repeat(Box::new(e)), q)),
                Err(f) => Err(f),
            },
            TokenModel::LeftParen => match parse_bracketed(ts, p, TokenModel::RightParen) {
                Ok((e, q)) => Ok((ExprModel::Group(Box::new(e)), q)),
                Err(f) => Err(f),
            },
            _ => Err(fail_at(ts, p)),
        }
    } else {
        Err(fail_at(ts, p))
    }
}

/// Factors from `p` on, appended to `acc`, until a token that ends a sequence.
pub open spec fn parse_factors(ts: TokenStream, p: int, acc: Seq<ExprModel>) -> Result<
    (Seq<ExprModel>, int),
    FailureModel,
>
    decreases ts.items.len() - p, 2nat,
{
    match parse_factor(ts, p) {
        Ok((e, q)) => if p < q && !ends_sequence(tok_at(ts, q)) {
            parse_factors(ts, q, acc.push(e))
        } else {
            Ok((acc.push(e), q))
        },
        Err(f) => Err(f),
    }
}

/// A sequence of one factor is that factor; of more, a `Sequence` node.
pub open spec fn collapse_sequence(fs: Seq<ExprModel>) -> ExprModel {
    if fs.len() == 1 {
        fs[0]
    } else {
        ExprModel::Sequence(fs)
    }
}

/// A choice of one alternative is that alternative; of more, a `Choice` node.
pub open spec fn collapse_choice(alts: Seq<ExprModel>) -> ExprModel {
    if alts.len() == 1 {
        alts[0]
    } else {
        ExprModel::Choice(alts)
    }
}

/// The sequence level at `p`: juxtaposed factors.
pub open spec fn parse_sequence(ts: TokenStream, p: int) -> Result<(ExprModel, int), FailureModel>
    decreases ts.items.len() - p, 3nat,
{
    match parse_factors(ts, p, seq![]) {
        Ok((fs, q)) => Ok((collapse_sequence(fs), q)),
        Err(f) => Err(f),
    }
}

/// Alternatives from `p` on, appended to `acc`, separated by `|`.
pub open spec fn parse_alternatives(ts: TokenStream, p: int, acc: Seq<ExprModel>) -> Result<
    (Seq<ExprModel>, int),
    FailureModel,
>
    decreases ts.items.len() - p, 4nat,
{
    match parse_sequence(ts, p) {
        Ok((e, q)) => if p < q && tok_at(ts, q) == Some(TokenModel::Pipe) {
            parse_alternatives(ts, q + 1, acc.push(e))
        } else {
            Ok((acc.push(e), q))
        },
        Err(f) => Err(f),
    }
}

/// The choice level at `p`: a whole expression.
pub open spec fn parse_choice(ts: TokenStream, p: int) -> Result<(ExprModel, int), FailureModel>
    decreases ts.items.len() - p, 5nat,
{
    match parse_alternatives(ts, p, seq![]) {
        Ok((alts, q)) => Ok((collapse_choice(alts), q)),
        Err(f) => Err(f),
    }
}

/// Where the name of a production that starts at `p` stands: after its label, if it has one.
pub open spec fn name_index(ts: TokenStream, p: int) -> int {
    if tok_at(ts, p) matches Some(TokenModel::LineNumber(_)) {
        p + 1
    } else {
        p
    }
}

/// A production at `p`: `[LineNumber] Identifier '=' Expr '.'`.
pub open spec fn parse_production(ts: TokenStream, p: int) -> Result<
    (ProductionModel, int),
    FailureModel,
> {
    let index = match tok_at(ts, p) {
        Some(TokenModel::LineNumber(n)) => Some(n),
        _ => None,
    };
    let i = name_index(ts, p);
    match tok_at(ts, i) {
        Some(TokenModel::Identifier(name)) => if tok_at(ts, i + 1) == Some(TokenModel::Equal) {
            match parse_choice(ts, i + 2) {
                Ok((e, q)) => if tok_at(ts, q) == Some(TokenModel::Period) {
                    Ok((ProductionModel { index, lhs: name, rhs: e }, q + 1))
                } else {
                    Err(fail_at(ts, q))
                },
                Err(f) => Err(f),
            }
        } else {
            Err(fail_at(ts, i + 1))
        },
        _ => Err(fail_at(ts, i)),
    }
}

/// Productions from `p` to the end of the stream, appended to `acc`.
pub open spec fn parse_productions(ts: TokenStream, p: int, acc: Seq<ProductionModel>) -> Result<
    Seq<ProductionModel>,
    FailureModel,
>
    decreases ts.items.len() - p,
{
    if p < 0 || p >= ts.items.len() {
        match ts.stop {
            StreamStop::End(_) => Ok(acc),
            StreamStop::Failed(o) => Err(FailureModel::Lexical(o)),
        }
    } else {
        match parse_production(ts, p) {
            Ok((pr, q)) => if p < q {
                parse_productions(ts, q, acc.push(pr))
            } else {
                Ok(acc)
            },
            Err(f) => Err(f),
        }
    }
}

/// The grammar that a whole token stream describes.
pub open spec fn parse_grammar(ts: TokenStream) -> Result<Seq<ProductionModel>, FailureModel> {
    parse_productions(ts, 0, seq![])
}

/// How the collected token stream ends.
enum StreamEnd {
    End(usize),
    Failed(usize),
}

/// All tokens of a text, collected from a tokenizer, with how the stream ended.
struct Tokens {
    items: Vec<(usize, Token, usize)>,
    stop: StreamEnd,
}

pub open spec fn item_model(x: (usize, Token, usize)) -> (nat, TokenModel, nat) {
    (x.0 as nat, x.1@, x.2 as nat)
}

/// What a parsing step gives back agrees with its model.
pub open spec fn agrees(
    r: Result<(Expr, usize), ParseError>,
    m: Result<(ExprModel, int), FailureModel>,
) -> bool {
    match m {
        Ok((e, q)) => r matches Ok((x, y)) && expr_model(x) == e && y == q,
        Err(f) => r matches Err(x) && failure_model(x) == f,
    }
}

/// A successful step consumes at least one token and stays within the stream.
pub open spec fn advances<T>(m: Result<(T, int), FailureModel>, p: int, len: int) -> bool {
    m matches Ok((_, q)) ==> p < q <= len
}

/// What a parse of a whole grammar gives back agrees with its model.
pub open spec fn agrees_grammar(
    r: Result<Grammar, ParseError>,
    m: Result<Seq<ProductionModel>, FailureModel>,
) -> bool {
    match m {
        Ok(ps) => r matches Ok(g) && grammar_model(g) == ps,
        Err(f) => r matches Err(x) && failure_model(x) == f,
    }
}

/// The tokens that a tokenizer has still to give, and how its stream ends.
pub open spec fn pending(lx: Lexer) -> TokenStream {
    if lx.is_finished() {
        TokenStream { items: seq![], stop: StreamStop::End(width_sum(lx.text())) }
    } else {
        lex_all(lx.text(), lx.position())
    }
}

fn copy_token(t: &Token) -> (r: Token)
    ensures
        r@ == t@,
{
    match t {
        Token::Equal => Token::Equal,
        Token::Period => Token::Period,
        Token::Pipe => Token::Pipe,
        Token::LeftBrace => Token::LeftBrace,
        Token::RightBrace => Token::RightBrace,
        Token::LeftBracket => Token::LeftBracket,
        Token::RightBracket => Token::RightBracket,
        Token::LeftParen => Token::LeftParen,
        Token::RightParen => Token::RightParen,
        Token::LineNumber(n) => Token::LineNumber(*n),
        Token::String(s) => Token::String(s.clone()),
        Token::Identifier(s) => Token::Identifier(s.clone()),
        Token::EscapeSequence(s) => Token::EscapeSequence(s.clone()),
    }
}

fn ends_sequence_token(t: &Token) -> (b: bool)
    ensures
        b == ends_sequence(Some(t@)),
{
    match t {
        Token::Pipe => true,
        Token::RightParen => true,
        Token::RightBracket => true,
        Token::RightBrace => true,
        Token::Period => true,
        _ => false,
    }
}

fn closes(t: &Token, close: &Token) -> (b: bool)
    requires
        close@ == TokenModel::RightBracket || close@ == TokenModel::RightBrace || close@
            == TokenModel::RightParen,
    ensures
        b == (t@ == close@),
{
    match close {
        Token::RightBracket => match t {
            Token::RightBracket => true,
            _ => false,
        },
        Token::RightBrace => match t {
            Token::RightBrace => true,
            _ => false,
        },
        _ => match t {
            Token::RightParen => true,
            _ => false,
        },
    }
}

impl Tokens {
    spec fn model(&self) -> TokenStream {
        TokenStream {
            items: self.items@.map_values(|x: (usize, Token, usize)| item_model(x)),
            stop: match self.stop {
                StreamEnd::End(o) => StreamStop::End(o as nat),
                StreamEnd::Failed(o) => StreamStop::Failed(o as nat),
            },
        }
    }

    fn fail_at(&self, p: usize) -> (r: ParseError)
        ensures
            failure_model(r) == fail_at(self.model(), p as int),
    {
        if p < self.items.len() {
            let found = copy_token(&self.items[p].1);
            ParseError::Syntax { offset: self.items[p].0, found: Some(found) }
        } else {
            match self.stop {
                StreamEnd::End(o) => ParseError::Syntax { offset: o, found: None },
                StreamEnd::Failed(o) => ParseError::Lexical { offset: o },
            }
        }
    }

    fn bracketed(&self, p: usize, close: Token) -> (r: Result<(Expr, usize), ParseError>)
        requires
            p < self.items@.len(),
            close@ == TokenModel::RightBracket || close@ == TokenModel::RightBrace || close@
                == TokenModel::RightParen,
        ensures
            agrees(r, parse_bracketed(self.model(), p as int, close@)),
            advances(
                parse_bracketed(self.model(), p as int, close@),
                p as int,
                self.items@.len() as int,
            ),
        decreases self.items@.len() - p, 0nat,
    {
        let _n = self.items.len();
        match self.choice(p + 1) {
            Ok((e, q)) => {
                if q < self.items.len() && closes(&self.items[q].1, &close) {
                    Ok((e, q + 1))
                } else {
                    Err(self.fail_at(q))
                }
            },
            Err(f) => Err(f),
        }
    }

    fn factor(&self, p: usize) -> (r: Result<(Expr, usize), ParseError>)
        requires
            p <= self.items@.len(),
        ensures
            agrees(r, parse_factor(self.model(), p as int)),
            advances(parse_factor(self.model(), p as int), p as int, self.items@.len() as int),
        decreases self.items@.len() - p, 1nat,
    {
        if p >= self.items.len() {
            return Err(self.fail_at(p));
        }
        match &self.items[p].1 {
            Token::String(s) => Ok((Expr::Atom(Atom::Terminal(s.clone())), p + 1)),
            Token::EscapeSequence(s) => Ok((Expr::Atom(Atom::Terminal(s.clone())), p + 1)),
            Token::Identifier(s) => Ok((Expr::Atom(Atom::NonTerminal(Ident(s.clone()))), p + 1)),
            Token::LeftBracket => match self.bracketed(p, Token::RightBracket) {
                Ok((e, q)) => Ok((Expr::Optional(Box::new(e)), q)),
                Err(f) => Err(f),
            },
            Token::LeftBrace => match self.bracketed(p, Token::RightBrace) {
                Ok((e, q)) => Ok((Expr::Repeat(Box::new(e)), q)),
                Err(f) => Err(f),
            },
            Token::LeftParen => match self.bracketed(p, Token::RightParen) {
                Ok((e, q)) => Ok((Expr::Group(Box::new(e)), q)),
                Err(f) => Err(f),
            },
            _ => Err(self.fail_at(p)),
        }
    }

    fn sequence(&self, p: usize) -> (r: Result<(Expr, usize), ParseError>)
        requires
            p <= self.items@.len(),
        ensures
            agrees(r, parse_sequence(self.model(), p as int)),
            advances(parse_sequence(self.model(), p as int), p as int, self.items@.len() as int),
        decreases self.items@.len() - p, 3nat,
    {
        let ghost ts = self.model();
        let mut factors: Vec<Expr> = Vec::new();
        let mut cur = p;
        proof {
            assert(expr_models(factors@) =~= Seq::<ExprModel>::empty());
        }
        loop
            invariant
                p <= cur <= self.items@.len(),
                ts == self.model(),
                parse_factors(ts, p as int, seq![]) == parse_factors(
                    ts,
                    cur as int,
                    expr_models(factors@),
                ),
                factors@.len() == 0 <==> cur == p,
            decreases self.items@.len() - cur,
        {
            match self.factor(cur) {
                Err(f) => {
                    return Err(f);
                },
                Ok((e, q)) => {
                    let ghost before = factors@;
                    factors.push(e);
                    proof {
                        assert(expr_models(factors@) =~= expr_models(before).push(expr_model(e)));
                    }
                    if q < self.items.len() && !ends_sequence_token(&self.items[q].1) {
                        cur = q;
                    } else {
                        return Ok((collapse_sequence_exec(factors), q));
                    }
                },
            }
        }
    }

    fn choice(&self, p: usize) -> (r: Result<(Expr, usize), ParseError>)
        requires
            p <= self.items@.len(),
        ensures
            agrees(r, parse_choice(self.model(), p as int)),
            advances(parse_choice(self.model(), p as int), p as int, self.items@.len() as int),
        decreases self.items@.len() - p, 5nat,
    {
        let ghost ts = self.model();
        let mut alts: Vec<Expr> = Vec::new();
        let mut cur = p;
        proof {
            assert(expr_models(alts@) =~= Seq::<ExprModel>::empty());
        }
        loop
            invariant
                p <= cur <= self.items@.len(),
                ts == self.model(),
                parse_alternatives(ts, p as int, seq![]) == parse_alternatives(
                    ts,
                    cur as int,
                    expr_models(alts@),
                ),
                alts@.len() == 0 <==> cur == p,
            decreases self.items@.len() - cur,
        {
            match self.sequence(cur) {
                Err(f) => {
                    return Err(f);
                },
                Ok((e, q)) => {
                    let ghost before = alts@;
                    alts.push(e);
                    proof {
                        assert(expr_models(alts@) =~= expr_models(before).push(expr_model(e)));
                    }
                    if q < self.items.len() && is_pipe(&self.items[q].1) {
                        cur = q + 1;
                    } else {
                        return Ok((collapse_choice_exec(alts), q));
                    }
                },
            }
        }
    }
}

fn is_pipe(t: &Token) -> (b: bool)
    ensures
        b == (t@ == TokenModel::Pipe),
{
    match t {
        Token::Pipe => true,
        _ => false,
    }
}

fn collapse_sequence_exec(v: Vec<Expr>) -> (r: Expr)
    requires
        v@.len() >= 1,
    ensures
        expr_model(r) == collapse_sequence(expr_models(v@)),
{
    let mut v = v;
    if v.len() == 1 {
        match v.pop() {
            Some(e) => e,
            None => Expr::Sequence(v),
        }
    } else {
        let ghost m = expr_models(v@);
        let r = Expr::Sequence(v);
        proof {
            assert(expr_model(r)->Sequence_0 =~= m);
        }
        r
    }
}

fn collapse_choice_exec(v: Vec<Expr>) -> (r: Expr)
    requires
        v@.len() >= 1,
    ensures
        expr_model(r) == collapse_choice(expr_models(v@)),
{
    let mut v = v;
    if v.len() == 1 {
        match v.pop() {
            Some(e) => e,
            None => Expr::Choice(v),
        }
    } else {
        let ghost m = expr_models(v@);
        let r = Expr::Choice(v);
        proof {
            assert(expr_model(r)->Choice_0 =~= m);
        }
        r
    }
}

/// What a production step gives back agrees with its model.
pub open spec fn agrees_production(
    r: Result<(Production, usize), ParseError>,
    m: Result<(ProductionModel, int), FailureModel>,
) -> bool {
    match m {
        Ok((pm, q)) => r matches Ok((x, y)) && production_model(x) == pm && y == q,
        Err(f) => r matches Err(x) && failure_model(x) == f,
    }
}

fn is_equal_sign(t: &Token) -> (b: bool)
    ensures
        b == (t@ == TokenModel::Equal),
{
    match t {
        Token::Equal => true,
        _ => false,
    }
}

fn is_period(t: &Token) -> (b: bool)
    ensures
        b == (t@ == TokenModel::Period),
{
    match t {
        Token::Period => true,
        _ => false,
    }
}

impl Tokens {
    fn production(&self, p: usize) -> (r: Result<(Production, usize), ParseError>)
        requires
            p < self.items@.len(),
        ensures
            agrees_production(r, parse_production(self.model(), p as int)),
            advances(parse_production(self.model(), p as int), p as int, self.items@.len() as int),
    {
        let n = self.items.len();
        let mut index: Option<u32> = None;
        let mut i = p;
        match &self.items[p].1 {
            Token::LineNumber(v) => {
                index = Some(*v);
                i = p + 1;
            },
            _ => {},
        }
        if i >= n {
            return Err(self.fail_at(i));
        }
        let name = match &self.items[i].1 {
            Token::Identifier(s) => s.clone(),
            _ => {
                return Err(self.fail_at(i));
            },
        };
        if i + 1 >= n || !is_equal_sign(&self.items[i + 1].1) {
            return Err(self.fail_at(i + 1));
        }
        match self.choice(i + 2) {
            Ok((e, q)) => {
                if q < n && is_period(&self.items[q].1) {
                    Ok((Production { index, lhs: Ident(name), rhs: e }, q + 1))
                } else {
                    Err(self.fail_at(q))
                }
            },
            Err(f) => Err(f),
        }
    }

    fn grammar(&self) -> (r: Result<Grammar, ParseError>)
        ensures
            agrees_grammar(r, parse_grammar(self.model())),
    {
        let ghost ts = self.model();
        let mut productions: Vec<Production> = Vec::new();
        let mut p: usize = 0;
        proof {
            assert(productions@.map_values(|x: Production| production_model(x)) =~= Seq::<
                ProductionModel,
            >::empty());
        }
        loop
            invariant
                p <= self.items@.len(),
                ts == self.model(),
                parse_grammar(ts) == parse_productions(
                    ts,
                    p as int,
                    productions@.map_values(|x: Production| production_model(x)),
                ),
            decreases self.items@.len() - p,
        {
            if p >= self.items.len() {
                return match self.stop {
                    StreamEnd::End(_) => Ok(Grammar { productions }),
                    StreamEnd::Failed(o) => Err(ParseError::Lexical { offset: o }),
                };
            }
            match self.production(p) {
                Err(f) => {
                    return Err(f);
                },
                Ok((pr, q)) => {
                    let ghost before = productions@;
                    productions.push(pr);
                    proof {
                        assert(productions@.map_values(|x: Production| production_model(x))
                            =~= before.map_values(|x: Production| production_model(x)).push(
                            production_model(pr),
                        ));
                    }
                    p = q;
                },
            }
        }
    }
}

/// Pulls every token out of `lexer`, up to the end of its text or its failure.
fn collect_tokens(lexer: Lexer) -> (r: Tokens)
    requires
        lexer.wf(),
    ensures
        r.model() == pending(lexer),
{
    let mut lx = lexer;
    let ghost s = lx.text();
    let mut items: Vec<(usize, Token, usize)> = Vec::new();
    proof {
        lx.lemma_position();
        assert(items@.map_values(|x: (usize, Token, usize)| item_model(x)) + pending(lx).items
            =~= pending(lx).items);
    }
    loop
        invariant
            lx.wf(),
            lx.text() == s,
            0 <= lx.position() <= s.len(),
            pending(lexer) == (TokenStream {
                items: items@.map_values(|x: (usize, Token, usize)| item_model(x)) + pending(
                    lx,
                ).items,
                stop: pending(lx).stop,
            }),
        decreases s.len() - lx.position(),
    {
        let ghost old_lx = lx;
        proof {
            lemma_scan_progress(s, lx.position());
        }
        let got = lx.next();
        proof {
            lx.lemma_position();
        }
        match got {
            None => {
                let end = lx.end_offset();
                let r = Tokens { items, stop: StreamEnd::End(end) };
                proof {
                    assert(r.model().items =~= r.model().items + pending(old_lx).items);
                }
                return r;
            },
            Some(Err(e)) => {
                let offset = match e {
                    LexicalError::InvalidToken { offset } => offset,
                };
                let r = Tokens { items, stop: StreamEnd::Failed(offset) };
                proof {
                    if let Scan::Fail(a) = scan(s, old_lx.position()) {
                        lemma_offset_bound(s, a);
                    }
                    assert(r.model().items =~= r.model().items + pending(old_lx).items);
                }
                return r;
            },
            Some(Ok(x)) => {
                let ghost before = items@;
                items.push(x);
                proof {
                    assert(items@.map_values(|x: (usize, Token, usize)| item_model(x)) + pending(
                        lx,
                    ).items =~= before.map_values(|x: (usize, Token, usize)| item_model(x))
                        + pending(old_lx).items);
                }
            },
        }
    }
}

/// Parser of a whole grammar text, fed by a [`Lexer`].
pub struct GrammarParser {}

impl GrammarParser {
    pub fn new() -> Self {
        GrammarParser {  }
    }

    /// Parses every token that `lexer` has still to give. The result is the grammar that the
    /// token stream describes, or the first failure met: a lexical failure where the parser
    /// reaches the point at which the tokenizer failed, a syntax failure where a token does not
    /// fit.
    pub fn parse(&self, lexer: Lexer) -> (r: Result<Grammar, ParseError>)
        requires
            lexer.wf(),
        ensures
            agrees_grammar(r, parse_grammar(pending(lexer))),
    {
        let tokens = collect_tokens(lexer);
        tokens.grammar()
    }
}

/// Parses a whole grammar text.
pub fn parse_text(source: &str) -> (r: Result<Grammar, ParseError>)
    ensures
        agrees_grammar(r, parse_grammar(tokenize(source@))),
{
    let lexer = Lexer::new(source);
    let parser = GrammarParser::new();
    parser.parse(lexer)
}

/// The shape every parsed expression has: a choice or a sequence has at least two members,
/// the members of a choice are no choices, and the members of a sequence are neither choices
/// nor sequences (a bracketed form is needed to nest them); this holds at every depth.
pub open spec fn well_shaped(e: ExprModel) -> bool
    decreases e,
{
    match e {
        ExprModel::Choice(v) => v.len() >= 2 && forall|i: int|
            #![trigger v[i]]
            0 <= i < v.len() ==> !(v[i] is Choice) && well_shaped(v[i]),
        ExprModel::Sequence(v) => v.len() >= 2 && forall|i: int|
            #![trigger v[i]]
            0 <= i < v.len() ==> !(v[i] is Choice) && !(v[i] is Sequence) && well_shaped(v[i]),
        ExprModel::Optional(b) => well_shaped(*b),
        ExprModel::Repeat(b) => well_shaped(*b),
        ExprModel::Group(b) => well_shaped(*b),
        ExprModel::Terminal(_) => true,
        ExprModel::NonTerminal(_) => true,
    }
}

/// A member of a sequence: well shaped, and neither a choice nor a sequence.
pub open spec fn factor_shaped(e: ExprModel) -> bool {
    well_shaped(e) && !(e is Choice) && !(e is Sequence)
}

/// A member of a choice: well shaped, and no choice.
pub open spec fn alternative_shaped(e: ExprModel) -> bool {
    well_shaped(e) && !(e is Choice)
}

proof fn lemma_bracketed_shape(ts: TokenStream, p: int, close: TokenModel)
    ensures
        parse_bracketed(ts, p, close) matches Ok((e, q)) ==> well_shaped(e),
    decreases ts.items.len() - p, 0nat,
{
    if 0 <= p < ts.items.len() {
        lemma_choice_shape(ts, p + 1);
    }
}

proof fn lemma_factor_shape(ts: TokenStream, p: int)
    ensures
        parse_factor(ts, p) matches Ok((e, q)) ==> factor_shaped(e),
    decreases ts.items.len() - p, 1nat,
{
    if 0 <= p < ts.items.len() {
        lemma_bracketed_shape(ts, p, TokenModel::RightBracket);
        lemma_bracketed_shape(ts, p, TokenModel::RightBrace);
        lemma_bracketed_shape(ts, p, TokenModel::RightParen);
    }
}

proof fn lemma_factors_shape(ts: TokenStream, p: int, acc: Seq<ExprModel>)
    requires
        forall|i: int| #![trigger acc[i]] 0 <= i < acc.len() ==> factor_shaped(acc[i]),
    ensures
        parse_factors(ts, p, acc) matches Ok((fs, q)) ==> {
            &&& fs.len() > acc.len()
            &&& forall|i: int| #![trigger fs[i]] 0 <= i < fs.len() ==> factor_shaped(fs[i])
        },
    decreases ts.items.len() - p, 2nat,
{
    lemma_factor_shape(ts, p);
    if let Ok((e, q)) = parse_factor(ts, p) {
        let next = acc.push(e);
        assert forall|i: int| #![trigger next[i]] 0 <= i < next.len() implies factor_shaped(
            next[i],
        ) by {
            if i < acc.len() {
                assert(next[i] == acc[i]);
            }
        }
        if p < q && !ends_sequence(tok_at(ts, q)) {
            lemma_factors_shape(ts, q, next);
        }
    }
}

proof fn lemma_sequence_shape(ts: TokenStream, p: int)
    ensures
        parse_sequence(ts, p) matches Ok((e, q)) ==> alternative_shaped(e),
    decreases ts.items.len() - p, 3nat,
{
    lemma_factors_shape(ts, p, seq![]);
    if let Ok((fs, q)) = parse_factors(ts, p, seq![]) {
        if fs.len() == 1 {
            assert(factor_shaped(fs[0]));
        }
    }
}

proof fn lemma_alternatives_shape(ts: TokenStream, p: int, acc: Seq<ExprModel>)
    requires
        forall|i: int| #![trigger acc[i]] 0 <= i < acc.len() ==> alternative_shaped(acc[i]),
    ensures
        parse_alternatives(ts, p, acc) matches Ok((alts, q)) ==> {
            &&& alts.len() > acc.len()
            &&& forall|i: int|
                #![trigger alts[i]]
                0 <= i < alts.len() ==> alternative_shaped(alts[i])
        },
    decreases ts.items.len() - p, 4nat,
{
    lemma_sequence_shape(ts, p);
    if let Ok((e, q)) = parse_sequence(ts, p) {
        let next = acc.push(e);
        assert forall|i: int| #![trigger next[i]] 0 <= i < next.len() implies alternative_shaped(
            next[i],
        ) by {
            if i < acc.len() {
                assert(next[i] == acc[i]);
            }
        }
        if p < q && tok_at(ts, q) == Some(TokenModel::Pipe) {
            lemma_alternatives_shape(ts, q + 1, next);
        }
    }
}

proof fn lemma_choice_shape(ts: TokenStream, p: int)
    ensures
        parse_choice(ts, p) matches Ok((e, q)) ==> well_shaped(e),
    decreases ts.items.len() - p, 5nat,
{
    lemma_alternatives_shape(ts, p, seq![]);
    if let Ok((alts, q)) = parse_alternatives(ts, p, seq![]) {
        if alts.len() == 1 {
            assert(alternative_shaped(alts[0]));
        }
    }
}

proof fn lemma_productions_shape(ts: TokenStream, p: int, acc: Seq<ProductionModel>)
    requires
        forall|i: int| #![trigger acc[i]] 0 <= i < acc.len() ==> well_shaped(acc[i].rhs),
    ensures
        parse_productions(ts, p, acc) matches Ok(ps) ==> forall|i: int|
            #![trigger ps[i]]
            0 <= i < ps.len() ==> well_shaped(ps[i].rhs),
    decreases ts.items.len() - p,
{
    if 0 <= p < ts.items.len() {
        lemma_choice_shape(ts, name_index(ts, p) + 2);
        if let Ok((pr, q)) = parse_production(ts, p) {
            let next = acc.push(pr);
            assert forall|i: int| #![trigger next[i]] 0 <= i < next.len() implies well_shaped(
                next[i].rhs,
            ) by {
                if i < acc.len() {
                    assert(next[i] == acc[i]);
                }
            }
            if p < q {
                lemma_productions_shape(ts, q, next);
            }
        }
    }
}

/// Every right-hand side of a parsed grammar is well shaped: a sequence of one factor and a
/// choice of one alternative are never wrapped, at any depth, and juxtaposition binds tighter
/// than `|` (no choice stands directly inside a sequence).
pub proof fn lemma_parsed_grammar_is_well_shaped(ts: TokenStream)
    ensures
        parse_grammar(ts) matches Ok(ps) ==> forall|i: int| #![trigger ps[i]]
            0 <= i < ps.len() ==> well_shaped(ps[i].rhs),
{
    lemma_productions_shape(ts, 0, seq![]);
}

/// Text holding nothing but blanks and comments parses to a grammar without productions.
pub proof fn lemma_blank_text_has_no_productions(s: Seq<char>)
    requires
        skip_blank(s, 0) == s.len(),
    ensures
        parse_grammar(tokenize(s)) == Ok::<Seq<ProductionModel>, FailureModel>(seq![]),
{
}

/// `[ .. ]`, `{ .. }` and `( .. )` always give their wrapper node around the inner expression,
/// even where that expression is a single atom.
pub proof fn lemma_brackets_always_wrap(ts: TokenStream, p: int)
    requires
        0 <= p < ts.items.len(),
    ensures
        ts.items[p].1 == TokenModel::LeftBracket ==> (parse_factor(ts, p) matches Ok((e, q))
            ==> e == ExprModel::Optional(Box::new(parse_choice(ts, p + 1)->Ok_0.0))),
        ts.items[p].1 == TokenModel::LeftBrace ==> (parse_factor(ts, p) matches Ok((e, q)) ==> e
            == ExprModel::Repeat(Box::new(parse_choice(ts, p + 1)->Ok_0.0))),
        ts.items[p].1 == TokenModel::LeftParen ==> (parse_factor(ts, p) matches Ok((e, q)) ==> e
            == ExprModel::Group(Box::new(parse_choice(ts, p + 1)->Ok_0.0))),
{
}

/// A production whose expression is followed by anything but `.` is never accepted: the parse
/// fails at the token after the expression, and that failure is a syntax failure unless the
/// tokenizer itself failed there.
pub proof fn lemma_missing_period_fails(ts: TokenStream, p: int)
    requires
        0 <= p < ts.items.len(),
        tok_at(ts, name_index(ts, p)) matches Some(TokenModel::Identifier(_)),
        tok_at(ts, name_index(ts, p) + 1) == Some(TokenModel::Equal),
        parse_choice(ts, name_index(ts, p) + 2) is Ok,
        tok_at(ts, parse_choice(ts, name_index(ts, p) + 2)->Ok_0.1) != Some(TokenModel::Period),
    ensures
        ({
            let f = fail_at(ts, parse_choice(ts, name_index(ts, p) + 2)->Ok_0.1);
            &&& parse_production(ts, p) == Err::<(ProductionModel, int), FailureModel>(f)
            &&& parse_productions(ts, p, seq![]) == Err::<Seq<ProductionModel>, FailureModel>(f)
            &&& ts.stop is End ==> f is Syntax
        }),
{
}

} // verus!
