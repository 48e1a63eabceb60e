//! An early front end kept alongside the compiler: an LL(1) parser over a
//! token stream that recognises one binary operation per statement, in
//! the form `NUMBER OPERATOR NUMBER ;`.

use vstd::prelude::*;

verus! {

/// Token classes of this front end; numbers carry their value.
#[derive(Clone, Copy, Debug, PartialEq, Eq, Structural)]
pub enum TokenKind {
    Plus,
    Minus,
    Semicolon,
    OpenParen,
    CloseParen,
    OpenBrace,
    CloseBrace,
    Number(i32),
    Unknown,
    Whitespace,
    Newline,
    Eof,
}

/// One token with its source position.
#[derive(Clone, Copy, Debug, PartialEq, Eq, Structural)]
pub struct Token {
    pub kind: TokenKind,
    pub line_no: u32,
    pub col_no: u32,
}

/// The operators of the expression grammar.
#[derive(Clone, Copy, Debug, PartialEq, Eq, Structural)]
pub enum ExprKind {
    Add,
    Sub,
    Mult,
    Div,
}

/// A general expression tree node, kept for the fuller grammar.
#[derive(Debug)]
pub struct Expr {
    pub value: ExprKind,
    pub left: Option<Box<Expr>>,
    pub right: Option<Box<Expr>>,
}

/// An integer constant operand.
#[derive(Clone, Copy, Debug, PartialEq, Eq, Structural)]
pub struct Constant {
    pub value: i32,
}

impl Constant {
    pub fn new(value: i32) -> (c: Constant)
        ensures
            c == (Constant { value }),
    {
        Constant { value }
    }
}

/// A binary operation over two constants.
#[derive(Clone, Copy, Debug, PartialEq, Eq, Structural)]
pub struct BinOp {
    pub value: ExprKind,
    pub left: Constant,
    pub right: Constant,
}

impl BinOp {
    pub fn new(value: ExprKind, left: Constant, right: Constant) -> (b: BinOp)
        ensures
            b == (BinOp { value, left, right }),
    {
        BinOp { value, left, right }
    }
}

/// Why a statement was refused, with the line it happened on.
#[derive(Clone, Copy, Debug, PartialEq, Eq, Structural)]
pub enum StatementError {
    ExpectedNumber { line: u32 },
    ExpectedOperator { line: u32 },
    ExpectedSemicolon { line: u32 },
    UnexpectedEnd,
}

/// The first position at or after `i` holding a non-whitespace token.
pub open spec fn next_non_ws(toks: Seq<Token>, i: int) -> int
    decreases toks.len() - i,
{
    if 0 <= i < toks.len() && toks[i].kind is Whitespace {
        next_non_ws(toks, i + 1)
    } else {
        i
    }
}

/// The next non-whitespace token and the position after it, if any.
pub open spec fn sp_take(toks: Seq<Token>, i: int) -> Option<(int, Token)> {
    let j = next_non_ws(toks, i);
    if 0 <= j < toks.len() {
        Some((j + 1, toks[j]))
    } else {
        None
    }
}

/// What parsing one statement from position `i` yields: the parsed
/// operation and the position after the `;`, or the exact diagnostic.
pub open spec fn sp_statement(toks: Seq<Token>, i: int) -> Result<(int, BinOp), StatementError> {
    match sp_take(toks, i) {
        None => Err(StatementError::UnexpectedEnd),
        Some((i1, t1)) => match t1.kind {
            TokenKind::Number(a) => match sp_take(toks, i1) {
                None => Err(StatementError::UnexpectedEnd),
                Some((i2, t2)) => {
                    let op: Option<ExprKind> = match t2.kind {
                        TokenKind::Plus => Some(ExprKind::Add),
                        TokenKind::Minus => Some(ExprKind::Sub),
                        _ => None,
                    };
                    match op {
                        None => Err(StatementError::ExpectedOperator { line: t2.line_no }),
                        Some(op2) => match sp_take(toks, i2) {
                            None => Err(StatementError::UnexpectedEnd),
                            Some((i3, t3)) => match t3.kind {
                                TokenKind::Number(b) => match sp_take(toks, i3) {
                                    None => Err(StatementError::UnexpectedEnd),
                                    Some((i4, t4)) => {
                                        if t4.kind is Semicolon {
                                            Ok(
                                                (
                                                    i4,
                                                    BinOp {
                                                        value: op2,
                                                        left: Constant { value: a },
                                                        right: Constant { value: b },
                                                    },
                                                ),
                                            )
                                        } else {
                                            Err(
                                                StatementError::ExpectedSemicolon {
                                                    line: t4.line_no,
                                                },
                                            )
                                        }
                                    },
                                },
                                _ => Err(StatementError::ExpectedNumber { line: t3.line_no }),
                            },
                        },
                    }
                },
            },
            _ => Err(StatementError::ExpectedNumber { line: t1.line_no }),
        },
    }
}

/// The LL(1) parser state: the tokens and a cursor into them.
pub struct Parser {
    pub tokens: Vec<Token>,
    pub current: usize,
}

impl Parser {
    pub fn new(tokens: Vec<Token>) -> (p: Parser)
        ensures
            p.tokens == tokens,
            p.current == 0,
    {
        Parser { tokens, current: 0 }
    }

    /// Advance to the next token, if one is left.
    pub fn bump(&mut self) -> (r: Option<Token>)
        ensures
            final(self).tokens == old(self).tokens,
            match r {
                Some(t) => {
                    &&& old(self).current < old(self).tokens@.len()
                    &&& t == old(self).tokens@[old(self).current as int]
                    &&& final(self).current == old(self).current + 1
                },
                None => {
                    &&& old(self).current >= old(self).tokens@.len()
                    &&& final(self).current == old(self).current
                },
            },
    {
        if self.current < self.tokens.len() {
            let token = self.tokens[self.current];
            self.current = self.current + 1;
            Some(token)
        } else {
            None
        }
    }

    /// Advance to the next token, skipping whitespace.
    #[verifier::loop_isolation(false)]
    pub fn bump_no_whitespace(&mut self) -> (r: Option<Token>)
        ensures
            final(self).tokens == old(self).tokens,
            match r {
                Some(t) => {
                    &&& sp_take(old(self).tokens@, old(self).current as int) == Some(
                        (final(self).current as int, t),
                    )
                    &&& final(self).current <= old(self).tokens@.len()
                },
                None => sp_take(old(self).tokens@, old(self).current as int) is None,
            },
    {
        loop
            invariant
                self.tokens == old(self).tokens,
                next_non_ws(self.tokens@, old(self).current as int) == next_non_ws(
                    self.tokens@,
                    self.current as int,
                ),
            decreases self.tokens@.len() - self.current + 1,
        {
            let ghost cur = self.current as int;
            match self.bump() {
                None => {
                    proof {
                        assert(next_non_ws(self.tokens@, cur) == cur);
                    }
                    return None;
                },
                Some(token) => {
                    if !matches!(token.kind, TokenKind::Whitespace) {
                        proof {
                            assert(next_non_ws(self.tokens@, cur) == cur);
                        }
                        return Some(token);
                    }
                },
            }
        }
    }

    /// Parse a single statement: `NUMBER OPERATOR NUMBER SEMICOLON`.
    pub fn statement(&mut self) -> (r: Result<BinOp, StatementError>)
        ensures
            final(self).tokens == old(self).tokens,
            match r {
                Ok(b) => sp_statement(old(self).tokens@, old(self).current as int) matches Ok(
                    (i2, b2),
                ) && b == b2 && final(self).current == i2,
                Err(e) => sp_statement(old(self).tokens@, old(self).current as int) == Err::<
                    (int, BinOp),
                    StatementError,
                >(e),
            },
    {
        let t1 = match self.bump_no_whitespace() {
            None => {
                return Err(StatementError::UnexpectedEnd);
            },
            Some(t) => t,
        };
        let a: i32 = match t1.kind {
            TokenKind::Number(v) => v,
            _ => {
                return Err(StatementError::ExpectedNumber { line: t1.line_no });
            },
        };
        let t2 = match self.bump_no_whitespace() {
            None => {
                return Err(StatementError::UnexpectedEnd);
            },
            Some(t) => t,
        };
        let op: ExprKind = match t2.kind {
            TokenKind::Plus => ExprKind::Add,
            TokenKind::Minus => ExprKind::Sub,
            _ => {
                return Err(StatementError::ExpectedOperator { line: t2.line_no });
            },
        };
        let t3 = match self.bump_no_whitespace() {
            None => {
                return Err(StatementError::UnexpectedEnd);
            },
            Some(t) => t,
        };
        let b: i32 = match t3.kind {
            TokenKind::Number(v) => v,
            _ => {
                return Err(StatementError::ExpectedNumber { line: t3.line_no });
            },
        };
        let t4 = match self.bump_no_whitespace() {
            None => {
                return Err(StatementError::UnexpectedEnd);
            },
            Some(t) => t,
        };
        if !matches!(t4.kind, TokenKind::Semicolon) {
            return Err(StatementError::ExpectedSemicolon { line: t4.line_no });
        }
        Ok(BinOp { value: op, left: Constant { value: a }, right: Constant { value: b } })
    }

    /// Parse the stream: a single statement.
    pub fn parse(&mut self) -> (r: Result<BinOp, StatementError>)
        ensures
            final(self).tokens == old(self).tokens,
            match r {
                Ok(b) => sp_statement(old(self).tokens@, old(self).current as int) matches Ok(
                    (i2, b2),
                ) && b == b2 && final(self).current == i2,
                Err(e) => sp_statement(old(self).tokens@, old(self).current as int) == Err::<
                    (int, BinOp),
                    StatementError,
                >(e),
            },
    {
        self.statement()
    }
}

/// Parse a token stream as one statement.
pub fn parse(tokens: Vec<Token>) -> (r: Result<BinOp, StatementError>)
    ensures
        match r {
            Ok(b) => sp_statement(tokens@, 0) matches Ok((i2, b2)) && b == b2,
            Err(e) => sp_statement(tokens@, 0) == Err::<(int, BinOp), StatementError>(e),
        },
{
    let mut parser = Parser::new(tokens);
    parser.parse()
}

} // verus!
