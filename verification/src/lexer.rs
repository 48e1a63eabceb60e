//! A small hand-rolled lexer: a peekable character cursor and a tokenizer
//! that classifies one token at a time, tracking line and column numbers.

use vstd::prelude::*;

verus! {

/// The classes of token the lexer distinguishes.
#[derive(Clone, Copy, Debug, PartialEq, Eq, Structural)]
pub enum TokenKind {
    Plus,
    Minus,
    Semicolon,
    OpenParen,
    CloseParen,
    OpenBrace,
    CloseBrace,
    Number,
    Unknown,
    Whitespace,
    Newline,
    Eof,
}

/// One token: its class and the line/column at which it started.
#[derive(Clone, Copy, Debug, PartialEq, Eq, Structural)]
pub struct Token {
    pub kind: TokenKind,
    pub line_no: u32,
    pub col_no: u32,
}

impl Token {
    pub fn new(kind: TokenKind, line_no: u32, col_no: u32) -> (t: Token)
        ensures
            t == (Token { kind, line_no, col_no }),
    {
        Token { kind, line_no, col_no }
    }
}

/// True of line-break characters: line feed, line tabulation, form feed,
/// carriage return.
pub open spec fn spec_is_newline(c: char) -> bool {
    0x000A <= (c as u32) && (c as u32) <= 0x000D
}

pub fn is_newline(c: char) -> (r: bool)
    ensures
        r == spec_is_newline(c),
{
    let u = c as u32;
    0x000A <= u && u <= 0x000D
}

/// True of the non-line-break characters of Pattern_White_Space.
pub open spec fn spec_is_whitespace(c: char) -> bool {
    ||| (c as u32) == 0x0009  // \t
    ||| (c as u32) == 0x000B  // vertical tab
    ||| (c as u32) == 0x0020  // space
    ||| (c as u32) == 0x0085  // next line
    ||| (c as u32) == 0x200E  // left-to-right mark
    ||| (c as u32) == 0x200F  // right-to-left mark
    ||| (c as u32) == 0x2028  // line separator
    ||| (c as u32) == 0x2029  // paragraph separator
}

pub fn is_whitespace(c: char) -> (r: bool)
    ensures
        r == spec_is_whitespace(c),
{
    let u = c as u32;
    u == 0x0009 || u == 0x000B || u == 0x0020 || u == 0x0085 || u == 0x200E || u == 0x200F
        || u == 0x2028 || u == 0x2029
}

/// The character `first` yields at end of input.
pub const EOF_CHAR: char = '\0';

/// Increment that sticks at `u32::MAX` instead of wrapping.
pub open spec fn sat_inc(x: u32) -> u32 {
    if x < u32::MAX {
        (x + 1) as u32
    } else {
        x
    }
}

/// `k` saturating increments applied to `x`.
pub open spec fn sat_add(x: u32, k: nat) -> u32
    decreases k,
{
    if k == 0 {
        x
    } else {
        sat_inc(sat_add(x, (k - 1) as nat))
    }
}

proof fn lemma_sat_add_one(x: u32, k: nat)
    ensures
        sat_add(sat_inc(x), k) == sat_add(x, k + 1),
    decreases k,
{
    if k == 0 {
        assert(sat_add(sat_inc(x), 0) == sat_inc(x));
        assert(sat_add(x, 1) == sat_inc(sat_add(x, 0)));
    } else {
        lemma_sat_add_one(x, (k - 1) as nat);
        assert(sat_add(sat_inc(x), k) == sat_inc(sat_add(sat_inc(x), (k - 1) as nat)));
        assert(sat_add(x, k + 1) == sat_inc(sat_add(x, k)));
    }
}

/// First position at or after `i` whose character is not whitespace.
pub open spec fn skip_ws(s: Seq<char>, i: int) -> int
    decreases s.len() - i,
{
    if 0 <= i < s.len() && spec_is_whitespace(s[i]) {
        skip_ws(s, i + 1)
    } else {
        i
    }
}

/// First position at or after `i` whose character is not a line break.
pub open spec fn skip_nl(s: Seq<char>, i: int) -> int
    decreases s.len() - i,
{
    if 0 <= i < s.len() && spec_is_newline(s[i]) {
        skip_nl(s, i + 1)
    } else {
        i
    }
}

/// First position at or after `i` whose character is neither a decimal
/// digit nor `_`.
pub open spec fn skip_digits(s: Seq<char>, i: int) -> int
    decreases s.len() - i,
{
    if 0 <= i < s.len() && (('0' as u32) <= (s[i] as u32) && (s[i] as u32) <= ('9' as u32) || s[i]
        == '_') {
        skip_digits(s, i + 1)
    } else {
        i
    }
}

/// First position at or after `i` holding a line feed, or the end of input.
pub open spec fn skip_comment(s: Seq<char>, i: int) -> int
    decreases s.len() - i,
{
    if 0 <= i < s.len() && s[i] != '\n' {
        skip_comment(s, i + 1)
    } else {
        i
    }
}

proof fn lemma_skip_ws_bounds(s: Seq<char>, i: int)
    requires
        0 <= i <= s.len(),
    ensures
        i <= skip_ws(s, i) <= s.len(),
    decreases s.len() - i,
{
    if i < s.len() && spec_is_whitespace(s[i]) {
        lemma_skip_ws_bounds(s, i + 1);
    }
}

proof fn lemma_skip_nl_bounds(s: Seq<char>, i: int)
    requires
        0 <= i <= s.len(),
    ensures
        i <= skip_nl(s, i) <= s.len(),
    decreases s.len() - i,
{
    if i < s.len() && spec_is_newline(s[i]) {
        lemma_skip_nl_bounds(s, i + 1);
    }
}

proof fn lemma_skip_digits_bounds(s: Seq<char>, i: int)
    requires
        0 <= i <= s.len(),
    ensures
        i <= skip_digits(s, i) <= s.len(),
    decreases s.len() - i,
{
    if i < s.len() && (('0' as u32) <= (s[i] as u32) && (s[i] as u32) <= ('9' as u32) || s[i]
        == '_') {
        lemma_skip_digits_bounds(s, i + 1);
    }
}

proof fn lemma_skip_comment_bounds(s: Seq<char>, i: int)
    requires
        0 <= i <= s.len(),
    ensures
        i <= skip_comment(s, i) <= s.len(),
    decreases s.len() - i,
{
    if i < s.len() && s[i] != '\n' {
        lemma_skip_comment_bounds(s, i + 1);
    }
}

/// What one step of the lexer does: the token produced, the new position,
/// and the new line/column counters.
pub open spec fn spec_advance_token(s: Seq<char>, pos: int, line: u32, col: u32) -> (Token, int, u32, u32) {
    if pos >= s.len() {
        (Token { kind: TokenKind::Eof, line_no: 1, col_no: 1 }, pos, line, col)
    } else {
        let c = s[pos];
        let u = c as u32;
        if u == 0x2B {  // '+'
            (Token { kind: TokenKind::Plus, line_no: line, col_no: col }, pos + 1, line, sat_inc(col))
        } else if u == 0x2D {  // '-'
            (Token { kind: TokenKind::Minus, line_no: line, col_no: col }, pos + 1, line, sat_inc(col))
        } else if u == 0x3B {  // ';'
            (Token { kind: TokenKind::Semicolon, line_no: line, col_no: col }, pos + 1, line, sat_inc(col))
        } else if u == 0x28 {  // '('
            (Token { kind: TokenKind::OpenParen, line_no: line, col_no: col }, pos + 1, line, sat_inc(col))
        } else if u == 0x29 {  // ')'
            (Token { kind: TokenKind::CloseParen, line_no: line, col_no: col }, pos + 1, line, sat_inc(col))
        } else if u == 0x7B {  // '{'
            (Token { kind: TokenKind::OpenBrace, line_no: line, col_no: col }, pos + 1, line, sat_inc(col))
        } else if u == 0x7D {  // '}'
            (Token { kind: TokenKind::CloseBrace, line_no: line, col_no: col }, pos + 1, line, sat_inc(col))
        } else if spec_is_whitespace(c) {
            let end = skip_ws(s, pos + 1);
            (
                Token { kind: TokenKind::Whitespace, line_no: line, col_no: col },
                end,
                line,
                sat_add(col, (end - pos) as nat),
            )
        } else if spec_is_newline(c) {
            let end = skip_nl(s, pos + 1);
            (Token { kind: TokenKind::Newline, line_no: line, col_no: col }, end, sat_inc(line), 1)
        } else if ('0' as u32) <= u && u <= ('9' as u32) {
            let end = skip_digits(s, pos + 1);
            (
                Token { kind: TokenKind::Number, line_no: line, col_no: col },
                end,
                line,
                sat_add(col, (end - pos) as nat),
            )
        } else if u == 0x23 {  // '#'
            if pos + 1 >= s.len() {
                (
                    Token { kind: TokenKind::Whitespace, line_no: line, col_no: col },
                    s.len() as int,
                    line,
                    sat_inc(col),
                )
            } else {
                let end = skip_comment(s, pos + 2);
                (
                    Token { kind: TokenKind::Whitespace, line_no: line, col_no: col },
                    end,
                    line,
                    sat_add(col, (end - pos) as nat),
                )
            }
        } else {
            (Token { kind: TokenKind::Unknown, line_no: line, col_no: col }, pos + 1, line, sat_inc(col))
        }
    }
}

/// A non-`Eof` step always consumes at least one character.
pub proof fn lemma_advance_progress(s: Seq<char>, pos: int, line: u32, col: u32)
    requires
        0 <= pos <= s.len(),
    ensures
        ({
            let (t, p2, l2, c2) = spec_advance_token(s, pos, line, col);
            &&& pos <= p2 <= s.len()
            &&& (t.kind != TokenKind::Eof ==> p2 > pos)
            &&& (t.kind == TokenKind::Eof <==> pos >= s.len())
        }),
{
    if pos < s.len() {
        lemma_skip_ws_bounds(s, pos + 1);
        lemma_skip_nl_bounds(s, pos + 1);
        lemma_skip_digits_bounds(s, pos + 1);
        if pos + 2 <= s.len() {
            lemma_skip_comment_bounds(s, pos + 2);
        }
    }
}

/// The full token stream from `pos` to the end of input, `Eof` excluded.
pub open spec fn spec_tokens(s: Seq<char>, pos: int, line: u32, col: u32) -> Seq<Token>
    decreases s.len() - pos,
{
    let (t, p2, l2, c2) = spec_advance_token(s, pos, line, col);
    if t.kind == TokenKind::Eof || !(pos < p2 <= s.len()) {
        Seq::empty()
    } else {
        seq![t] + spec_tokens(s, p2, l2, c2)
    }
}

/// Peekable cursor over a character sequence. The next character can be
/// peeked via `first` and the position shifted forward via `bump`.
pub struct Cursor<'a> {
    pub text: &'a str,
    pub pos: usize,
    pub line_no: u32,
    pub col_no: u32,
}

impl<'a> Cursor<'a> {
    pub open spec fn wf(self) -> bool {
        self.pos <= self.text@.len()
    }

    pub fn new(input: &'a str) -> (c: Cursor<'a>)
        ensures
            c.text@ == input@,
            c.pos == 0,
            c.line_no == 1,
            c.col_no == 1,
            c.wf(),
    {
        Cursor { text: input, pos: 0, line_no: 1, col_no: 1 }
    }

    /// Peek the next character without consuming it; `EOF_CHAR` at the end
    /// of input (which does not always mean end of input: check `is_eof`).
    pub fn first(&self) -> (c: char)
        requires
            self.wf(),
        ensures
            c == (if self.pos < self.text@.len() {
                self.text@[self.pos as int]
            } else {
                EOF_CHAR
            }),
    {
        if self.pos < self.text.unicode_len() {
            self.text.get_char(self.pos)
        } else {
            EOF_CHAR
        }
    }

    /// True if there is nothing more to consume.
    pub fn is_eof(&self) -> (r: bool)
        ensures
            r == (self.pos >= self.text@.len()),
    {
        self.pos >= self.text.unicode_len()
    }

    /// Advance to the next line: line count up, column back to 1.
    pub fn advance_line(&mut self)
        ensures
            final(self).text == old(self).text,
            final(self).pos == old(self).pos,
            final(self).line_no == sat_inc(old(self).line_no),
            final(self).col_no == 1,
    {
        if self.line_no < u32::MAX {
            self.line_no = self.line_no + 1;
        }
        self.col_no = 1;
    }

    /// The current position as (line number, column number).
    pub fn position(&self) -> (p: (u32, u32))
        ensures
            p.0 == self.line_no,
            p.1 == self.col_no,
    {
        (self.line_no, self.col_no)
    }

    /// Consume and return the next character, advancing the column count.
    pub fn bump(&mut self) -> (c: Option<char>)
        requires
            old(self).wf(),
        ensures
            final(self).wf(),
            final(self).text == old(self).text,
            final(self).line_no == old(self).line_no,
            old(self).pos < old(self).text@.len() ==> {
                &&& c == Some(old(self).text@[old(self).pos as int])
                &&& final(self).pos == old(self).pos + 1
                &&& final(self).col_no == sat_inc(old(self).col_no)
            },
            old(self).pos >= old(self).text@.len() ==> {
                &&& c is None
                &&& final(self).pos == old(self).pos
                &&& final(self).col_no == old(self).col_no
            },
    {
        if self.pos < self.text.unicode_len() {
            let c = self.text.get_char(self.pos);
            self.pos = self.pos + 1;
            if self.col_no < u32::MAX {
                self.col_no = self.col_no + 1;
            }
            Some(c)
        } else {
            None
        }
    }

    /// Classify and consume one token.
    pub fn advance_token(&mut self) -> (t: Token)
        requires
            old(self).wf(),
        ensures
            final(self).wf(),
            final(self).text == old(self).text,
            ({
                let (st, p2, l2, c2) = spec_advance_token(
                    old(self).text@,
                    old(self).pos as int,
                    old(self).line_no,
                    old(self).col_no,
                );
                &&& t == st
                &&& final(self).pos == p2
                &&& final(self).line_no == l2
                &&& final(self).col_no == c2
            }),
    {
        let ghost s = self.text@;
        let ghost pos0 = self.pos as int;
        let start = self.position();
        let first_char = match self.bump() {
            Some(c) => c,
            None => {
                return Token::new(TokenKind::Eof, 1, 1);
            },
        };

        let u = first_char as u32;
        let token_kind: TokenKind = if u == 0x2B {
            TokenKind::Plus
        } else if u == 0x2D {
            TokenKind::Minus
        } else if u == 0x3B {
            TokenKind::Semicolon
        } else if u == 0x28 {
            TokenKind::OpenParen
        } else if u == 0x29 {
            TokenKind::CloseParen
        } else if u == 0x7B {
            TokenKind::OpenBrace
        } else if u == 0x7D {
            TokenKind::CloseBrace
        } else if is_whitespace(first_char) {
            self.eat_whitespace();
            proof {
                lemma_sat_add_one(old(self).col_no, (self.pos - (pos0 + 1)) as nat);
            }
            TokenKind::Whitespace
        } else if is_newline(first_char) {
            self.eat_newlines();
            self.advance_line();
            TokenKind::Newline
        } else if 0x30 <= u && u <= 0x39 {
            self.eat_decimal_digits();
            proof {
                lemma_sat_add_one(old(self).col_no, (self.pos - (pos0 + 1)) as nat);
            }
            TokenKind::Number
        } else if u == 0x23 {
            self.line_comment();
            proof {
                lemma_sat_add_one(old(self).col_no, (self.pos - (pos0 + 1)) as nat);
            }
            TokenKind::Whitespace
        } else {
            TokenKind::Unknown
        };
        Token::new(token_kind, start.0, start.1)
    }

    #[verifier::loop_isolation(false)]
    fn eat_whitespace(&mut self)
        requires
            old(self).wf(),
        ensures
            final(self).wf(),
            final(self).text == old(self).text,
            final(self).line_no == old(self).line_no,
            old(self).pos <= final(self).pos,
            final(self).pos == skip_ws(old(self).text@, old(self).pos as int),
            final(self).col_no == sat_add(
                old(self).col_no,
                (final(self).pos - old(self).pos) as nat,
            ),
    {
        let ghost s = self.text@;
        let ghost pos0 = self.pos as int;
        let ghost col0 = self.col_no;
        proof {
            lemma_skip_ws_bounds(s, pos0);
        }
        loop
            invariant
                self.wf(),
                self.text == old(self).text,
                self.text@ == s,
                self.line_no == old(self).line_no,
                pos0 <= self.pos <= s.len(),
                skip_ws(s, self.pos as int) == skip_ws(s, pos0),
                skip_ws(s, pos0) <= s.len(),
                self.col_no == sat_add(col0, (self.pos - pos0) as nat),
            decreases s.len() - self.pos,
        {
            let c = self.first();
            if !(is_whitespace(c) && !self.is_eof()) {
                return ;
            }
            proof {
                lemma_sat_add_one_use(col0, (self.pos - pos0) as nat);
            }
            let _ = self.bump();
        }
    }

    #[verifier::loop_isolation(false)]
    fn eat_newlines(&mut self)
        requires
            old(self).wf(),
        ensures
            final(self).wf(),
            final(self).text == old(self).text,
            final(self).line_no == old(self).line_no,
            old(self).pos <= final(self).pos,
            final(self).pos == skip_nl(old(self).text@, old(self).pos as int),
            final(self).col_no == sat_add(
                old(self).col_no,
                (final(self).pos - old(self).pos) as nat,
            ),
    {
        let ghost s = self.text@;
        let ghost pos0 = self.pos as int;
        let ghost col0 = self.col_no;
        proof {
            lemma_skip_nl_bounds(s, pos0);
        }
        loop
            invariant
                self.wf(),
                self.text == old(self).text,
                self.text@ == s,
                self.line_no == old(self).line_no,
                pos0 <= self.pos <= s.len(),
                skip_nl(s, self.pos as int) == skip_nl(s, pos0),
                skip_nl(s, pos0) <= s.len(),
                self.col_no == sat_add(col0, (self.pos - pos0) as nat),
            decreases s.len() - self.pos,
        {
            let c = self.first();
            if !(is_newline(c) && !self.is_eof()) {
                return ;
            }
            proof {
                lemma_sat_add_one_use(col0, (self.pos - pos0) as nat);
            }
            let _ = self.bump();
        }
    }

    #[verifier::loop_isolation(false)]
    fn eat_decimal_digits(&mut self)
        requires
            old(self).wf(),
        ensures
            final(self).wf(),
            final(self).text == old(self).text,
            final(self).line_no == old(self).line_no,
            old(self).pos <= final(self).pos,
            final(self).pos == skip_digits(old(self).text@, old(self).pos as int),
            final(self).col_no == sat_add(
                old(self).col_no,
                (final(self).pos - old(self).pos) as nat,
            ),
    {
        let ghost s = self.text@;
        let ghost pos0 = self.pos as int;
        let ghost col0 = self.col_no;
        proof {
            lemma_skip_digits_bounds(s, pos0);
        }
        loop
            invariant
                self.wf(),
                self.text == old(self).text,
                self.text@ == s,
                self.line_no == old(self).line_no,
                pos0 <= self.pos <= s.len(),
                skip_digits(s, self.pos as int) == skip_digits(s, pos0),
                skip_digits(s, pos0) <= s.len(),
                self.col_no == sat_add(col0, (self.pos - pos0) as nat),
            decreases s.len() - self.pos,
        {
            let c = self.first();
            let cu = c as u32;
            let is_digit_or_sep = (0x30 <= cu && cu <= 0x39) || c == '_';
            if !(is_digit_or_sep && !self.is_eof()) {
                return ;
            }
            proof {
                lemma_sat_add_one_use(col0, (self.pos - pos0) as nat);
            }
            let _ = self.bump();
        }
    }

    /// Consume a line comment: the character after `#` unconditionally,
    /// then everything up to (but not including) the next line feed.
    #[verifier::loop_isolation(false)]
    fn line_comment(&mut self)
        requires
            old(self).wf(),
        ensures
            final(self).wf(),
            final(self).text == old(self).text,
            final(self).line_no == old(self).line_no,
            old(self).pos <= final(self).pos,
            final(self).pos == (if old(self).pos >= old(self).text@.len() {
                old(self).pos as int
            } else {
                skip_comment(old(self).text@, old(self).pos + 1)
            }),
            final(self).col_no == sat_add(
                old(self).col_no,
                (final(self).pos - old(self).pos) as nat,
            ),
    {
        let ghost s = self.text@;
        let ghost pos0 = self.pos as int;
        let ghost col0 = self.col_no;
        let first = self.bump();
        if first.is_none() {
            return ;
        }
        proof {
            lemma_skip_comment_bounds(s, pos0 + 1);
            assert(sat_add(col0, 0) == col0);
            assert(sat_add(col0, 1) == sat_inc(sat_add(col0, 0)));
        }
        loop
            invariant
                self.wf(),
                self.text == old(self).text,
                self.text@ == s,
                self.line_no == old(self).line_no,
                pos0 + 1 <= self.pos <= s.len(),
                skip_comment(s, self.pos as int) == skip_comment(s, pos0 + 1),
                skip_comment(s, pos0 + 1) <= s.len(),
                self.col_no == sat_add(col0, (self.pos - pos0) as nat),
            decreases s.len() - self.pos,
        {
            let c = self.first();
            if !(c != '\n' && !self.is_eof()) {
                return ;
            }
            proof {
                lemma_sat_add_one_use(col0, (self.pos - pos0) as nat);
            }
            let _ = self.bump();
        }
    }
}

proof fn lemma_sat_add_one_use(x: u32, k: nat)
    ensures
        sat_inc(sat_add(x, k)) == sat_add(x, k + 1),
{
}

/// Produce the whole token stream for `input`, stopping at `Eof`.
#[verifier::loop_isolation(false)]
pub fn tokenize(input: &str) -> (r: Vec<Token>)
    ensures
        r@ == spec_tokens(input@, 0, 1, 1),
{
    let mut cursor = Cursor::new(input);
    let mut out: Vec<Token> = Vec::new();
    let ghost s = input@;
    loop
        invariant
            cursor.wf(),
            cursor.text@ == s,
            out@ + spec_tokens(s, cursor.pos as int, cursor.line_no, cursor.col_no)
                == spec_tokens(s, 0, 1, 1),
        decreases s.len() - cursor.pos + 1,
    {
        proof {
            lemma_advance_progress(s, cursor.pos as int, cursor.line_no, cursor.col_no);
        }
        let token = cursor.advance_token();
        if token.kind == TokenKind::Eof {
            proof {
                assert(spec_tokens(s, cursor.pos as int, cursor.line_no, cursor.col_no)
                    =~= Seq::<Token>::empty());
                assert(out@ + Seq::<Token>::empty() =~= out@);
            }
            return out;
        } else {
            out.push(token);
            proof {
                assert(out@ + spec_tokens(s, cursor.pos as int, cursor.line_no, cursor.col_no)
                    =~= spec_tokens(s, 0, 1, 1));
            }
        }
    }
}

} // verus!
