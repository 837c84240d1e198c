use vstd::prelude::*;
use vstd::utf8::{char_is_scalar, encode_scalar, encode_utf8};
use vstd::std_specs::iter::IteratorSpec;

verus! {

/// Failure of the tokenizer: no token rule matches the text at `offset` (a byte offset).
#[derive(Clone, Debug, PartialEq, Eq)]
pub enum LexicalError {
    InvalidToken { offset: usize },
}

/// A classified token.
#[derive(Clone, Debug, PartialEq)]
pub enum Token {
    Equal,
    Period,
    Pipe,
    LeftBrace,
    RightBrace,
    LeftBracket,
    RightBracket,
    LeftParen,
    RightParen,
    LineNumber(u32),
    /// Text between single quotes, the quotes removed.
    String(String),
    Identifier(String),
    /// A backslash escape, kept verbatim with its backslash.
    EscapeSequence(String),
}

/// The mathematical shape of a token.
pub enum TokenModel {
    Equal,
    Period,
    Pipe,
    LeftBrace,
    RightBrace,
    LeftBracket,
    RightBracket,
    LeftParen,
    RightParen,
    LineNumber(u32),
    String(Seq<char>),
    Identifier(Seq<char>),
    EscapeSequence(Seq<char>),
}

impl View for Token {
    type V = TokenModel;

    open spec fn view(&self) -> TokenModel {
        match self {
            Token::Equal => TokenModel::Equal,
            Token::Period => TokenModel::Period,
            Token::Pipe => TokenModel::Pipe,
            Token::LeftBrace => TokenModel::LeftBrace,
            Token::RightBrace => TokenModel::RightBrace,
            Token::LeftBracket => TokenModel::LeftBracket,
            Token::RightBracket => TokenModel::RightBracket,
            Token::LeftParen => TokenModel::LeftParen,
            Token::RightParen => TokenModel::RightParen,
            Token::LineNumber(n) => TokenModel::LineNumber(*n),
            Token::String(s) => TokenModel::String(s@),
            Token::Identifier(s) => TokenModel::Identifier(s@),
            Token::EscapeSequence(s) => TokenModel::EscapeSequence(s@),
        }
    }
}

/// A token with its byte span, or the failure that ended the stream.
pub type Spanned<Tok, Loc, Error> = Result<(Loc, Tok, Loc), Error>;

pub open spec fn is_blank(c: char) -> bool {
    c == ' ' || c == '\t' || c == '\n' || c == '\x0C'
}

pub open spec fn is_digit(c: char) -> bool {
    '0' <= c <= '9'
}

pub open spec fn is_letter(c: char) -> bool {
    ('a' <= c <= 'z') || ('A' <= c <= 'Z')
}

pub open spec fn is_ident_start(c: char) -> bool {
    is_letter(c) || c == '_'
}

pub open spec fn is_ident_char(c: char) -> bool {
    is_ident_start(c) || is_digit(c)
}

pub open spec fn is_hex(c: char) -> bool {
    is_digit(c) || ('a' <= c <= 'f') || ('A' <= c <= 'F')
}

/// The first significant position at or after `i`: blanks and `;` comments are passed over.
pub open spec fn skip_blank(s: Seq<char>, i: int) -> int
    decreases s.len() - i,
{
    if i < 0 || i >= s.len() {
        i
    } else if is_blank(s[i]) {
        skip_blank(s, i + 1)
    } else if s[i] == ';' {
        skip_comment(s, i + 1)
    } else {
        i
    }
}

/// Inside a comment at `i`: the comment runs to the end of the line, its newline included.
pub open spec fn skip_comment(s: Seq<char>, i: int) -> int
    decreases s.len() - i,
{
    if i < 0 || i >= s.len() {
        i
    } else if s[i] == '\n' {
        skip_blank(s, i + 1)
    } else {
        skip_comment(s, i + 1)
    }
}

/// End of the run of decimal digits that starts at `i`.
pub open spec fn digits_end(s: Seq<char>, i: int) -> int
    decreases s.len() - i,
{
    if 0 <= i < s.len() && is_digit(s[i]) {
        digits_end(s, i + 1)
    } else {
        i
    }
}

/// End of the run of identifier characters that starts at `i`.
pub open spec fn ident_end(s: Seq<char>, i: int) -> int
    decreases s.len() - i,
{
    if 0 <= i < s.len() && is_ident_char(s[i]) {
        ident_end(s, i + 1)
    } else {
        i
    }
}

/// The first single quote at or after `i`, or the end of the text.
pub open spec fn quote_end(s: Seq<char>, i: int) -> int
    decreases s.len() - i,
{
    if 0 <= i < s.len() && s[i] != '\'' {
        quote_end(s, i + 1)
    } else {
        i
    }
}

/// End of the at most two hexadecimal digits that start at `i`.
pub open spec fn hex_end(s: Seq<char>, i: int) -> int {
    if 0 <= i < s.len() && is_hex(s[i]) {
        if i + 1 < s.len() && is_hex(s[i + 1]) {
            i + 2
        } else {
            i + 1
        }
    } else {
        i
    }
}

pub open spec fn digit_value(c: char) -> nat {
    (c as u32 - '0' as u32) as nat
}

/// The decimal number written by `s[i..j]`.
pub open spec fn digits_value(s: Seq<char>, i: int, j: int) -> nat
    decreases j - i,
{
    if j <= i {
        0
    } else {
        digits_value(s, i, j - 1) * 10 + digit_value(s[j - 1])
    }
}

pub open spec fn punctuation(c: char) -> Option<TokenModel> {
    if c == '=' {
        Some(TokenModel::Equal)
    } else if c == '.' {
        Some(TokenModel::Period)
    } else if c == '|' {
        Some(TokenModel::Pipe)
    } else if c == '{' {
        Some(TokenModel::LeftBrace)
    } else if c == '}' {
        Some(TokenModel::RightBrace)
    } else if c == '[' {
        Some(TokenModel::LeftBracket)
    } else if c == ']' {
        Some(TokenModel::RightBracket)
    } else if c == '(' {
        Some(TokenModel::LeftParen)
    } else if c == ')' {
        Some(TokenModel::RightParen)
    } else {
        None
    }
}

/// One step of the tokenizer, over character positions.
pub enum Scan {
    /// Nothing but blanks and comments remain.
    End,
    /// A token from the first position to the second.
    Item(int, TokenModel, int),
    /// No rule matches at this position.
    Fail(int),
}

/// The token that starts at the significant position `i`.
pub open spec fn scan_at(s: Seq<char>, i: int) -> Scan {
    if i < 0 || i >= s.len() {
        Scan::End
    } else if punctuation(s[i]) is Some {
        Scan::Item(i, punctuation(s[i])->0, i + 1)
    } else if is_digit(s[i]) {
        let j = digits_end(s, i);
        if digits_value(s, i, j) <= u32::MAX {
            Scan::Item(i, TokenModel::LineNumber(digits_value(s, i, j) as u32), j)
        } else {
            Scan::Fail(i)
        }
    } else if s[i] == '\'' {
        let j = quote_end(s, i + 1);
        if j < s.len() {
            Scan::Item(i, TokenModel::String(s.subrange(i + 1, j)), j + 1)
        } else {
            Scan::Fail(i)
        }
    } else if is_ident_start(s[i]) {
        let j = ident_end(s, i);
        Scan::Item(i, TokenModel::Identifier(s.subrange(i, j)), j)
    } else if s[i] == '\\' && i + 1 < s.len() && is_letter(s[i + 1]) {
        let j = hex_end(s, i + 2);
        Scan::Item(i, TokenModel::EscapeSequence(s.subrange(i, j)), j)
    } else {
        Scan::Fail(i)
    }
}

/// The next step of the tokenizer from position `p`.
pub open spec fn scan(s: Seq<char>, p: int) -> Scan {
    scan_at(s, skip_blank(s, p))
}

/// Number of bytes of the UTF-8 encoding of `c`.
pub open spec fn char_width(c: char) -> nat {
    if (c as u32) < 0x80 {
        1
    } else if (c as u32) < 0x800 {
        2
    } else if (c as u32) < 0x10000 {
        3
    } else {
        4
    }
}

/// Number of bytes of the UTF-8 encoding of `s`.
pub open spec fn width_sum(s: Seq<char>) -> nat
    decreases s.len(),
{
    if s.len() == 0 {
        0
    } else {
        char_width(s[0]) + width_sum(s.drop_first())
    }
}

/// Byte offset of the character position `i` of `s`.
pub open spec fn byte_offset(s: Seq<char>, i: int) -> nat {
    width_sum(s.take(i))
}

/// How a token stream ends.
pub enum StreamStop {
    /// The text is used up; the byte offset of its end.
    End(nat),
    /// The tokenizer failed at this byte offset.
    Failed(nat),
}

/// Every token of a text with its byte span, and how the stream ends.
pub struct TokenStream {
    pub items: Seq<(nat, TokenModel, nat)>,
    pub stop: StreamStop,
}

/// The token stream of `s` from the character position `p` on.
pub open spec fn lex_all(s: Seq<char>, p: int) -> TokenStream
    decreases s.len() - p,
{
    match scan(s, p) {
        Scan::End => TokenStream { items: seq![], stop: StreamStop::End(width_sum(s)) },
        Scan::Fail(a) => TokenStream { items: seq![], stop: StreamStop::Failed(byte_offset(s, a)) },
        Scan::Item(a, t, b) => if p < b <= s.len() {
            let rest = lex_all(s, b);
            TokenStream {
                items: seq![(byte_offset(s, a), t, byte_offset(s, b))] + rest.items,
                stop: rest.stop,
            }
        } else {
            TokenStream { items: seq![], stop: StreamStop::End(width_sum(s)) }
        },
    }
}

/// The token stream of a whole text.
pub open spec fn tokenize(s: Seq<char>) -> TokenStream {
    lex_all(s, 0)
}

proof fn lemma_skip_blank_bounds(s: Seq<char>, i: int)
    requires
        0 <= i <= s.len(),
    ensures
        i <= skip_blank(s, i) <= s.len(),
    decreases s.len() - i, 1nat,
{
    if i < s.len() {
        if is_blank(s[i]) {
            lemma_skip_blank_bounds(s, i + 1);
        } else if s[i] == ';' {
            lemma_skip_comment_bounds(s, i + 1);
        }
    }
}

proof fn lemma_skip_comment_bounds(s: Seq<char>, i: int)
    requires
        0 <= i <= s.len(),
    ensures
        i <= skip_comment(s, i) <= s.len(),
    decreases s.len() - i, 0nat,
{
    if i < s.len() {
        if s[i] == '\n' {
            lemma_skip_blank_bounds(s, i + 1);
        } else {
            lemma_skip_comment_bounds(s, i + 1);
        }
    }
}

proof fn lemma_run_ends(s: Seq<char>, i: int)
    requires
        0 <= i <= s.len(),
    ensures
        i <= digits_end(s, i) <= s.len(),
        i <= ident_end(s, i) <= s.len(),
        i <= quote_end(s, i) <= s.len(),
    decreases s.len() - i,
{
    if i < s.len() {
        lemma_run_ends(s, i + 1);
    }
}

/// Every token the tokenizer gives lies after the position it started from, and is not empty;
/// a failure lies within the text.
pub proof fn lemma_scan_progress(s: Seq<char>, p: int)
    requires
        0 <= p <= s.len(),
    ensures
        scan(s, p) matches Scan::Item(a, t, b) ==> p <= a < b <= s.len(),
        scan(s, p) matches Scan::Fail(a) ==> p <= a <= s.len(),
{
    lemma_skip_blank_bounds(s, p);
    let i = skip_blank(s, p);
    if i < s.len() {
        lemma_run_ends(s, i);
        lemma_run_ends(s, i + 1);
    }
}

/// A backslash that is not followed by a letter is a lexical failure at the backslash.
pub proof fn lemma_backslash_without_letter_fails(s: Seq<char>, p: int)
    requires
        0 <= p <= s.len(),
        skip_blank(s, p) < s.len(),
        s[skip_blank(s, p)] == '\\',
        !(skip_blank(s, p) + 1 < s.len() && is_letter(s[skip_blank(s, p) + 1])),
    ensures
        scan(s, p) == Scan::Fail(skip_blank(s, p)),
{
    lemma_skip_blank_bounds(s, p);
}

proof fn lemma_width_concat(a: Seq<char>, b: Seq<char>)
    ensures
        width_sum(a + b) == width_sum(a) + width_sum(b),
    decreases a.len(),
{
    if a.len() > 0 {
        assert((a + b).drop_first() =~= a.drop_first() + b);
        lemma_width_concat(a.drop_first(), b);
    } else {
        assert(a + b =~= b);
    }
}

proof fn lemma_encoded_len(s: Seq<char>)
    ensures
        encode_utf8(s).len() == width_sum(s),
    decreases s.len(),
{
    if s.len() > 0 {
        char_is_scalar(s[0]);
        assert(encode_scalar(s[0] as u32).len() == char_width(s[0]));
        lemma_encoded_len(s.drop_first());
    }
}

/// Stepping one character forward adds that character's width, and stays within the text.
proof fn lemma_offset_step(s: Seq<char>, i: int)
    requires
        0 <= i < s.len(),
    ensures
        byte_offset(s, i + 1) == byte_offset(s, i) + char_width(s[i]),
        byte_offset(s, i + 1) <= width_sum(s),
{
    assert(s.take(i + 1) =~= s.take(i) + seq![s[i]]);
    lemma_width_concat(s.take(i), seq![s[i]]);
    assert(seq![s[i]].drop_first() =~= Seq::<char>::empty());
    assert(width_sum(Seq::<char>::empty()) == 0);
    assert(width_sum(seq![s[i]]) == char_width(s[i]));
    assert(s =~= s.take(i + 1) + s.skip(i + 1));
    lemma_width_concat(s.take(i + 1), s.skip(i + 1));
}

/// A byte offset inside the text is at most the text's byte length.
pub proof fn lemma_offset_bound(s: Seq<char>, i: int)
    requires
        0 <= i <= s.len(),
    ensures
        byte_offset(s, i) <= width_sum(s),
{
    assert(s =~= s.take(i) + s.skip(i));
    lemma_width_concat(s.take(i), s.skip(i));
}

fn width_of(c: char) -> (w: usize)
    ensures
        w == char_width(c),
{
    let u = c as u32;
    if u < 0x80 {
        1
    } else if u < 0x800 {
        2
    } else if u < 0x10000 {
        3
    } else {
        4
    }
}

/// The characters of `s`, in order.
fn chars_of(s: &str) -> (r: Vec<char>)
    ensures
        r@ == s@,
{
    broadcast use vstd::string::axiom_spec_iter, vstd::string::next_postcondition;

    let mut out: Vec<char> = Vec::new();
    let mut it = s.chars();
    loop
        invariant
            it.obeys_prophetic_iter_laws(),
            out@ + it.remaining() == s@,
            it.decrease() is Some,
        ensures
            out@ == s@,
        decreases it.decrease()->0,
    {
        match it.next() {
            Some(c) => {
                out.push(c);
            },
            None => {
                assert(out@ + it.remaining() =~= out@);
                break;
            },
        }
    }
    out
}

proof fn lemma_digits_grow(s: Seq<char>, i: int, j: int, k: int)
    requires
        i <= j <= k,
    ensures
        digits_value(s, i, j) <= digits_value(s, i, k),
    decreases k - j,
{
    if j < k {
        lemma_digits_grow(s, i, j, k - 1);
    }
}

proof fn lemma_digits_end_ge(s: Seq<char>, i: int)
    ensures
        digits_end(s, i) >= i,
    decreases s.len() - i,
{
    if 0 <= i < s.len() && is_digit(s[i]) {
        lemma_digits_end_ge(s, i + 1);
    }
}

fn blank_char(c: char) -> (b: bool)
    ensures
        b == is_blank(c),
{
    c == ' ' || c == '\t' || c == '\n' || c == '\x0C'
}

fn digit_char(c: char) -> (b: bool)
    ensures
        b == is_digit(c),
{
    '0' <= c && c <= '9'
}

fn letter_char(c: char) -> (b: bool)
    ensures
        b == is_letter(c),
{
    ('a' <= c && c <= 'z') || ('A' <= c && c <= 'Z')
}

fn ident_start_char(c: char) -> (b: bool)
    ensures
        b == is_ident_start(c),
{
    letter_char(c) || c == '_'
}

fn ident_char(c: char) -> (b: bool)
    ensures
        b == is_ident_char(c),
{
    ident_start_char(c) || digit_char(c)
}

fn hex_char(c: char) -> (b: bool)
    ensures
        b == is_hex(c),
{
    digit_char(c) || ('a' <= c && c <= 'f') || ('A' <= c && c <= 'F')
}

fn punctuation_token(c: char) -> (r: Option<Token>)
    ensures
        r is Some <==> punctuation(c) is Some,
        r is Some ==> r->0@ == punctuation(c)->0,
{
    if c == '=' {
        Some(Token::Equal)
    } else if c == '.' {
        Some(Token::Period)
    } else if c == '|' {
        Some(Token::Pipe)
    } else if c == '{' {
        Some(Token::LeftBrace)
    } else if c == '}' {
        Some(Token::RightBrace)
    } else if c == '[' {
        Some(Token::LeftBracket)
    } else if c == ']' {
        Some(Token::RightBracket)
    } else if c == '(' {
        Some(Token::LeftParen)
    } else if c == ')' {
        Some(Token::RightParen)
    } else {
        None
    }
}

/// Relies on `String::push`: the character is appended at the end.
#[verifier::external_body]
fn push_char(s: &mut String, c: char)
    ensures
        final(s)@ == old(s)@.push(c),
{
    s.push(c);
}

/// The text of a quoted lexeme without its first and last character.
pub fn unquote(s: &str) -> (r: String)
    requires
        s@.len() >= 2,
        s@[0] == '\'',
        s@[s@.len() - 1] == '\'',
    ensures
        r@ == s@.subrange(1, s@.len() - 1),
{
    let cs = chars_of(s);
    let mut out = String::new();
    let mut k: usize = 1;
    while k < cs.len() - 1
        invariant
            cs@ == s@,
            cs@.len() >= 2,
            1 <= k <= cs@.len() - 1,
            out@ == s@.subrange(1, k as int),
        decreases cs@.len() - k,
    {
        push_char(&mut out, cs[k]);
        k = k + 1;
        proof {
            assert(out@ =~= s@.subrange(1, k as int));
        }
    }
    out
}

/// What one call of the tokenizer gives back for the step `step` of the text `s`,
/// with the tokenizer's position and whether it has stopped, after the call.
pub open spec fn reports(
    s: Seq<char>,
    step: Scan,
    r: Option<Spanned<Token, usize, LexicalError>>,
    pos: int,
    finished: bool,
) -> bool {
    match step {
        Scan::End => r is None && finished,
        Scan::Item(a, t, b) => {
            &&& !finished
            &&& pos == b
            &&& (r matches Some(Ok((x, tok, y))) && x == byte_offset(s, a) && tok@ == t && y
                == byte_offset(s, b))
        },
        Scan::Fail(a) => finished && r == Some(
            Err::<(usize, Token, usize), LexicalError>(
                LexicalError::InvalidToken { offset: byte_offset(s, a) as usize },
            ),
        ),
    }
}

/// A pull tokenizer over a text: each call of `next` gives the next token with its byte span.
pub struct Lexer {
    chars: Vec<char>,
    pos: usize,
    bytes: usize,
    total: usize,
    finished: bool,
}

impl Lexer {
    /// The text being tokenized.
    pub closed spec fn text(&self) -> Seq<char> {
        self.chars@
    }

    /// The character position where the next step starts.
    pub closed spec fn position(&self) -> int {
        self.pos as int
    }

    /// True once the end of the text or a failure has been reported.
    pub closed spec fn is_finished(&self) -> bool {
        self.finished
    }

    pub closed spec fn wf(&self) -> bool {
        &&& self.pos <= self.chars@.len()
        &&& self.bytes == byte_offset(self.chars@, self.pos as int)
        &&& self.total == width_sum(self.chars@)
    }

    pub fn new(input: &str) -> (r: Lexer)
        ensures
            r.wf(),
            r.text() == input@,
            r.position() == 0,
            !r.is_finished(),
    {
        let chars = chars_of(input);
        let total = input.as_bytes().len();
        proof {
            lemma_encoded_len(input@);
            assert(chars@.take(0) =~= Seq::<char>::empty());
        }
        Lexer { chars, pos: 0, bytes: 0, total, finished: false }
    }

    /// The position of a well-formed tokenizer lies within its text, whose byte length fits a
    /// `usize`.
    pub proof fn lemma_position(&self)
        requires
            self.wf(),
        ensures
            0 <= self.position() <= self.text().len(),
            width_sum(self.text()) <= usize::MAX,
    {
    }

    /// Byte length of the whole text.
    pub fn end_offset(&self) -> (r: usize)
        requires
            self.wf(),
        ensures
            r == width_sum(self.text()),
    {
        self.total
    }

    fn advance(&mut self)
        requires
            old(self).wf(),
            old(self).pos < old(self).chars@.len(),
        ensures
            final(self).wf(),
            final(self).chars@ == old(self).chars@,
            final(self).pos == old(self).pos + 1,
            final(self).total == old(self).total,
            final(self).finished == old(self).finished,
    {
        proof {
            lemma_offset_step(self.chars@, self.pos as int);
        }
        let n = self.chars.len();
        let w = width_of(self.chars[self.pos]);
        self.bytes = self.bytes + w;
        assert(self.pos < n);
        self.pos = self.pos + 1;
    }

    fn skip_blanks(&mut self)
        requires
            old(self).wf(),
        ensures
            final(self).wf(),
            final(self).chars@ == old(self).chars@,
            final(self).finished == old(self).finished,
            final(self).pos == skip_blank(old(self).chars@, old(self).pos as int),
    {
        let ghost s = self.chars@;
        let ghost start_pos = self.pos as int;
        let mut in_comment = false;
        while self.pos < self.chars.len()
            invariant
                self.wf(),
                self.chars@ == s,
                self.finished == old(self).finished,
                start_pos <= self.pos,
                skip_blank(s, start_pos) == if in_comment {
                    skip_comment(s, self.pos as int)
                } else {
                    skip_blank(s, self.pos as int)
                },
            ensures
                self.wf(),
                self.chars@ == s,
                self.finished == old(self).finished,
                self.pos == skip_blank(s, start_pos),
            decreases s.len() - self.pos,
        {
            let c = self.chars[self.pos];
            if in_comment {
                if c == '\n' {
                    in_comment = false;
                }
                self.advance();
            } else if blank_char(c) {
                self.advance();
            } else if c == ';' {
                in_comment = true;
                self.advance();
            } else {
                break;
            }
        }
    }

    fn lex_number(&mut self) -> (r: Option<Spanned<Token, usize, LexicalError>>)
        requires
            old(self).wf(),
            !old(self).finished,
            old(self).pos < old(self).chars@.len(),
            is_digit(old(self).chars@[old(self).pos as int]),
        ensures
            final(self).wf(),
            final(self).chars@ == old(self).chars@,
            reports(
                old(self).chars@,
                scan_at(old(self).chars@, old(self).pos as int),
                r,
                final(self).pos as int,
                final(self).finished,
            ),
    {
        let ghost s = self.chars@;
        let start = self.pos;
        let start_byte = self.bytes;
        let mut v: u64 = 0;
        let mut overflow = false;
        loop
            invariant_except_break
                !overflow,
            invariant
                self.wf(),
                self.chars@ == s,
                !self.finished,
                start <= self.pos <= s.len(),
                v == digits_value(s, start as int, self.pos as int),
                v <= u32::MAX,
                digits_end(s, start as int) == digits_end(s, self.pos as int),
            ensures
                self.wf(),
                self.chars@ == s,
                !self.finished,
                overflow ==> digits_value(s, start as int, digits_end(s, start as int)) > u32::MAX,
                !overflow ==> v == digits_value(s, start as int, self.pos as int) && v <= u32::MAX
                    && self.pos == digits_end(s, start as int),
            decreases s.len() - self.pos,
        {
            if self.pos >= self.chars.len() || !digit_char(self.chars[self.pos]) {
                break;
            }
            let d = (self.chars[self.pos] as u32 - '0' as u32) as u64;
            let w = v * 10 + d;
            if w > u32::MAX as u64 {
                proof {
                    lemma_digits_end_ge(s, self.pos + 1);
                    lemma_digits_grow(s, start as int, self.pos + 1, digits_end(s, start as int));
                }
                overflow = true;
                break;
            }
            v = w;
            self.advance();
        }
        if overflow {
            self.finished = true;
            return Some(Err(LexicalError::InvalidToken { offset: start_byte }));
        }
        Some(Ok((start_byte, Token::LineNumber(v as u32), self.bytes)))
    }

    fn lex_string(&mut self) -> (r: Option<Spanned<Token, usize, LexicalError>>)
        requires
            old(self).wf(),
            !old(self).finished,
            old(self).pos < old(self).chars@.len(),
            old(self).chars@[old(self).pos as int] == '\'',
        ensures
            final(self).wf(),
            final(self).chars@ == old(self).chars@,
            reports(
                old(self).chars@,
                scan_at(old(self).chars@, old(self).pos as int),
                r,
                final(self).pos as int,
                final(self).finished,
            ),
    {
        let ghost s = self.chars@;
        let start = self.pos;
        let start_byte = self.bytes;
        let mut lexeme = String::new();
        push_char(&mut lexeme, '\'');
        self.advance();
        proof {
            assert(lexeme@ =~= s.subrange(start as int, self.pos as int));
        }
        while self.pos < self.chars.len() && self.chars[self.pos] != '\''
            invariant
                self.wf(),
                self.chars@ == s,
                !self.finished,
                start + 1 <= self.pos <= s.len(),
                s[start as int] == '\'',
                lexeme@ == s.subrange(start as int, self.pos as int),
                quote_end(s, start + 1) == quote_end(s, self.pos as int),
            decreases s.len() - self.pos,
        {
            push_char(&mut lexeme, self.chars[self.pos]);
            self.advance();
            proof {
                assert(lexeme@ =~= s.subrange(start as int, self.pos as int));
            }
        }
        if self.pos >= self.chars.len() {
            self.finished = true;
            return Some(Err(LexicalError::InvalidToken { offset: start_byte }));
        }
        push_char(&mut lexeme, '\'');
        self.advance();
        proof {
            assert(lexeme@ =~= s.subrange(start as int, self.pos as int));
        }
        let text = unquote(lexeme.as_str());
        proof {
            assert(text@ =~= s.subrange(start + 1, self.pos - 1));
        }
        Some(Ok((start_byte, Token::String(text), self.bytes)))
    }

    fn lex_identifier(&mut self) -> (r: Option<Spanned<Token, usize, LexicalError>>)
        requires
            old(self).wf(),
            !old(self).finished,
            old(self).pos < old(self).chars@.len(),
            is_ident_start(old(self).chars@[old(self).pos as int]),
        ensures
            final(self).wf(),
            final(self).chars@ == old(self).chars@,
            reports(
                old(self).chars@,
                scan_at(old(self).chars@, old(self).pos as int),
                r,
                final(self).pos as int,
                final(self).finished,
            ),
    {
        let ghost s = self.chars@;
        let start = self.pos;
        let start_byte = self.bytes;
        let mut name = String::new();
        while self.pos < self.chars.len() && ident_char(self.chars[self.pos])
            invariant
                self.wf(),
                self.chars@ == s,
                !self.finished,
                start <= self.pos <= s.len(),
                name@ == s.subrange(start as int, self.pos as int),
                ident_end(s, start as int) == ident_end(s, self.pos as int),
            decreases s.len() - self.pos,
        {
            push_char(&mut name, self.chars[self.pos]);
            self.advance();
            proof {
                assert(name@ =~= s.subrange(start as int, self.pos as int));
            }
        }
        Some(Ok((start_byte, Token::Identifier(name), self.bytes)))
    }

    fn lex_escape(&mut self) -> (r: Option<Spanned<Token, usize, LexicalError>>)
        requires
            old(self).wf(),
            !old(self).finished,
            old(self).pos < old(self).chars@.len(),
            old(self).chars@[old(self).pos as int] == '\\',
        ensures
            final(self).wf(),
            final(self).chars@ == old(self).chars@,
            reports(
                old(self).chars@,
                scan_at(old(self).chars@, old(self).pos as int),
                r,
                final(self).pos as int,
                final(self).finished,
            ),
    {
        let ghost s = self.chars@;
        let start = self.pos;
        let start_byte = self.bytes;
        if start >= self.chars.len() - 1 || !letter_char(self.chars[start + 1]) {
            self.finished = true;
            return Some(Err(LexicalError::InvalidToken { offset: start_byte }));
        }
        let mut text = String::new();
        push_char(&mut text, '\\');
        self.advance();
        push_char(&mut text, self.chars[self.pos]);
        self.advance();
        if self.pos < self.chars.len() && hex_char(self.chars[self.pos]) {
            push_char(&mut text, self.chars[self.pos]);
            self.advance();
            if self.pos < self.chars.len() && hex_char(self.chars[self.pos]) {
                push_char(&mut text, self.chars[self.pos]);
                self.advance();
            }
        }
        proof {
            assert(text@ =~= s.subrange(start as int, self.pos as int));
        }
        Some(Ok((start_byte, Token::EscapeSequence(text), self.bytes)))
    }

    /// The next token with its byte span; `None` once the text is used up or after a failure.
    pub fn next(&mut self) -> (r: Option<Spanned<Token, usize, LexicalError>>)
        requires
            old(self).wf(),
        ensures
            final(self).wf(),
            final(self).text() == old(self).text(),
            old(self).is_finished() ==> r is None && final(self).is_finished(),
            !old(self).is_finished() ==> reports(
                old(self).text(),
                scan(old(self).text(), old(self).position()),
                r,
                final(self).position(),
                final(self).is_finished(),
            ),
    {
        if self.finished {
            return None;
        }
        self.skip_blanks();
        if self.pos >= self.chars.len() {
            self.finished = true;
            return None;
        }
        let start_byte = self.bytes;
        let c = self.chars[self.pos];
        match punctuation_token(c) {
            Some(t) => {
                self.advance();
                return Some(Ok((start_byte, t, self.bytes)));
            },
            None => {},
        }
        if digit_char(c) {
            self.lex_number()
        } else if c == '\'' {
            self.lex_string()
        } else if ident_start_char(c) {
            self.lex_identifier()
        } else if c == '\\' {
            self.lex_escape()
        } else {
            self.finished = true;
            Some(Err(LexicalError::InvalidToken { offset: start_byte }))
        }
    }
}

} // verus!
