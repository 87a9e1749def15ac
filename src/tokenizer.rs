use vstd::prelude::*;
use vstd::string::*;
use crate::token::Token;

verus! {

/// White space between tokens.
pub open spec fn is_space(c: char) -> bool {
    c == ' ' || c == '\t' || c == '\n' || c == '\r' || c == '\x0b' || c == '\x0c'
}

pub open spec fn is_digit(c: char) -> bool {
    '0' <= c <= '9'
}

/// A character that may begin an identifier or keyword.
pub open spec fn is_ident_start(c: char) -> bool {
    ('a' <= c <= 'z') || c == '_'
}

/// A character that may continue an identifier or keyword.
pub open spec fn is_ident_char(c: char) -> bool {
    is_ident_start(c) || ('A' <= c <= 'Z') || is_digit(c)
}

/// The token that a one-character symbol stands for.
pub open spec fn symbol_token(c: char) -> Option<Token> {
    if c == '+' {
        Some(Token::Plus)
    } else if c == '-' {
        Some(Token::Minus)
    } else if c == '*' {
        Some(Token::Asterisk)
    } else if c == '/' {
        Some(Token::Slash)
    } else if c == '(' {
        Some(Token::LeftParen)
    } else if c == ')' {
        Some(Token::RightParen)
    } else if c == '<' {
        Some(Token::Lt)
    } else if c == '>' {
        Some(Token::Gt)
    } else if c == '=' {
        Some(Token::Equal)
    } else if c == '!' {
        Some(Token::Exclamation)
    } else if c == ';' {
        Some(Token::Semicolon)
    } else if c == '{' {
        Some(Token::LeftCurl)
    } else if c == '}' {
        Some(Token::RightCurl)
    } else if c == ',' {
        Some(Token::Comma)
    } else {
        None
    }
}

/// The keyword token that a word stands for, if it is a keyword.
pub open spec fn keyword(w: Seq<char>) -> Option<Token> {
    if w == "return"@ {
        Some(Token::Return)
    } else if w == "signed"@ {
        Some(Token::Signed)
    } else if w == "unsigned"@ {
        Some(Token::Unsigned)
    } else if w == "short"@ {
        Some(Token::Short)
    } else if w == "long"@ {
        Some(Token::Long)
    } else if w == "void"@ {
        Some(Token::Void)
    } else if w == "char"@ {
        Some(Token::Char)
    } else if w == "int"@ {
        Some(Token::Int)
    } else if w == "if"@ {
        Some(Token::If)
    } else if w == "else"@ {
        Some(Token::Else)
    } else if w == "for"@ {
        Some(Token::For)
    } else if w == "while"@ {
        Some(Token::While)
    } else {
        None
    }
}

/// End of the run of digits that starts at `i`.
pub open spec fn digit_run_end(s: Seq<char>, i: int) -> int
    decreases s.len() - i,
{
    if 0 <= i < s.len() && is_digit(s[i]) {
        digit_run_end(s, i + 1)
    } else {
        i
    }
}

/// End of the run of identifier characters that starts at `i`.
pub open spec fn ident_run_end(s: Seq<char>, i: int) -> int
    decreases s.len() - i,
{
    if 0 <= i < s.len() && is_ident_char(s[i]) {
        ident_run_end(s, i + 1)
    } else {
        i
    }
}

/// The value of a sequence of decimal digits.
pub open spec fn digits_value(d: Seq<char>) -> nat
    decreases d.len(),
{
    if d.len() == 0 {
        0
    } else {
        digits_value(d.drop_last()) * 10 + (d.last() as nat - '0' as nat) as nat
    }
}

/// The number literal that starts at `i`.
pub open spec fn literal_value(s: Seq<char>, i: int) -> nat {
    digits_value(s.subrange(i, digit_run_end(s, i)))
}

/// A token starts at `i`: a symbol, a literal that fits in `i32`, or a word.
pub open spec fn starts_token(s: Seq<char>, i: int) -> bool {
    0 <= i < s.len() && (symbol_token(s[i]) is Some || (is_digit(s[i]) && literal_value(s, i)
        <= i32::MAX) || is_ident_start(s[i]))
}

/// Where the token that starts at `i` ends.
pub open spec fn token_end(s: Seq<char>, i: int) -> int {
    if symbol_token(s[i]) is Some {
        i + 1
    } else if is_digit(s[i]) {
        digit_run_end(s, i)
    } else {
        ident_run_end(s, i)
    }
}

/// `t` is the token read from the characters that start at `i`.
pub open spec fn token_read(t: Token, s: Seq<char>, i: int) -> bool {
    if symbol_token(s[i]) is Some {
        t == symbol_token(s[i])->0
    } else if is_digit(s[i]) {
        t == Token::Num(literal_value(s, i) as i32)
    } else {
        let w = s.subrange(i, ident_run_end(s, i));
        match keyword(w) {
            Some(k) => t == k,
            None => t matches Token::Identity(name) && name@ == w,
        }
    }
}

/// `toks` are the tokens of `s` from index `i` on. Reading stops at the end of the
/// text or at the first character that begins no token. (A token always ends past its
/// start and within the text; the last branch only makes that evident.)
pub open spec fn lexes(s: Seq<char>, i: int, toks: Seq<Token>) -> bool
    decreases s.len() - i,
{
    if i < 0 || i >= s.len() {
        toks.len() == 0
    } else if is_space(s[i]) {
        lexes(s, i + 1, toks)
    } else if !starts_token(s, i) {
        toks.len() == 0
    } else if i < token_end(s, i) <= s.len() {
        toks.len() > 0 && token_read(toks[0], s, i) && lexes(s, token_end(s, i), toks.drop_first())
    } else {
        false
    }
}

/// A cursor over the tokens of a source text.
#[derive(Clone)]
pub struct TokenIter {
    pub tokens: Vec<Token>,
    pub pos: usize,
}

impl TokenIter {
    /// The cursor stands within its tokens.
    pub open spec fn wf(&self) -> bool {
        self.pos <= self.tokens@.len()
    }

    /// The tokens not yet consumed.
    pub open spec fn rest(&self) -> Seq<Token> {
        self.tokens@.skip(self.pos as int)
    }

    /// Non-destructive look at the next token.
    pub fn peep(&self) -> (r: Option<&Token>)
        requires
            self.wf(),
        ensures
            self.pos < self.tokens@.len() ==> r == Some(&self.tokens@[self.pos as int]),
            self.pos >= self.tokens@.len() ==> r is None,
    {
        if self.pos < self.tokens.len() {
            Some(&self.tokens[self.pos])
        } else {
            None
        }
    }

    /// Non-destructive look at the token `k` places ahead of the next one.
    pub fn peep_at(&self, k: usize) -> (r: Option<&Token>)
        requires
            self.wf(),
        ensures
            self.pos + k < self.tokens@.len() ==> r == Some(&self.tokens@[self.pos + k]),
            self.pos + k >= self.tokens@.len() ==> r is None,
    {
        if k < self.tokens.len() - self.pos {
            Some(&self.tokens[self.pos + k])
        } else {
            None
        }
    }

    /// Consumes and returns the next token.
    pub fn next(&mut self) -> (r: Option<Token>)
        requires
            old(self).wf(),
        ensures
            final(self).wf(),
            final(self).tokens == old(self).tokens,
            old(self).pos < old(self).tokens@.len() ==> r == Some(
                old(self).tokens@[old(self).pos as int],
            ) && final(self).pos == old(self).pos + 1,
            old(self).pos >= old(self).tokens@.len() ==> r is None && final(self).pos
                == old(self).pos,
    {
        if self.pos < self.tokens.len() {
            let t = self.tokens[self.pos].copied();
            self.pos = self.pos + 1;
            Some(t)
        } else {
            None
        }
    }

    /// Skips `n` tokens, or all that are left if fewer remain.
    pub fn ignore(&mut self, n: usize)
        requires
            old(self).wf(),
        ensures
            final(self).wf(),
            final(self).tokens == old(self).tokens,
            final(self).pos == if n < old(self).tokens@.len() - old(self).pos {
                old(self).pos + n
            } else {
                old(self).tokens@.len() as int
            },
    {
        if n < self.tokens.len() - self.pos {
            self.pos = self.pos + n;
        } else {
            self.pos = self.tokens.len();
        }
    }
}

/// The characters of `s`, one element each.
fn chars_of(s: &str) -> (r: Vec<char>)
    ensures
        r@ == s@,
{
    let n = s.unicode_len();
    let mut v: Vec<char> = Vec::new();
    let mut i: usize = 0;
    while i < n
        invariant
            n == s@.len(),
            i <= n,
            v@ == s@.subrange(0, i as int),
        decreases n - i,
    {
        v.push(s.get_char(i));
        i += 1;
        assert(v@ =~= s@.subrange(0, i as int));
    }
    assert(v@ =~= s@);
    v
}

fn char_is_space(c: char) -> (r: bool)
    ensures
        r == is_space(c),
{
    c == ' ' || c == '\t' || c == '\n' || c == '\r' || c == '\x0b' || c == '\x0c'
}

fn char_is_digit(c: char) -> (r: bool)
    ensures
        r == is_digit(c),
{
    '0' <= c && c <= '9'
}

fn char_is_ident_char(c: char) -> (r: bool)
    ensures
        r == is_ident_char(c),
{
    ('a' <= c && c <= 'z') || c == '_' || ('A' <= c && c <= 'Z') || ('0' <= c && c <= '9')
}

fn symbol_of(c: char) -> (r: Option<Token>)
    ensures
        r == symbol_token(c),
{
    if c == '+' {
        Some(Token::Plus)
    } else if c == '-' {
        Some(Token::Minus)
    } else if c == '*' {
        Some(Token::Asterisk)
    } else if c == '/' {
        Some(Token::Slash)
    } else if c == '(' {
        Some(Token::LeftParen)
    } else if c == ')' {
        Some(Token::RightParen)
    } else if c == '<' {
        Some(Token::Lt)
    } else if c == '>' {
        Some(Token::Gt)
    } else if c == '=' {
        Some(Token::Equal)
    } else if c == '!' {
        Some(Token::Exclamation)
    } else if c == ';' {
        Some(Token::Semicolon)
    } else if c == '{' {
        Some(Token::LeftCurl)
    } else if c == '}' {
        Some(Token::RightCurl)
    } else if c == ',' {
        Some(Token::Comma)
    } else {
        None
    }
}

fn keyword_of(w: &String) -> (r: Option<Token>)
    ensures
        r == keyword(w@),
{
    if *w == String::from_str("return") {
        Some(Token::Return)
    } else if *w == String::from_str("signed") {
        Some(Token::Signed)
    } else if *w == String::from_str("unsigned") {
        Some(Token::Unsigned)
    } else if *w == String::from_str("short") {
        Some(Token::Short)
    } else if *w == String::from_str("long") {
        Some(Token::Long)
    } else if *w == String::from_str("void") {
        Some(Token::Void)
    } else if *w == String::from_str("char") {
        Some(Token::Char)
    } else if *w == String::from_str("int") {
        Some(Token::Int)
    } else if *w == String::from_str("if") {
        Some(Token::If)
    } else if *w == String::from_str("else") {
        Some(Token::Else)
    } else if *w == String::from_str("for") {
        Some(Token::For)
    } else if *w == String::from_str("while") {
        Some(Token::While)
    } else {
        None
    }
}

proof fn lemma_digit_run_end(s: Seq<char>, i: int)
    requires
        0 <= i <= s.len(),
    ensures
        i <= digit_run_end(s, i) <= s.len(),
        forall|k: int| i <= k < digit_run_end(s, i) ==> is_digit(#[trigger] s[k]),
        digit_run_end(s, i) < s.len() ==> !is_digit(s[digit_run_end(s, i)]),
    decreases s.len() - i,
{
    if i < s.len() && is_digit(s[i]) {
        lemma_digit_run_end(s, i + 1);
    }
}

proof fn lemma_ident_run_end(s: Seq<char>, i: int)
    requires
        0 <= i <= s.len(),
    ensures
        i <= ident_run_end(s, i) <= s.len(),
        forall|k: int| i <= k < ident_run_end(s, i) ==> is_ident_char(#[trigger] s[k]),
        ident_run_end(s, i) < s.len() ==> !is_ident_char(s[ident_run_end(s, i)]),
    decreases s.len() - i,
{
    if i < s.len() && is_ident_char(s[i]) {
        lemma_ident_run_end(s, i + 1);
    }
}

/// Scans the digit run at `i`, with its value capped just past `i32::MAX`.
fn scan_digits(chars: &Vec<char>, i: usize) -> (r: (usize, u64))
    requires
        i < chars@.len(),
    ensures
        r.0 == digit_run_end(chars@, i as int),
        r.1 <= i32::MAX ==> r.1 == literal_value(chars@, i as int),
        r.1 > i32::MAX ==> literal_value(chars@, i as int) > i32::MAX,
{
    let ghost s = chars@;
    let n = chars.len();
    let mut j = i;
    let mut v: u64 = 0;
    while j < n && char_is_digit(chars[j])
        invariant
            s == chars@,
            n == s.len(),
            i <= j <= n,
            digit_run_end(s, i as int) == digit_run_end(s, j as int),
            v <= i32::MAX ==> v == digits_value(s.subrange(i as int, j as int)),
            v > i32::MAX ==> digits_value(s.subrange(i as int, j as int)) > i32::MAX,
            v <= 10 * (i32::MAX as u64) + 9,
        decreases n - j,
    {
        let d = chars[j];
        let ghost prev = s.subrange(i as int, j as int);
        let ghost next = s.subrange(i as int, j + 1);
        assert(next.drop_last() =~= prev);
        assert(next.last() == d);
        if v <= i32::MAX as u64 {
            v = v * 10 + (d as u64 - '0' as u64);
        }
        j += 1;
    }
    (j, v)
}

/// Reads the token that starts at `i`, a character that is not white space.
fn read_token(s: &str, chars: &Vec<char>, i: usize) -> (r: Option<(Token, usize)>)
    requires
        chars@ == s@,
        i < chars@.len(),
        !is_space(chars@[i as int]),
    ensures
        match r {
            None => !starts_token(s@, i as int),
            Some((t, e)) => starts_token(s@, i as int) && e == token_end(s@, i as int)
                && token_read(t, s@, i as int),
        },
{
    let n = chars.len();
    let c = chars[i];
    match symbol_of(c) {
        Some(t) => {
            return Some((t, i + 1));
        },
        None => {},
    }
    if char_is_digit(c) {
        let (e, v) = scan_digits(chars, i);
        if v > i32::MAX as u64 {
            return None;
        }
        return Some((Token::Num(v as i32), e));
    }
    if ('a' <= c && c <= 'z') || c == '_' {
        let mut e = i;
        while e < n && char_is_ident_char(chars[e])
            invariant
                n == chars@.len(),
                i <= e <= n,
                ident_run_end(chars@, i as int) == ident_run_end(chars@, e as int),
            decreases n - e,
        {
            e += 1;
        }
        proof {
            lemma_ident_run_end(chars@, i as int);
        }
        let w = String::from_str(s.substring_char(i, e));
        let t = match keyword_of(&w) {
            Some(k) => k,
            None => Token::Identity(w),
        };
        return Some((t, e));
    }
    None
}

/// Splits `s` after its leading run of decimal digits.
pub fn split_digit(s: &str) -> (r: (String, String))
    ensures
        r.0@ == s@.subrange(0, digit_run_end(s@, 0)),
        r.1@ == s@.subrange(digit_run_end(s@, 0), s@.len() as int),
{
    let chars = chars_of(s);
    let n = chars.len();
    let mut e: usize = 0;
    while e < n && char_is_digit(chars[e])
        invariant
            n == chars@.len(),
            chars@ == s@,
            e <= n,
            digit_run_end(s@, 0) == digit_run_end(s@, e as int),
        decreases n - e,
    {
        e += 1;
    }
    (String::from_str(s.substring_char(0, e)), String::from_str(s.substring_char(e, n)))
}

/// Splits `s` after its leading run of identifier characters.
pub fn split_identity(s: &str) -> (r: (String, String))
    ensures
        r.0@ == s@.subrange(0, ident_run_end(s@, 0)),
        r.1@ == s@.subrange(ident_run_end(s@, 0), s@.len() as int),
{
    let chars = chars_of(s);
    let n = chars.len();
    let mut e: usize = 0;
    while e < n && char_is_ident_char(chars[e])
        invariant
            n == chars@.len(),
            chars@ == s@,
            e <= n,
            ident_run_end(s@, 0) == ident_run_end(s@, e as int),
        decreases n - e,
    {
        e += 1;
    }
    (String::from_str(s.substring_char(0, e)), String::from_str(s.substring_char(e, n)))
}

/// Splits the text into its tokens and returns a cursor at the first.
pub fn tokenize(s: &str) -> (r: TokenIter)
    ensures
        r.pos == 0,
        lexes(s@, 0, r.tokens@),
{
    let chars = chars_of(s);
    let n = chars.len();
    let mut tokens: Vec<Token> = Vec::new();
    let mut i: usize = 0;
    while i < n
        invariant
            chars@ == s@,
            n == s@.len(),
            i <= n,
            forall|rest: Seq<Token>|
                lexes(s@, 0, tokens@ + rest) <==> #[trigger] lexes(s@, i as int, rest),
        decreases n - i,
    {
        let c = chars[i];
        if char_is_space(c) {
            i += 1;
            assert forall|rest: Seq<Token>|
                lexes(s@, 0, tokens@ + rest) <==> #[trigger] lexes(s@, i as int, rest) by {
                assert(lexes(s@, i - 1, rest) == lexes(s@, i as int, rest));
            }
        } else {
            match read_token(s, &chars, i) {
                None => {
                    assert(lexes(s@, i as int, seq![]));
                    assert(tokens@ + seq![] =~= tokens@);
                    return TokenIter { tokens, pos: 0 };
                },
                Some((t, e)) => {
                    proof {
                        lemma_digit_run_end(s@, i as int);
                        lemma_ident_run_end(s@, i as int);
                    }
                    let ghost old_tokens = tokens@;
                    let ghost tk = t;
                    tokens.push(t);
                    assert forall|rest: Seq<Token>|
                        lexes(s@, 0, tokens@ + rest) <==> #[trigger] lexes(s@, e as int, rest) by {
                        assert(tokens@ + rest =~= old_tokens + (seq![tk] + rest));
                        assert((seq![tk] + rest).drop_first() =~= rest);
                        assert((seq![tk] + rest)[0] == tk);
                        assert(lexes(s@, 0, old_tokens + (seq![tk] + rest)) <==> lexes(
                            s@,
                            i as int,
                            seq![tk] + rest,
                        ));
                    }
                    i = e;
                },
            }
        }
    }
    assert(lexes(s@, i as int, seq![]));
    assert(tokens@ + seq![] =~= tokens@);
    TokenIter { tokens, pos: 0 }
}

} // verus!
