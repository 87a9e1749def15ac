use vstd::prelude::*;

verus! {

/// A lexical token of the source language.
#[derive(Clone, Debug)]
pub enum Token {
    // symbols
    Plus,
    Minus,
    Asterisk,
    Slash,
    LeftParen,
    RightParen,
    Lt,
    Gt,
    Equal,
    Exclamation,
    Semicolon,
    LeftCurl,
    RightCurl,
    Comma,
    // literal
    Num(i32),
    // identifier
    Identity(String),
    // reserved keywords
    Signed,
    Unsigned,
    Short,
    Long,
    Void,
    Boolean,
    Char,
    Int,
    Return,
    If,
    Else,
    For,
    While,
    // end of input
    Eof,
}

/// True for the keywords that may make up a type specifier.
pub open spec fn is_type_keyword(t: Token) -> bool {
    match t {
        Token::Signed | Token::Unsigned | Token::Short | Token::Long | Token::Void | Token::Char
        | Token::Int => true,
        _ => false,
    }
}

impl Token {
    /// A token equal to this one.
    pub fn copied(&self) -> (r: Token)
        ensures
            r == *self,
    {
        match self {
            Token::Num(n) => Token::Num(*n),
            Token::Identity(name) => Token::Identity(name.clone()),
            Token::Plus => Token::Plus,
            Token::Minus => Token::Minus,
            Token::Asterisk => Token::Asterisk,
            Token::Slash => Token::Slash,
            Token::LeftParen => Token::LeftParen,
            Token::RightParen => Token::RightParen,
            Token::Lt => Token::Lt,
            Token::Gt => Token::Gt,
            Token::Equal => Token::Equal,
            Token::Exclamation => Token::Exclamation,
            Token::Semicolon => Token::Semicolon,
            Token::LeftCurl => Token::LeftCurl,
            Token::RightCurl => Token::RightCurl,
            Token::Comma => Token::Comma,
            Token::Signed => Token::Signed,
            Token::Unsigned => Token::Unsigned,
            Token::Short => Token::Short,
            Token::Long => Token::Long,
            Token::Void => Token::Void,
            Token::Boolean => Token::Boolean,
            Token::Char => Token::Char,
            Token::Int => Token::Int,
            Token::Return => Token::Return,
            Token::If => Token::If,
            Token::Else => Token::Else,
            Token::For => Token::For,
            Token::While => Token::While,
            Token::Eof => Token::Eof,
        }
    }

    /// The value of a number token; `None` for any other token.
    pub fn expect_num(&self) -> (r: Option<i32>)
        ensures
            r == (match *self {
                Token::Num(n) => Some(n),
                _ => None::<i32>,
            }),
    {
        match self {
            Token::Num(n) => Some(*n),
            _ => None,
        }
    }

    pub fn is_leftparen(&self) -> (r: bool)
        ensures
            r == (*self is LeftParen),
    {
        match self {
            Token::LeftParen => true,
            _ => false,
        }
    }

    pub fn is_rightparen(&self) -> (r: bool)
        ensures
            r == (*self is RightParen),
    {
        match self {
            Token::RightParen => true,
            _ => false,
        }
    }

    pub fn is_semicolon(&self) -> (r: bool)
        ensures
            r == (*self is Semicolon),
    {
        match self {
            Token::Semicolon => true,
            _ => false,
        }
    }

    pub fn is_leftcurl(&self) -> (r: bool)
        ensures
            r == (*self is LeftCurl),
    {
        match self {
            Token::LeftCurl => true,
            _ => false,
        }
    }

    pub fn is_rightcurl(&self) -> (r: bool)
        ensures
            r == (*self is RightCurl),
    {
        match self {
            Token::RightCurl => true,
            _ => false,
        }
    }

    pub fn is_comma(&self) -> (r: bool)
        ensures
            r == (*self is Comma),
    {
        match self {
            Token::Comma => true,
            _ => false,
        }
    }

    pub fn is_identity(&self) -> (r: bool)
        ensures
            r == (*self is Identity),
    {
        match self {
            Token::Identity(_) => true,
            _ => false,
        }
    }

    /// The name carried by an identifier token; `None` for any other token.
    pub fn expect_identity(&self) -> (r: Option<String>)
        ensures
            match *self {
                Token::Identity(name) => r == Some(name),
                _ => r is None,
            },
    {
        match self {
            Token::Identity(name) => Some(name.clone()),
            _ => None,
        }
    }

    /// True when the token is one of the type-specifier keywords.
    pub fn is_type_keyword(&self) -> (r: bool)
        ensures
            r == is_type_keyword(*self),
    {
        match self {
            Token::Signed | Token::Unsigned | Token::Short | Token::Long | Token::Void
            | Token::Char | Token::Int => true,
            _ => false,
        }
    }
}

} // verus!
