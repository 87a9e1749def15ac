use minicc::token::Token;
use minicc::tokenizer::{split_digit, split_identity, tokenize};

fn is_num(t: &Token, n: i32) -> bool {
    match t {
        Token::Num(v) => *v == n,
        _ => false,
    }
}

#[test]
fn tokenizer_tokenize_test() {
    let prog = "1 + 2 + 3 + 4";
    let mut iter = tokenize(prog);
    let mut tokens = Vec::new();
    while let Some(t) = iter.next() {
        tokens.push(t);
    }
    assert_eq!(tokens.len(), 7);
    assert!(is_num(&tokens[0], 1));
    assert!(matches!(tokens[1], Token::Plus));
    assert!(is_num(&tokens[2], 2));
    assert!(matches!(tokens[3], Token::Plus));
    assert!(is_num(&tokens[4], 3));
    assert!(matches!(tokens[5], Token::Plus));
    assert!(is_num(&tokens[6], 4));
}

#[test]
fn tokenizer_clone_tokeniter_test() {
    let prog = "1 + 2 + 3 + 4";
    let mut token_iter = tokenize(prog);
    let token_iter_cp = token_iter.clone();
    token_iter.next();
    assert_eq!(token_iter.pos, 1);
    assert_eq!(token_iter_cp.pos, 0);
    assert!(is_num(token_iter_cp.peep().unwrap(), 1));
    assert!(matches!(token_iter.peep().unwrap(), Token::Plus));
}

#[test]
fn tokenize_test() {
    let prog = "1 + 2 + 3 + 4";
    let mut iter = tokenize(prog);
    let mut count = 0;
    let mut sum = 0;
    while let Some(t) = iter.next() {
        if let Some(n) = t.expect_num() {
            sum += n;
        } else {
            assert!(matches!(t, Token::Plus));
        }
        count += 1;
    }
    assert_eq!(count, 7);
    assert_eq!(sum, 10);
}

#[test]
fn clone_tokeniter_test() {
    let prog = "1 + 2 + 3 + 4";
    let mut token_iter = tokenize(prog);
    let mut token_iter_cp = token_iter.clone();
    token_iter.next();
    let mut original = 0;
    while token_iter.next().is_some() {
        original += 1;
    }
    let mut cloned = 0;
    while token_iter_cp.next().is_some() {
        cloned += 1;
    }
    assert_eq!(original, 6);
    assert_eq!(cloned, 7);
}

#[test]
fn is_leftparen_test() {
    let token = Token::LeftParen;
    assert!(token.is_leftparen(), "It's not a left paren");
    assert!(!Token::RightParen.is_leftparen());
}

#[test]
fn tokenize_keywords_and_names() {
    let mut iter = tokenize("int foo_1 = bar; return while");
    let mut tokens = Vec::new();
    while let Some(t) = iter.next() {
        tokens.push(t);
    }
    assert_eq!(tokens.len(), 7);
    assert!(matches!(tokens[0], Token::Int));
    assert_eq!(tokens[1].expect_identity(), Some("foo_1".to_string()));
    assert!(matches!(tokens[2], Token::Equal));
    assert_eq!(tokens[3].expect_identity(), Some("bar".to_string()));
    assert!(matches!(tokens[4], Token::Semicolon));
    assert!(matches!(tokens[5], Token::Return));
    assert!(matches!(tokens[6], Token::While));
}

#[test]
fn tokenize_stops_at_unknown_character() {
    let mut iter = tokenize("1 @ 2");
    assert!(is_num(&iter.next().unwrap(), 1));
    assert!(iter.next().is_none());
}

#[test]
fn tokenize_literal_beyond_i32_stops() {
    let mut iter = tokenize("2147483647 2147483648");
    assert!(is_num(&iter.next().unwrap(), 2147483647));
    assert!(iter.next().is_none());
}

#[test]
fn ignore_skips_at_most_what_is_left() {
    let mut iter = tokenize("a b c");
    iter.ignore(2);
    assert_eq!(iter.pos, 2);
    iter.ignore(5);
    assert_eq!(iter.pos, 3);
    assert!(iter.peep().is_none());
}

#[test]
fn token_predicates() {
    assert_eq!(Token::Num(7).expect_num(), Some(7));
    assert_eq!(Token::Plus.expect_num(), None);
    assert!(Token::Semicolon.is_semicolon());
    assert!(Token::LeftCurl.is_leftcurl());
    assert!(Token::RightCurl.is_rightcurl());
    assert!(Token::Comma.is_comma());
    assert!(Token::RightParen.is_rightparen());
    assert!(Token::Identity("x".to_string()).is_identity());
    assert!(!Token::Int.is_identity());
    assert_eq!(Token::Int.expect_identity(), None);
}

#[test]
fn split_leading_runs() {
    assert_eq!(split_digit("123abc"), ("123".to_string(), "abc".to_string()));
    assert_eq!(split_digit("abc"), ("".to_string(), "abc".to_string()));
    assert_eq!(split_digit("42"), ("42".to_string(), "".to_string()));
    assert_eq!(split_identity("foo_1+2"), ("foo_1".to_string(), "+2".to_string()));
    assert_eq!(split_identity(" x"), ("".to_string(), " x".to_string()));
}
