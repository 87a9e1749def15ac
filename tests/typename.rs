use minicc::register::Register;
use minicc::token::Token;
use minicc::typename::{parse_typename, sizeof, SignedFlag, TypeError, Typename};

#[test]
fn parse_test() {
    let test_type = vec![Token::Void];
    let typename = parse_typename(test_type);
    assert_eq!(typename, Ok(Typename::Void));
}

#[test]
fn typename_defaults_and_widths() {
    assert_eq!(parse_typename(vec![Token::Int]), Ok(Typename::Integer(SignedFlag::Signed, 4)));
    assert_eq!(parse_typename(vec![Token::Unsigned]), Ok(Typename::Integer(SignedFlag::Unsigned, 4)));
    assert_eq!(parse_typename(vec![Token::Signed]), Ok(Typename::Integer(SignedFlag::Signed, 4)));
    assert_eq!(parse_typename(vec![Token::Short, Token::Int]), Ok(Typename::Integer(SignedFlag::Signed, 2)));
    assert_eq!(parse_typename(vec![Token::Long, Token::Int]), Ok(Typename::Integer(SignedFlag::Signed, 4)));
    assert_eq!(
        parse_typename(vec![Token::Long, Token::Unsigned, Token::Long]),
        Ok(Typename::Integer(SignedFlag::Unsigned, 8))
    );
    assert_eq!(parse_typename(vec![Token::Char]), Ok(Typename::Integer(SignedFlag::Signed, 1)));
    assert_eq!(parse_typename(vec![Token::Int, Token::Unsigned]), Ok(Typename::Integer(SignedFlag::Unsigned, 4)));
}

#[test]
fn typename_conflicts() {
    assert_eq!(parse_typename(vec![Token::Signed, Token::Unsigned]), Err(TypeError::DuplicateSign));
    assert_eq!(parse_typename(vec![Token::Short, Token::Long]), Err(TypeError::ShortAndLong));
    assert_eq!(parse_typename(vec![Token::Long, Token::Short]), Err(TypeError::ShortAndLong));
    assert_eq!(parse_typename(vec![Token::Long, Token::Long, Token::Long]), Err(TypeError::TooLong));
    assert_eq!(parse_typename(vec![Token::Char, Token::Int]), Err(TypeError::DuplicateBase));
    assert_eq!(parse_typename(vec![Token::Void, Token::Int]), Err(TypeError::VoidCombined));
    assert_eq!(parse_typename(vec![Token::Unsigned, Token::Void]), Err(TypeError::VoidCombined));
    assert_eq!(parse_typename(vec![Token::Char, Token::Short]), Err(TypeError::CharWithSize));
    assert_eq!(parse_typename(vec![]), Err(TypeError::Missing));
}

#[test]
fn type_sizes() {
    assert_eq!(sizeof(&Typename::Integer(SignedFlag::Signed, 2)), 2);
    assert_eq!(sizeof(&Typename::Void), 0);
}

#[test]
fn register_names_by_width() {
    assert_eq!(Register::RAX.get_name(1), "al");
    assert_eq!(Register::RAX.get_name(8), "rax");
    assert_eq!(Register::RSI.get_name(1), "sil");
    assert_eq!(Register::RDI.get_name(4), "edi");
    assert_eq!(Register::RBP.get_name(2), "bp");
    assert_eq!(Register::Rn(8).get_name(4), "r8d");
    assert_eq!(Register::Rn(9).get_name(1), "r9b");
    assert_eq!(Register::Rn(15).get_name(8), "r15");
    assert_eq!(Register::Rn(10).get_name(2), "r10w");
}
