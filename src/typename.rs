use vstd::prelude::*;
use crate::token::Token;

verus! {

#[derive(Clone, Copy, Debug, PartialEq, Eq, Structural)]
pub enum StorageClass {
    Static,
}

#[derive(Clone, Copy, Debug, PartialEq, Eq, Structural)]
pub enum Mutability {
    Const,
    Mutable,
}

#[derive(Clone, Copy, Debug, PartialEq, Eq, Structural)]
pub enum SignedFlag {
    Signed,
    Unsigned,
}

#[derive(Clone, Copy, Debug, PartialEq, Eq, Structural)]
pub enum SizeModifier {
    Short,
    Long,
    LongLong,
}

#[derive(Clone, Copy, Debug, PartialEq, Eq, Structural)]
pub enum PrimitiveType {
    Char,
    Int,
}

/// A resolved scalar type: `void`, or an integer of a signedness and a byte width.
#[derive(Clone, Copy, Debug, PartialEq, Eq, Structural)]
pub enum Typename {
    Void,
    Integer(SignedFlag, usize),
}

/// Why a sequence of type keywords does not name a type.
#[derive(Clone, Copy, Debug, PartialEq, Eq, Structural)]
pub enum TypeError {
    /// `signed` or `unsigned` given twice.
    DuplicateSign,
    /// `short` given twice, or `short` together with `long`.
    ShortAndLong,
    /// `long long long`.
    TooLong,
    /// Two base types (`char`, `int`) in one declaration.
    DuplicateBase,
    /// `void` together with any other keyword.
    VoidCombined,
    /// `char` together with `short` or `long`.
    CharWithSize,
    /// No keyword that names a type at all.
    Missing,
}

/// A well-formed type: integers are 1, 2, 4 or 8 bytes wide.
pub open spec fn typename_wf(t: Typename) -> bool {
    match t {
        Typename::Void => true,
        Typename::Integer(_, size) => size == 1 || size == 2 || size == 4 || size == 8,
    }
}

/// Byte size of a type; `void` occupies no storage.
pub open spec fn size_of(t: Typename) -> nat {
    match t {
        Typename::Void => 0,
        Typename::Integer(_, size) => size as nat,
    }
}

/// The keywords seen so far while reading a type specifier.
pub struct TypeWords {
    pub sign: Option<SignedFlag>,
    pub size: Option<SizeModifier>,
    pub base: Option<PrimitiveType>,
}

/// Width in bytes of a base type under a size modifier (`long` keeps `int` at four bytes).
pub open spec fn width_of(base: PrimitiveType, size: Option<SizeModifier>) -> Result<usize, TypeError> {
    match base {
        PrimitiveType::Char => if size is Some {
            Err(TypeError::CharWithSize)
        } else {
            Ok(1usize)
        },
        PrimitiveType::Int => match size {
            None => Ok(4usize),
            Some(SizeModifier::Short) => Ok(2usize),
            Some(SizeModifier::Long) => Ok(4usize),
            Some(SizeModifier::LongLong) => Ok(8usize),
        },
    }
}

/// The type named once every keyword has been read: a missing base type is `int`
/// when a sign or a size was given, and signedness defaults to signed.
pub open spec fn finish_type(w: TypeWords) -> Result<Typename, TypeError> {
    let base = match w.base {
        Some(b) => Some(b),
        None => if w.sign is Some || w.size is Some {
            Some(PrimitiveType::Int)
        } else {
            None
        },
    };
    match base {
        None => Err(TypeError::Missing),
        Some(b) => match width_of(b, w.size) {
            Err(e) => Err(e),
            Ok(width) => Ok(
                Typename::Integer(
                    match w.sign {
                        Some(s) => s,
                        None => SignedFlag::Signed,
                    },
                    width,
                ),
            ),
        },
    }
}

/// Reads the keywords of `toks` from index `i` on, left to right, failing at the first
/// keyword that conflicts with those before it. Tokens that are not type keywords are
/// passed over.
pub open spec fn scan_type(toks: Seq<Token>, i: int, w: TypeWords) -> Result<Typename, TypeError>
    decreases toks.len() - i,
{
    if i < 0 || i >= toks.len() {
        finish_type(w)
    } else {
        match toks[i] {
            Token::Signed | Token::Unsigned => if w.sign is Some {
                Err(TypeError::DuplicateSign)
            } else {
                let s = if toks[i] is Signed {
                    SignedFlag::Signed
                } else {
                    SignedFlag::Unsigned
                };
                scan_type(toks, i + 1, TypeWords { sign: Some(s), ..w })
            },
            Token::Short => if w.size is Some {
                Err(TypeError::ShortAndLong)
            } else {
                scan_type(toks, i + 1, TypeWords { size: Some(SizeModifier::Short), ..w })
            },
            Token::Long => match w.size {
                None => scan_type(toks, i + 1, TypeWords { size: Some(SizeModifier::Long), ..w }),
                Some(SizeModifier::Short) => Err(TypeError::ShortAndLong),
                Some(SizeModifier::Long) => scan_type(
                    toks,
                    i + 1,
                    TypeWords { size: Some(SizeModifier::LongLong), ..w },
                ),
                Some(SizeModifier::LongLong) => Err(TypeError::TooLong),
            },
            Token::Char | Token::Int => if w.base is Some {
                Err(TypeError::DuplicateBase)
            } else {
                let b = if toks[i] is Char {
                    PrimitiveType::Char
                } else {
                    PrimitiveType::Int
                };
                scan_type(toks, i + 1, TypeWords { base: Some(b), ..w })
            },
            Token::Void => if w.sign is Some || w.size is Some || toks.len() > 1 {
                Err(TypeError::VoidCombined)
            } else {
                Ok(Typename::Void)
            },
            _ => scan_type(toks, i + 1, w),
        }
    }
}

/// The type that a whole list of type keywords names.
pub open spec fn spec_parse_typename(toks: Seq<Token>) -> Result<Typename, TypeError> {
    scan_type(toks, 0, TypeWords { sign: None, size: None, base: None })
}

/// Resolves a list of type-specifier keywords, in any order, to a type.
pub fn parse_typename(token_list: Vec<Token>) -> (r: Result<Typename, TypeError>)
    ensures
        r == spec_parse_typename(token_list@),
        r matches Ok(t) ==> typename_wf(t),
{
    let mut sign: Option<SignedFlag> = None;
    let mut size: Option<SizeModifier> = None;
    let mut base: Option<PrimitiveType> = None;
    let n = token_list.len();
    let mut i: usize = 0;
    while i < n
        invariant
            n == token_list@.len(),
            0 <= i <= n,
            spec_parse_typename(token_list@) == scan_type(
                token_list@,
                i as int,
                TypeWords { sign, size, base },
            ),
        decreases n - i,
    {
        match &token_list[i] {
            Token::Signed => {
                if sign.is_some() {
                    return Err(TypeError::DuplicateSign);
                }
                sign = Some(SignedFlag::Signed);
            },
            Token::Unsigned => {
                if sign.is_some() {
                    return Err(TypeError::DuplicateSign);
                }
                sign = Some(SignedFlag::Unsigned);
            },
            Token::Short => {
                if size.is_some() {
                    return Err(TypeError::ShortAndLong);
                }
                size = Some(SizeModifier::Short);
            },
            Token::Long => {
                match size {
                    None => {
                        size = Some(SizeModifier::Long);
                    },
                    Some(SizeModifier::Short) => {
                        return Err(TypeError::ShortAndLong);
                    },
                    Some(SizeModifier::Long) => {
                        size = Some(SizeModifier::LongLong);
                    },
                    Some(SizeModifier::LongLong) => {
                        return Err(TypeError::TooLong);
                    },
                }
            },
            Token::Char => {
                if base.is_some() {
                    return Err(TypeError::DuplicateBase);
                }
                base = Some(PrimitiveType::Char);
            },
            Token::Int => {
                if base.is_some() {
                    return Err(TypeError::DuplicateBase);
                }
                base = Some(PrimitiveType::Int);
            },
            Token::Void => {
                if sign.is_some() || size.is_some() || n > 1 {
                    return Err(TypeError::VoidCombined);
                }
                return Ok(Typename::Void);
            },
            _ => {},
        }
        i += 1;
    }
    if base.is_none() && (sign.is_some() || size.is_some()) {
        base = Some(PrimitiveType::Int);
    }
    match base {
        None => Err(TypeError::Missing),
        Some(PrimitiveType::Char) => {
            if size.is_some() {
                Err(TypeError::CharWithSize)
            } else {
                Ok(Typename::Integer(resolve_sign(sign), 1))
            }
        },
        Some(PrimitiveType::Int) => {
            let width: usize = match size {
                None => 4,
                Some(SizeModifier::Short) => 2,
                Some(SizeModifier::Long) => 4,
                Some(SizeModifier::LongLong) => 8,
            };
            Ok(Typename::Integer(resolve_sign(sign), width))
        },
    }
}

fn resolve_sign(sign: Option<SignedFlag>) -> (r: SignedFlag)
    ensures
        r == (match sign {
            Some(s) => s,
            None => SignedFlag::Signed,
        }),
{
    match sign {
        Some(s) => s,
        None => SignedFlag::Signed,
    }
}

/// Byte size of a type.
pub fn sizeof(t: &Typename) -> (r: usize)
    ensures
        r == size_of(*t),
{
    match t {
        Typename::Void => 0,
        Typename::Integer(_, size) => *size,
    }
}

} // verus!
