use spirq_core::error::Error;
use spirq_core::spvasm::tokenizer::{Lit, Token, Tokenizer};

fn tokenize(code: &str) -> Result<Vec<Token>, Error> {
    Tokenizer::new(code).tokens()
}

fn float_of(text: &str) -> f64 {
    text.parse::<f64>().unwrap()
}

#[test]
fn test_tokenize_nothing() {
    let code = "";
    let tokens = tokenize(code).unwrap();
    assert_eq!(tokens.len(), 0);
}

#[test]
fn test_tokenize_integers() {
    let code = "0 1 2 3 4 5 6 7 8 9";
    let tokens = tokenize(code).unwrap();
    assert_eq!(tokens.len(), 10);
    for (i, token) in tokens.iter().enumerate() {
        match token {
            Token::Literal(Lit::Int(n)) => assert_eq!(*n, i as i64),
            _ => panic!("unexpected token: {:?}", token),
        }
    }
}

#[test]
fn test_tokenize_floats() {
    let code = "0.0 1.0 2.0 3.0 4.0 5.0 6.0 7.0";
    let tokens = tokenize(code).unwrap();
    assert_eq!(tokens.len(), 8);
    for (i, token) in tokens.iter().enumerate() {
        match token {
            Token::Literal(Lit::Float(n, _)) => assert_eq!(float_of(n), i as f64),
            _ => panic!("unexpected token: {:?}", token),
        }
    }
}

#[test]
fn test_tokenize_floats_with_exponent() {
    let code = "0.0e0 1.0e1 2.0e2 3.0e3 4.0e4 5.0e5 6.0e6 7.0e7";
    let tokens = tokenize(code).unwrap();
    assert_eq!(tokens.len(), 8);
    for (i, token) in tokens.iter().enumerate() {
        match token {
            Token::Literal(Lit::Float(n, _)) => {
                assert_eq!(float_of(n), (i as f64) * 10.0f64.powi(i as i32))
            }
            _ => panic!("unexpected token: {:?}", token),
        }
    }
}

#[test]
fn test_tokenize_floats_with_exponent_and_sign() {
    let code = "0.0e+0 1.0e-1 2.0e+2 3.0e-3 4.0e+4 5.0e-5 6.0e+6 7.0e-7";
    let tokens = tokenize(code).unwrap();
    assert_eq!(tokens.len(), 8);
    for (i, token) in tokens.iter().enumerate() {
        match token {
            Token::Literal(Lit::Float(n, _)) => assert_eq!(
                float_of(n),
                (i as f64) * 10.0f64.powi((i as i32) * (if i % 2 == 0 { 1 } else { -1 }))
            ),
            _ => panic!("unexpected token: {:?}", token),
        }
    }
}

#[test]
fn test_tokenize_hexadecimal_integers() {
    let code = "0x0 0x1 0x2 0x3 0x4 0x5 0x6 0x7";
    let tokens = tokenize(code).unwrap();
    assert_eq!(tokens.len(), 8);
    for (i, token) in tokens.iter().enumerate() {
        match token {
            Token::Literal(Lit::Int(n)) => assert_eq!(*n, i as i64),
            _ => panic!("unexpected token: {:?}", token),
        }
    }
}

#[test]
fn test_tokenize_hexadecimal_floats() {
    let code = "0x1.0p0 0x1.1p+1 0x1.2p-2 -0x1.3p3 -0x1.4p+4 -0x1.5p-5";
    let tokens = tokenize(code).unwrap();
    assert_eq!(tokens.len(), 6);
    for ((mantissa, exponent), token) in [(1.0, 0), (1.1, 1), (1.2, -2), (-1.3, 3), (-1.4, 4), (-1.5, -5)]
        .iter()
        .zip(tokens.iter())
    {
        match token {
            Token::Literal(Lit::Float(n, e)) => {
                assert_eq!(float_of(n), *mantissa);
                assert_eq!(*e, *exponent);
            }
            _ => panic!("unexpected token: {:?}", token),
        }
    }
}

#[test]
fn test_tokenize_string_literals() {
    let code = r#""" "a" "ab" "abc" "abcd""#;
    let tokens = tokenize(code).unwrap();
    assert_eq!(tokens.len(), 5);
    let expected = ["", "a", "ab", "abc", "abcd"];
    for (i, token) in tokens.iter().enumerate() {
        match token {
            Token::Literal(Lit::String(s)) => assert_eq!(s, expected[i]),
            _ => panic!("unexpected token: {:?}", token),
        }
    }
}

#[test]
fn test_tokenize_string_literals_escape() {
    let code = r#""\"\\\""#;
    let tokens = tokenize(code).unwrap();
    assert_eq!(tokens.len(), 1);
    let expected = r#""\""#;
    for (_, token) in tokens.iter().enumerate() {
        match token {
            Token::Literal(Lit::String(s)) => assert_eq!(s, expected),
            _ => panic!("unexpected token: {:?}", token),
        }
    }
}

#[test]
fn test_tokenize_identifiers() {
    let code = r#"a ab abc abcd abcd1 abcd12 abcd123"#;
    let tokens = tokenize(code).unwrap();
    assert_eq!(tokens.len(), 7);
    let expected = ["a", "ab", "abc", "abcd", "abcd1", "abcd12", "abcd123"];
    for (i, token) in tokens.iter().enumerate() {
        match token {
            Token::Ident(s) => assert_eq!(s, expected[i]),
            _ => panic!("unexpected token: {:?}", token),
        }
    }
}

#[test]
fn test_tokenize_comments() {
    let code = r#"; a
; ab
; abc
; abcd
; abcd1
; abcd12
; abcd123"#;
    let tokens = tokenize(code).unwrap();
    assert_eq!(tokens.len(), 13);
    let expected = [" a", " ab", " abc", " abcd", " abcd1", " abcd12", " abcd123"];
    for (i, token) in tokens.iter().enumerate() {
        if i % 2 == 0 {
            match token {
                Token::Comment(s) => assert_eq!(s, expected[i / 2]),
                _ => panic!("unexpected token: {:?}", token),
            }
        } else {
            match token {
                Token::NewLine => {}
                _ => panic!("unexpected token: {:?}", token),
            }
        }
    }
}

#[test]
fn test_tokenize_idref() {
    let code = r#"%1 %123 %abc %abc123"#;
    let tokens = tokenize(code).unwrap();
    assert_eq!(tokens.len(), 4);
    let expected = ["1", "123", "abc", "abc123"];
    for (i, token) in tokens.iter().enumerate() {
        match token {
            Token::IdRef(s) => assert_eq!(s, expected[i]),
            _ => panic!("unexpected token: {:?}", token),
        }
    }
}

#[test]
fn test_tokenize_eq() {
    let code = r#"="#;
    let tokens = tokenize(code).unwrap();
    assert_eq!(tokens.len(), 1);
    match tokens[0] {
        Token::Eq => {}
        _ => panic!("unexpected token: {:?}", tokens[0]),
    }
}

#[test]
fn tokenize_reports_unexpected_character() {
    assert!(matches!(tokenize("OpNop $"), Err(Error::UnexpectedCharacter('$'))));
}

#[test]
fn tokenize_rejects_integer_overflow() {
    assert!(matches!(tokenize("9223372036854775808"), Err(Error::InvalidNumber)));
    let tokens = tokenize("9223372036854775807").unwrap();
    assert!(matches!(tokens[0], Token::Literal(Lit::Int(i64::MAX))));
}

#[test]
fn tokenize_rejects_malformed_exponents() {
    assert!(matches!(tokenize("1.0e"), Err(Error::InvalidNumber)));
    assert!(matches!(tokenize("1.0e+-1"), Err(Error::InvalidNumber)));
    assert!(matches!(tokenize("0x1.0p"), Err(Error::InvalidNumber)));
    assert!(matches!(tokenize("0x"), Err(Error::InvalidNumber)));
    assert!(matches!(tokenize("0x1.0p99999999999"), Err(Error::InvalidNumber)));
}

#[test]
fn tokenize_lone_minus_ends_early() {
    assert!(matches!(tokenize("-"), Err(Error::UnexpectedEndOfInput)));
}

#[test]
fn tokenize_negative_numbers() {
    let tokens = tokenize("-42 -0x10 -2.5").unwrap();
    assert!(matches!(tokens[0], Token::Literal(Lit::Int(-42))));
    assert!(matches!(tokens[1], Token::Literal(Lit::Int(-16))));
    match &tokens[2] {
        Token::Literal(Lit::Float(m, 0)) => assert_eq!(m, "-02.5"),
        t => panic!("unexpected token: {:?}", t),
    }
}

#[test]
fn tokenize_instruction_line() {
    let tokens = tokenize("%1 = OpTypeInt 32 1 ; int\r\n").unwrap();
    assert_eq!(tokens.len(), 7);
    assert!(matches!(&tokens[0], Token::IdRef(s) if s == "1"));
    assert!(matches!(tokens[1], Token::Eq));
    assert!(matches!(&tokens[2], Token::Ident(s) if s == "OpTypeInt"));
    assert!(matches!(tokens[3], Token::Literal(Lit::Int(32))));
    assert!(matches!(tokens[4], Token::Literal(Lit::Int(1))));
    assert!(matches!(&tokens[5], Token::Comment(s) if s == " int\r"));
    assert!(matches!(tokens[6], Token::NewLine));
}

#[test]
fn tokenizer_next_steps_one_token() {
    let mut t = Tokenizer::new("a b");
    assert!(matches!(t.next(), Some(Ok(Token::Ident(s))) if s == "a"));
    assert!(matches!(t.next(), Some(Ok(Token::Ident(s))) if s == "b"));
    assert!(t.next().is_none());
}

#[test]
fn tokenize_unterminated_string_takes_the_rest() {
    let tokens = tokenize("\"abc").unwrap();
    assert!(matches!(&tokens[0], Token::Literal(Lit::String(s)) if s == "abc"));
}
