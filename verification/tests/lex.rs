use oxid8::compiler::lex::InstructionType;
use oxid8::compiler::lex::Parser;
use oxid8::compiler::lex::Token;
use oxid8::compiler::lex::TokenType;

#[test]
fn test_parse_collect() {
    let test_op = "SNE V1, V4";
    let parser = Parser::new(test_op);
    let toks: Vec<Token> = parser.parse().collect();

    assert!(toks.len() == 6);
    assert!(toks[0].token_type == TokenType::Instruction(InstructionType::Sne));
    assert!(toks[1].token_type == TokenType::Whitespace);
    assert!(toks[2].token_type == TokenType::VRegister(1));
    assert!(toks[3].token_type == TokenType::Comma);
    assert!(toks[4].token_type == TokenType::Whitespace);
    assert!(toks[5].token_type == TokenType::VRegister(4));
}

#[test]
fn test_parse_odd_space() {
    let test_op = "SNE    V1,    V4   ";
    let parser = Parser::new(test_op);
    let toks: Vec<Token> = parser.parse().collect();

    assert!(toks.len() == 7);
    assert!(toks[0].token_type == TokenType::Instruction(InstructionType::Sne));
    assert!(toks[1].token_type == TokenType::Whitespace);
    assert!(toks[2].token_type == TokenType::VRegister(1));
    assert!(toks[3].token_type == TokenType::Comma);
    assert!(toks[4].token_type == TokenType::Whitespace);
    assert!(toks[5].token_type == TokenType::VRegister(4));
    assert!(toks[6].token_type == TokenType::Whitespace);
}

#[test]
fn tokens_carry_their_text_and_place() {
    let parser = Parser::new("sne v12,V4");
    let toks = parser.parse().collect();
    let texts: Vec<&[u8]> = toks.iter().map(|t| t.text).collect();
    assert_eq!(texts, vec![&b"sne"[..], &b" "[..], &b"v12"[..], &b","[..], &b"V4"[..]]);
    assert_eq!(toks[2].token_type, TokenType::VRegister(12));
    assert!(toks.iter().all(|t| t.line == 0 && t.column == 0));
}

#[test]
fn next_walks_the_text_token_by_token() {
    let parser = Parser::new("V1,");
    let mut tokens = parser.parse();
    assert_eq!(tokens.next().unwrap().token_type, TokenType::VRegister(1));
    assert_eq!(tokens.next().unwrap().token_type, TokenType::Comma);
    assert!(tokens.next().is_none());
    assert!(tokens.next().is_none());
}

#[test]
fn empty_text_has_no_token() {
    let parser = Parser::new("");
    assert!(parser.parse().collect().is_empty());
}

#[test]
fn lexing_stops_at_a_word_it_does_not_know() {
    // `JUMP` is no word of the lexer; what follows it is not reached.
    let parser = Parser::new("V1 JUMP V2");
    let toks = parser.parse().collect();
    assert_eq!(toks.len(), 2);
    assert_eq!(toks[0].token_type, TokenType::VRegister(1));
    assert_eq!(toks[1].token_type, TokenType::Whitespace);
}

#[test]
fn lexing_stops_at_a_register_without_a_number() {
    let parser = Parser::new("VX, V1");
    assert!(parser.parse().collect().is_empty());
    let parser = Parser::new("V1 VAB");
    assert_eq!(parser.parse().collect().len(), 2);
}

#[test]
fn lexing_stops_outside_ascii() {
    let parser = Parser::new("V1 \u{e9}V2");
    let toks = parser.parse().collect();
    assert_eq!(toks.len(), 2);
}

#[test]
fn every_kind_of_white_space_joins_one_token() {
    let parser = Parser::new(" \t\r\n\u{b}\u{c}V3");
    let toks = parser.parse().collect();
    assert_eq!(toks.len(), 2);
    assert_eq!(toks[0].token_type, TokenType::Whitespace);
    assert_eq!(toks[0].text.len(), 6);
    assert_eq!(toks[1].token_type, TokenType::VRegister(3));
}

#[test]
fn a_minus_sign_starts_a_word() {
    // Any two bytes make a register if the second is a digit.
    let parser = Parser::new("V2-5");
    let toks = parser.parse().collect();
    assert_eq!(toks.len(), 2);
    assert_eq!(toks[0].token_type, TokenType::VRegister(2));
    assert_eq!(toks[1].token_type, TokenType::VRegister(5));
    assert_eq!(toks[1].text, &b"-5"[..]);
}

#[test]
fn a_plus_sign_may_stand_before_the_number() {
    let parser = Parser::new("V+7");
    let toks = parser.parse().collect();
    assert_eq!(toks.len(), 1);
    assert_eq!(toks[0].token_type, TokenType::VRegister(7));
}

#[test]
fn token_new_keeps_its_arguments() {
    let token = Token::new(TokenType::Comma, b",", 3, 9);
    assert_eq!(token.token_type, TokenType::Comma);
    assert_eq!(token.text, &b","[..]);
    assert_eq!((token.line, token.column), (3, 9));
}
