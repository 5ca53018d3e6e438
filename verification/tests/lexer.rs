use shush::lexer::{Lexer, Token};

#[test]
fn it_does_lex() {
    let mut lexer = Lexer::new();

    let input: String = "ls $PWD\n".to_string();
    for char in input.chars() {
        lexer.lex(char);
    }
    assert_eq!(3, lexer.lexed.len());
    let mut iter_lexed = lexer.lexed.iter();
    let first_token = &iter_lexed.next().unwrap().token;
    assert_eq!(first_token, &Token::Item);
    let second_token = &iter_lexed.next().unwrap();
    assert_eq!(second_token.content.as_ref().unwrap(), "PWD");
    let third_token = &iter_lexed.next().unwrap().token;
    assert_eq!(third_token, &Token::EOF);
}

#[test]
fn redirection_mark_is_its_own_token() {
    let mut lexer = Lexer::new();
    for c in "ls > out\n".chars() {
        lexer.lex(c);
    }
    let kinds: Vec<&Token> = lexer.lexed.iter().map(|t| &t.token).collect();
    assert_eq!(
        kinds,
        vec![&Token::Item, &Token::OutGreaterThan, &Token::Item, &Token::EOF],
    );
    assert_eq!(lexer.lexed[0].content.as_ref().unwrap(), "ls");
    assert!(lexer.lexed[1].content.is_none());
    assert_eq!(lexer.lexed[2].content.as_ref().unwrap(), "out");
}

#[test]
fn empty_variable_reference_lexes_to_nothing() {
    let mut lexer = Lexer::new();
    for c in "$ \n".chars() {
        lexer.lex(c);
    }
    // The accumulator is empty when the space arrives, so no variable token
    // is flushed; only the end of the line remains.
    assert_eq!(1, lexer.lexed.len());
    assert_eq!(lexer.lexed[0].token, Token::EOF);
}

#[test]
fn words_flush_on_spaces() {
    let mut lexer = Lexer::new();
    for c in "a  b\n".chars() {
        lexer.lex(c);
    }
    let kinds: Vec<&Token> = lexer.lexed.iter().map(|t| &t.token).collect();
    assert_eq!(kinds, vec![&Token::Item, &Token::Item, &Token::EOF]);
    assert_eq!(lexer.lexed[0].content.as_ref().unwrap(), "a");
    assert_eq!(lexer.lexed[1].content.as_ref().unwrap(), "b");
}
