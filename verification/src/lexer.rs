//! An on-the-fly lexer for shell input, fed one character at a time so that
//! tokens appear as they are typed. It splits a line into redirection marks,
//! environment-variable references, and plain items.

use vstd::prelude::*;

verus! {

/// The kind of a lexed token.
#[derive(Debug, Clone, Copy, PartialEq, Eq, Structural)]
pub enum Token {
    /// The `>` output-redirection mark.
    OutGreaterThan,
    /// An environment-variable reference, introduced by `$`.
    EnvVar,
    /// A plain word.
    Item,
    /// The end of the line.
    EOF,
}

/// A lexed token together with its text, where the kind carries any.
#[derive(Debug)]
pub struct TokenShush {
    pub token: Token,
    pub content: Option<String>,
}

impl TokenShush {
    pub fn new(token: Token, content: Option<String>) -> (r: TokenShush)
        ensures
            r.token == token,
            r.content == content,
    {
        TokenShush { token, content }
    }
}

/// What the accumulator currently holds.
#[derive(Debug, Clone, Copy, PartialEq, Eq, Structural)]
pub enum LexerState {
    /// Between tokens.
    General,
    /// Inside a plain word.
    InsideItem,
    /// Inside an environment-variable name.
    EnvVar,
}

/// A token reduced to its mathematical content: the kind and the text.
pub open spec fn token_view(t: TokenShush) -> (Token, Option<Seq<char>>) {
    (
        t.token,
        match t.content {
            Some(s) => Some(s@),
            None => None,
        },
    )
}

/// The views of a sequence of tokens.
pub open spec fn token_views(s: Seq<TokenShush>) -> Seq<(Token, Option<Seq<char>>)> {
    s.map_values(|t: TokenShush| token_view(t))
}

/// The token that an accumulator flushes when a separator arrives: nothing
/// when it is empty, otherwise one token of the given kind carrying it.
pub open spec fn flush_acc(kind: Token, acc: Seq<char>) -> Seq<(Token, Option<Seq<char>>)> {
    if acc.len() == 0 {
        Seq::empty()
    } else {
        seq![(kind, Some(acc))]
    }
}

/// One transition of the lexer: from a state, the accumulated characters,
/// and the next character, to the next state, the new accumulator, and the
/// views of the tokens emitted by this character.
pub open spec fn lex_step(state: LexerState, acc: Seq<char>, c: char) -> (
    LexerState,
    Seq<char>,
    Seq<(Token, Option<Seq<char>>)>,
) {
    if c == '>' {
        (LexerState::General, acc, seq![(Token::OutGreaterThan, None::<Seq<char>>)])
    } else if c == '$' {
        (LexerState::EnvVar, Seq::empty(), Seq::empty())
    } else if c == ' ' {
        match state {
            LexerState::General => (LexerState::General, acc, Seq::empty()),
            LexerState::InsideItem => (LexerState::General, acc, flush_acc(Token::Item, acc)),
            LexerState::EnvVar => (LexerState::General, acc, flush_acc(Token::EnvVar, acc)),
        }
    } else if c == '\n' {
        let flushed = match state {
            LexerState::General => Seq::empty(),
            LexerState::InsideItem => flush_acc(Token::Item, acc),
            LexerState::EnvVar => flush_acc(Token::EnvVar, acc),
        };
        (state, acc, flushed + seq![(Token::EOF, None::<Seq<char>>)])
    } else {
        match state {
            LexerState::General => (LexerState::InsideItem, seq![c], Seq::empty()),
            LexerState::InsideItem => (LexerState::InsideItem, acc + seq![c], Seq::empty()),
            LexerState::EnvVar => (LexerState::EnvVar, acc + seq![c], Seq::empty()),
        }
    }
}

/// The lexer: the current state, the tokens lexed so far, and the
/// characters accumulated toward the next token.
#[derive(Debug)]
pub struct Lexer {
    pub state: LexerState,
    pub lexed: Vec<TokenShush>,
    pub acc: String,
}

/// Relies on String::push: it appends exactly the given character.
#[verifier::external_body]
fn string_push_char(s: &mut String, c: char)
    ensures
        final(s)@ == old(s)@ + seq![c],
{
    s.push(c)
}

impl Lexer {
    pub fn new() -> (r: Lexer)
        ensures
            r.state == LexerState::General,
            token_views(r.lexed@) == Seq::<(Token, Option<Seq<char>>)>::empty(),
            r.acc@ == Seq::<char>::empty(),
    {
        let r = Lexer { state: LexerState::General, lexed: Vec::new(), acc: String::new() };
        proof {
            assert(token_views(r.lexed@) =~= Seq::<(Token, Option<Seq<char>>)>::empty());
        }
        r
    }

    /// Feeds one character: performs one `lex_step` transition, appending
    /// the emitted tokens to `lexed`.
    pub fn lex(&mut self, next_char: char)
        ensures
            final(self).state == lex_step(old(self).state, old(self).acc@, next_char).0,
            final(self).acc@ == lex_step(old(self).state, old(self).acc@, next_char).1,
            token_views(final(self).lexed@) == token_views(old(self).lexed@) + lex_step(
                old(self).state,
                old(self).acc@,
                next_char,
            ).2,
    {
        let ghost orig = *self;
        match next_char {
            '>' => {
                self.state = LexerState::General;
                self.lexed.push(TokenShush::new(Token::OutGreaterThan, None));
            },
            '$' => {
                self.state = LexerState::EnvVar;
                self.acc = String::new();
            },
            ' ' => {
                match self.state {
                    LexerState::InsideItem => {
                        self.state = LexerState::General;
                        if !self.acc.as_str().is_empty() {
                            self.lexed.push(TokenShush::new(Token::Item, Some(self.acc.clone())));
                        }
                    },
                    LexerState::General => (),
                    LexerState::EnvVar => {
                        self.state = LexerState::General;
                        if !self.acc.as_str().is_empty() {
                            self.lexed.push(
                                TokenShush::new(Token::EnvVar, Some(self.acc.clone())),
                            );
                        }
                    },
                }
            },
            '\n' => {
                match self.state {
                    LexerState::General => (),
                    LexerState::InsideItem => {
                        if !self.acc.as_str().is_empty() {
                            self.lexed.push(TokenShush::new(Token::Item, Some(self.acc.clone())));
                        }
                    },
                    LexerState::EnvVar => {
                        if !self.acc.as_str().is_empty() {
                            self.lexed.push(
                                TokenShush::new(Token::EnvVar, Some(self.acc.clone())),
                            );
                        }
                    },
                }
                self.lexed.push(TokenShush::new(Token::EOF, None));
            },
            _ => {
                match self.state {
                    LexerState::General => {
                        self.state = LexerState::InsideItem;
                        self.acc = String::new();
                        string_push_char(&mut self.acc, next_char);
                    },
                    LexerState::InsideItem => {
                        string_push_char(&mut self.acc, next_char);
                    },
                    LexerState::EnvVar => {
                        string_push_char(&mut self.acc, next_char);
                    },
                }
            },
        }
        proof {
            assert(token_views(final(self).lexed@) =~= token_views(orig.lexed@) + lex_step(
                orig.state,
                orig.acc@,
                next_char,
            ).2);
            assert(final(self).acc@ =~= lex_step(orig.state, orig.acc@, next_char).1);
        }
    }
}

} // verus!
