//! Operator tokens that appear inside expressions.
use vstd::prelude::*;

verus! {

/// A lexical operator symbol.
#[derive(Debug, Clone, Copy, PartialEq, Eq, Structural)]
pub enum Token {
    Plus,
    Minus,
    Bang,
    Asterisk,
    Slash,
    Lt,
    Gt,
    Eq,
    NotEq,
}

impl Token {
    /// The source text of the operator.
    pub open spec fn text(self) -> Seq<char> {
        match self {
            Token::Plus => seq!['+'],
            Token::Minus => seq!['-'],
            Token::Bang => seq!['!'],
            Token::Asterisk => seq!['*'],
            Token::Slash => seq!['/'],
            Token::Lt => seq!['<'],
            Token::Gt => seq!['>'],
            Token::Eq => seq!['=', '='],
            Token::NotEq => seq!['!', '='],
        }
    }

    /// The operator's source text.
    pub fn as_str(&self) -> (r: &'static str)
        ensures
            r@ == self.text(),
    {
        match self {
            Token::Plus => {
                proof { reveal_strlit("+"); }
                "+"
            },
            Token::Minus => {
                proof { reveal_strlit("-"); }
                "-"
            },
            Token::Bang => {
                proof { reveal_strlit("!"); }
                "!"
            },
            Token::Asterisk => {
                proof { reveal_strlit("*"); }
                "*"
            },
            Token::Slash => {
                proof { reveal_strlit("/"); }
                "/"
            },
            Token::Lt => {
                proof { reveal_strlit("<"); }
                "<"
            },
            Token::Gt => {
                proof { reveal_strlit(">"); }
                ">"
            },
            Token::Eq => {
                proof { reveal_strlit("=="); }
                "=="
            },
            Token::NotEq => {
                proof { reveal_strlit("!="); }
                "!="
            },
        }
    }

    /// The operator's source text, as an owned string.
    pub fn to_string(&self) -> (r: String)
        ensures
            r@ == self.text(),
    {
        String::from_str(self.as_str())
    }
}

} // verus!
