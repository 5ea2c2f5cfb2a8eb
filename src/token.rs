use vstd::prelude::*;

verus! {

/// A byte offset into the source text.
#[derive(Debug, Clone, Copy, PartialEq, Eq, Structural)]
pub struct BytePos(pub u32);

/// The source range `[lo, hi)` of a token.
#[derive(Debug, Clone, Copy, PartialEq, Eq, Structural)]
pub struct Span {
    pub lo: BytePos,
    pub hi: BytePos,
}

/// A character-level failure reported by the scanner.
#[derive(Debug, Clone, Copy, PartialEq, Eq, Structural)]
pub struct ScanError {
    pub span: Span,
}

/// Binary operators.
#[derive(Debug, Clone, Copy, PartialEq, Eq, Structural)]
pub enum BinOpToken {
    EqEq,
    NotEq,
    EqEqEq,
    NotEqEq,
    Lt,
    LtEq,
    Gt,
    GtEq,
    LShift,
    RShift,
    ZeroFillRShift,
    Add,
    Sub,
    Mul,
    Div,
    Mod,
    BitOr,
    BitXor,
    BitAnd,
    Exp,
    LogicalOr,
    LogicalAnd,
}

impl BinOpToken {
    /// An expression always follows a binary operator.
    pub open spec fn spec_before_expr(self) -> bool {
        true
    }

    pub fn before_expr(self) -> (r: bool)
        ensures
            r == self.spec_before_expr(),
    {
        true
    }
}

/// Reserved words.
#[derive(Debug, Clone, Copy, PartialEq, Eq, Structural)]
pub enum Keyword {
    Await,
    Break,
    Case,
    Catch,
    Class,
    Const,
    Continue,
    Debugger,
    Default_,
    Delete,
    Do,
    Else,
    Export,
    Extends,
    Finally,
    For,
    Function,
    If,
    Import,
    In,
    InstanceOf,
    Let,
    New,
    Return,
    Super,
    Switch,
    This,
    Throw,
    Try,
    TypeOf,
    Var,
    Void,
    While,
    With,
    Yield,
}

impl Keyword {
    /// Whether an expression may start right after this keyword.
    pub open spec fn spec_before_expr(self) -> bool {
        match self {
            Keyword::Await | Keyword::Case | Keyword::Default_ | Keyword::Do | Keyword::Else
            | Keyword::Return | Keyword::Throw | Keyword::New | Keyword::Extends
            | Keyword::Yield | Keyword::In | Keyword::InstanceOf | Keyword::TypeOf
            | Keyword::Void | Keyword::Delete => true,
            _ => false,
        }
    }

    pub fn before_expr(self) -> (r: bool)
        ensures
            r == self.spec_before_expr(),
    {
        match self {
            Keyword::Await | Keyword::Case | Keyword::Default_ | Keyword::Do | Keyword::Else
            | Keyword::Return | Keyword::Throw | Keyword::New | Keyword::Extends
            | Keyword::Yield | Keyword::In | Keyword::InstanceOf | Keyword::TypeOf
            | Keyword::Void | Keyword::Delete => true,
            _ => false,
        }
    }
}

/// A concrete token, as far as context tracking needs to tell tokens apart.
#[derive(Debug, Clone, Copy, PartialEq, Eq, Structural)]
pub enum Token {
    /// A chunk of raw template text.
    Template,
    /// `.`
    Dot,
    /// `:`
    Colon,
    /// `{`
    LBrace,
    /// `}`
    RBrace,
    /// `(`
    LParen,
    /// `)`
    RParen,
    /// `;`
    Semi,
    BinOp(BinOpToken),
    Keyword(Keyword),
    /// An identifier other than `of`.
    Ident,
    /// The identifier `of`, a keyword inside the header of a `for` loop.
    Of,
    /// `${`
    DollarLBrace,
    /// `++`
    PlusPlus,
    /// `--`
    MinusMinus,
    /// `` ` ``
    BackQuote,
    /// Any other token; the scanner tells whether an expression may follow it.
    Other { before_expr: bool },
    /// A failure of the scanner, handed on as a token.
    Error(ScanError),
}

impl Token {
    /// Whether an expression may start right after this token, on its own.
    pub open spec fn spec_before_expr(self) -> bool {
        match self {
            Token::Colon | Token::LBrace | Token::LParen | Token::Semi | Token::DollarLBrace => true,
            Token::BinOp(b) => b.spec_before_expr(),
            Token::Keyword(k) => k.spec_before_expr(),
            Token::Other { before_expr } => before_expr,
            _ => false,
        }
    }

    pub fn before_expr(&self) -> (r: bool)
        ensures
            r == self.spec_before_expr(),
    {
        match *self {
            Token::Colon | Token::LBrace | Token::LParen | Token::Semi | Token::DollarLBrace => true,
            Token::BinOp(b) => b.before_expr(),
            Token::Keyword(k) => k.before_expr(),
            Token::Other { before_expr } => before_expr,
            _ => false,
        }
    }
}

/// What the context rules remember of the previous token.
#[derive(Debug, Clone, Copy, PartialEq, Eq, Structural)]
pub enum TokenType {
    Template,
    Dot,
    Colon,
    LBrace,
    RParen,
    Semi,
    BinOp(BinOpToken),
    Keyword(Keyword),
    Other { before_expr: bool },
}

/// The classification of a token.
pub open spec fn classify(t: Token) -> TokenType {
    match t {
        Token::Template => TokenType::Template,
        Token::Dot => TokenType::Dot,
        Token::Colon => TokenType::Colon,
        Token::LBrace => TokenType::LBrace,
        Token::RParen => TokenType::RParen,
        Token::Semi => TokenType::Semi,
        Token::BinOp(op) => TokenType::BinOp(op),
        Token::Keyword(k) => TokenType::Keyword(k),
        _ => TokenType::Other { before_expr: t.spec_before_expr() },
    }
}

impl TokenType {
    pub open spec fn spec_before_expr(self) -> bool {
        match self {
            TokenType::Template | TokenType::Dot | TokenType::RParen => false,
            TokenType::Colon | TokenType::LBrace | TokenType::Semi => true,
            TokenType::BinOp(b) => b.spec_before_expr(),
            TokenType::Keyword(k) => k.spec_before_expr(),
            TokenType::Other { before_expr } => before_expr,
        }
    }

    /// Whether an expression may start right after the token classified so.
    pub fn before_expr(self) -> (r: bool)
        ensures
            r == self.spec_before_expr(),
    {
        match self {
            TokenType::Template | TokenType::Dot | TokenType::RParen => false,
            TokenType::Colon | TokenType::LBrace | TokenType::Semi => true,
            TokenType::BinOp(b) => b.before_expr(),
            TokenType::Keyword(k) => k.before_expr(),
            TokenType::Other { before_expr } => before_expr,
        }
    }

    /// Classifies a token.
    pub fn from_token(t: &Token) -> (r: TokenType)
        ensures
            r == classify(*t),
            r.spec_before_expr() == t.spec_before_expr(),
    {
        match *t {
            Token::Template => TokenType::Template,
            Token::Dot => TokenType::Dot,
            Token::Colon => TokenType::Colon,
            Token::LBrace => TokenType::LBrace,
            Token::RParen => TokenType::RParen,
            Token::Semi => TokenType::Semi,
            Token::BinOp(op) => TokenType::BinOp(op),
            Token::Keyword(k) => TokenType::Keyword(k),
            _ => TokenType::Other { before_expr: t.before_expr() },
        }
    }
}

/// A token with its source range and whether a line break preceded it.
#[derive(Debug, Clone, Copy, PartialEq, Eq, Structural)]
pub struct TokenAndSpan {
    pub token: Token,
    pub had_line_break: bool,
    pub span: Span,
}

} // verus!
