use smallvec::SmallVec;
use crate::token::{BinOpToken, BytePos, Keyword, TokenType};
use vstd::prelude::*;

verus! {

/// A lexical context that is currently open.
#[derive(Debug, Clone, Copy, PartialEq, Eq, Structural)]
pub enum Type {
    /// `{` that opens a block statement.
    BraceStmt,
    /// `{` that opens an object literal.
    BraceExpr,
    /// `${ ... }` inside a template literal.
    TplQuasi,
    /// `(` after `if`, `with`, `while` or `for`.
    ParenStmt { is_for_loop: bool },
    /// Any other `(`.
    ParenExpr,
    /// The raw text of a template literal that started at `start`.
    Tpl { start: BytePos },
    /// `function` used as a value.
    FnExpr,
}

impl Type {
    /// Whether this context is an expression position.
    pub open spec fn spec_is_expr(self) -> bool {
        match self {
            Type::BraceExpr | Type::TplQuasi | Type::ParenExpr | Type::Tpl { .. } | Type::FnExpr => true,
            _ => false,
        }
    }

    /// Whether whitespace inside this context is part of the token text.
    pub open spec fn spec_preserve_space(self) -> bool {
        self is Tpl
    }

    pub fn is_expr(self) -> (r: bool)
        ensures
            r == self.spec_is_expr(),
    {
        match self {
            Type::BraceExpr | Type::TplQuasi | Type::ParenExpr | Type::Tpl { .. } | Type::FnExpr => true,
            _ => false,
        }
    }

    pub fn preserve_space(self) -> (r: bool)
        ensures
            r == self.spec_preserve_space(),
    {
        match self {
            Type::Tpl { .. } => true,
            _ => false,
        }
    }
}

/// The innermost context of a stack, if any.
pub open spec fn top(ctx: Seq<Type>) -> Option<Type> {
    if ctx.len() > 0 {
        Some(ctx.last())
    } else {
        None
    }
}

/// Whether a `{` that follows `prev` opens a block statement, given the open
/// contexts, whether a line break came before the `{`, and whether an
/// expression was allowed there.
pub open spec fn brace_is_block(
    ctx: Seq<Type>,
    prev: Option<TokenType>,
    had_line_break: bool,
    is_expr_allowed: bool,
) -> bool {
    if prev == Some(TokenType::Colon) && top(ctx) == Some(Type::BraceStmt) {
        true
    } else if prev == Some(TokenType::Colon) && top(ctx) == Some(Type::BraceExpr) {
        false
    } else {
        match prev {
            Some(TokenType::Keyword(Keyword::Return)) | Some(TokenType::Keyword(Keyword::Yield)) => had_line_break,
            Some(TokenType::Keyword(Keyword::Else)) | Some(TokenType::Semi) | None | Some(TokenType::RParen) => true,
            Some(TokenType::LBrace) => top(ctx) == Some(Type::BraceStmt),
            Some(TokenType::BinOp(BinOpToken::Lt)) | Some(TokenType::BinOp(BinOpToken::Gt)) => true,
            _ => !is_expr_allowed,
        }
    }
}

/// The stack of open contexts, innermost last.
#[derive(Debug)]
#[verifier::external_body]
pub struct Context {
    stack: SmallVec<[Type; 32]>,
}

/// What a context stack holds, outermost first.
pub uninterp spec fn stack_items(c: Context) -> Seq<Type>;

impl View for Context {
    type V = Seq<Type>;

    open spec fn view(&self) -> Seq<Type> {
        stack_items(*self)
    }
}

impl Context {
    /// Relies on `SmallVec::new`: the vector starts empty.
    #[verifier::external_body]
    fn empty() -> (r: Context)
        ensures
            stack_items(r) == Seq::<Type>::empty(),
    {
        Context { stack: SmallVec::new() }
    }

    /// Relies on `SmallVec::len`: the number of items held.
    #[verifier::external_body]
    pub(crate) fn len(&self) -> (r: usize)
        ensures
            r == stack_items(*self).len(),
    {
        self.stack.len()
    }

    /// Relies on `SmallVec::push`: the item is appended at the end. The vector
    /// panics when its capacity would overflow `usize`.
    #[verifier::external_body]
    pub(crate) fn push(&mut self, t: Type)
        requires
            stack_items(*old(self)).len() < usize::MAX,
        ensures
            stack_items(*final(self)) == stack_items(*old(self)).push(t),
    {
        self.stack.push(t)
    }

    /// Relies on `SmallVec::pop`: removes and returns the last item, or
    /// returns `None` and leaves an empty vector as it is.
    #[verifier::external_body]
    pub(crate) fn pop(&mut self) -> (r: Option<Type>)
        ensures
            stack_items(*old(self)).len() == 0 ==> r == None::<Type> && stack_items(*final(self))
                == stack_items(*old(self)),
            stack_items(*old(self)).len() > 0 ==> r == Some(stack_items(*old(self)).last())
                && stack_items(*final(self)) == stack_items(*old(self)).drop_last(),
    {
        self.stack.pop()
    }

    /// Relies on `SmallVec`'s slice view and `<[T]>::last`: a copy of the last
    /// item, or `None` when the vector is empty.
    #[verifier::external_body]
    pub(crate) fn current(&self) -> (r: Option<Type>)
        ensures
            r == (if stack_items(*self).len() > 0 {
                Some(stack_items(*self).last())
            } else {
                None
            }),
    {
        self.stack.last().copied()
    }

    /// A stack that holds the context of the program's top level.
    pub fn top_level() -> (r: Context)
        ensures
            r@ == seq![Type::BraceStmt],
    {
        let mut c = Context::empty();
        c.push(Type::BraceStmt);
        c
    }

    /// Returns true if a `{` that follows `prev` opens a block statement.
    pub fn is_brace_block(&self, prev: Option<TokenType>, had_line_break: bool, is_expr_allowed: bool) -> (r: bool)
        ensures
            r == brace_is_block(self@, prev, had_line_break, is_expr_allowed),
    {
        match prev {
            Some(TokenType::Colon) => match self.current() {
                Some(Type::BraceStmt) => return true,
                // `{ a: {} }`: the inner braces follow a property name
                Some(Type::BraceExpr) => return false,
                _ => {},
            },
            _ => {},
        }
        match prev {
            // `return { a: 1 }` returns an object; after a line break the
            // braces open a block
            Some(TokenType::Keyword(Keyword::Return)) | Some(TokenType::Keyword(Keyword::Yield)) => had_line_break,
            Some(TokenType::Keyword(Keyword::Else)) | Some(TokenType::Semi) | None | Some(TokenType::RParen) => true,
            Some(TokenType::LBrace) => self.current() == Some(Type::BraceStmt),
            // `class C<T> { ... }`
            Some(TokenType::BinOp(BinOpToken::Lt)) | Some(TokenType::BinOp(BinOpToken::Gt)) => true,
            _ => !is_expr_allowed,
        }
    }
}

} // verus!
