use crate::context::{brace_is_block, top, Context, Type};
use crate::token::{classify, BytePos, Keyword, ScanError, Span, Token, TokenAndSpan, TokenType};
use vstd::prelude::*;

verus! {

/// The context tracking state of one tokenizing session.
#[derive(Debug)]
pub struct State {
    /// Whether an expression may start at the next token.
    pub is_expr_allowed: bool,
    /// Where a legacy octal literal was seen, for the parser to reject in
    /// strict mode.
    pub octal_pos: Option<BytePos>,
    /// Whether a line break came between the previous token and the next.
    pub had_line_break: bool,
    /// Whether no token was asked for yet.
    pub is_first: bool,
    /// The open contexts.
    pub context: Context,
    /// The classification of the last token, if one was seen.
    pub token_type: Option<TokenType>,
}

/// A stack of contexts that can stand before the token after `prev`: the
/// program's top level is at the bottom, and before the first token nothing
/// else is open.
pub open spec fn stack_ok(ctx: Seq<Type>, prev: Option<TokenType>) -> bool {
    &&& ctx.len() >= 1
    &&& ctx[0] == Type::BraceStmt
    &&& prev is None ==> ctx == seq![Type::BraceStmt]
}

/// The effect of a closing `)` or `}` on the open contexts: whether an
/// expression may follow, and the contexts left open.
pub open spec fn on_close(ctx: Seq<Type>) -> (bool, Seq<Type>) {
    if ctx.len() <= 1 {
        (true, ctx)
    } else {
        let out = ctx.last();
        let rest = ctx.drop_last();
        if out == Type::BraceStmt && top(rest) == Some(Type::FnExpr) {
            // the body of a function expression ends
            (false, rest.drop_last())
        } else if out == Type::TplQuasi {
            (true, rest)
        } else {
            (!out.spec_is_expr(), rest)
        }
    }
}

/// The context that a `(` after `prev` opens.
pub open spec fn paren_context(prev: Option<TokenType>) -> Type {
    match prev {
        Some(TokenType::Keyword(Keyword::If)) | Some(TokenType::Keyword(Keyword::With))
        | Some(TokenType::Keyword(Keyword::While)) => Type::ParenStmt { is_for_loop: false },
        Some(TokenType::Keyword(Keyword::For)) => Type::ParenStmt { is_for_loop: true },
        _ => Type::ParenExpr,
    }
}

/// The effect of the token `next`, which starts at `start` and follows
/// `prev`: whether an expression may start after it, and the contexts open
/// after it. `had_line_break` tells whether a line break came before `next`,
/// `is_expr_allowed` whether an expression could start at `next`.
pub open spec fn on_next(
    ctx: Seq<Type>,
    prev: Option<TokenType>,
    start: BytePos,
    next: Token,
    had_line_break: bool,
    is_expr_allowed: bool,
) -> (bool, Seq<Type>) {
    if next is Keyword && prev == Some(TokenType::Dot) {
        // a property name such as `obj.if`
        (false, ctx)
    } else {
        match next {
            Token::RParen | Token::RBrace => on_close(ctx),
            Token::Keyword(Keyword::Function) => if is_expr_allowed && !brace_is_block(
                ctx,
                prev,
                had_line_break,
                is_expr_allowed,
            ) {
                (false, ctx.push(Type::FnExpr))
            } else {
                (false, ctx)
            },
            Token::Of if top(ctx) == Some(Type::ParenStmt { is_for_loop: true }) && prev is Some => (
                !prev->0.spec_before_expr(),
                ctx,
            ),
            Token::Ident | Token::Of => (
                match prev {
                    Some(TokenType::Keyword(Keyword::Let)) | Some(TokenType::Keyword(Keyword::Const))
                    | Some(TokenType::Keyword(Keyword::Var)) => had_line_break,
                    _ => false,
                },
                ctx,
            ),
            Token::LBrace => (
                true,
                ctx.push(
                    if brace_is_block(ctx, prev, had_line_break, is_expr_allowed) {
                        Type::BraceStmt
                    } else {
                        Type::BraceExpr
                    },
                ),
            ),
            Token::DollarLBrace => (true, ctx.push(Type::TplQuasi)),
            Token::LParen => (true, ctx.push(paren_context(prev))),
            Token::PlusPlus | Token::MinusMinus => (is_expr_allowed, ctx),
            Token::BackQuote => if top(ctx) is Some && top(ctx)->0 is Tpl {
                (false, ctx.drop_last())
            } else {
                (false, ctx.push(Type::Tpl { start }))
            },
            _ => (next.spec_before_expr(), ctx),
        }
    }
}

/// Updates the open contexts for the token `next` and returns whether an
/// expression may start after it.
fn is_expr_allowed_on_next(
    context: &mut Context,
    prev: Option<TokenType>,
    start: BytePos,
    next: &Token,
    had_line_break: bool,
    is_expr_allowed: bool,
) -> (r: bool)
    requires
        stack_ok(old(context)@, prev),
        old(context)@.len() < usize::MAX,
    ensures
        (r, final(context)@) == on_next(old(context)@, prev, start, *next, had_line_break, is_expr_allowed),
{
    let is_next_keyword = match next {
        Token::Keyword(_) => true,
        _ => false,
    };
    if is_next_keyword && prev == Some(TokenType::Dot) {
        return false;
    }
    match *next {
        Token::RParen | Token::RBrace => {
            if context.len() == 1 {
                return true;
            }
            let out = context.pop().unwrap();
            // `let a = function(){}`
            if out == Type::BraceStmt && context.current() == Some(Type::FnExpr) {
                context.pop();
                return false;
            }
            // `${}` in a template
            if out == Type::TplQuasi {
                return true;
            }
            // an expression cannot follow an expression
            !out.is_expr()
        },
        Token::Keyword(Keyword::Function) => {
            // needed to lex `x = function(){}/42/i`
            if is_expr_allowed && !context.is_brace_block(prev, had_line_break, is_expr_allowed) {
                context.push(Type::FnExpr);
            }
            false
        },
        Token::Of if context.current() == Some(Type::ParenStmt { is_for_loop: true }) => {
            // `for (a of b)`: the stack holds more than the top level, so a
            // token came before
            !prev.unwrap().before_expr()
        },
        Token::Ident | Token::Of => {
            // a declaration name on the line after `let` starts a statement
            match prev {
                Some(TokenType::Keyword(Keyword::Let)) | Some(TokenType::Keyword(Keyword::Const))
                | Some(TokenType::Keyword(Keyword::Var)) => had_line_break,
                _ => false,
            }
        },
        Token::LBrace => {
            let next_ctxt = if context.is_brace_block(prev, had_line_break, is_expr_allowed) {
                Type::BraceStmt
            } else {
                Type::BraceExpr
            };
            context.push(next_ctxt);
            true
        },
        Token::DollarLBrace => {
            context.push(Type::TplQuasi);
            true
        },
        Token::LParen => {
            // `if`, `for`, `with` and `while` open a statement header
            let c = match prev {
                Some(TokenType::Keyword(k)) => match k {
                    Keyword::If | Keyword::With | Keyword::While => Type::ParenStmt { is_for_loop: false },
                    Keyword::For => Type::ParenStmt { is_for_loop: true },
                    _ => Type::ParenExpr,
                },
                _ => Type::ParenExpr,
            };
            context.push(c);
            true
        },
        Token::PlusPlus | Token::MinusMinus => is_expr_allowed,
        Token::BackQuote => {
            // inside a template, a backquote ends it
            match context.current() {
                Some(Type::Tpl { .. }) => {
                    context.pop();
                },
                _ => {
                    context.push(Type::Tpl { start });
                },
            }
            false
        },
        _ => next.before_expr(),
    }
}

/// `t` is the state `s` after recording the token `next`, which starts at
/// `start`.
pub open spec fn after_token(s: State, t: State, start: BytePos, next: Token) -> bool {
    &&& t.wf()
    &&& t.prev() == Some(classify(next))
    &&& (t.is_expr_allowed, t.ctx()) == on_next(s.ctx(), s.prev(), start, next, s.had_line_break, s.is_expr_allowed)
    &&& t.had_line_break == s.had_line_break
    &&& t.octal_pos == s.octal_pos
    &&& t.first() == s.first()
}

/// `t` holds what `s` holds.
pub open spec fn unchanged(s: State, t: State) -> bool {
    &&& t.is_expr_allowed == s.is_expr_allowed
    &&& t.octal_pos == s.octal_pos
    &&& t.had_line_break == s.had_line_break
    &&& t.first() == s.first()
    &&& t.ctx() == s.ctx()
    &&& t.prev() == s.prev()
}

impl State {
    /// The open contexts, outermost first.
    pub open spec fn ctx(&self) -> Seq<Type> {
        self.context@
    }

    /// The classification of the last token, if one was seen.
    pub open spec fn prev(&self) -> Option<TokenType> {
        self.token_type
    }

    /// Whether no token was asked for yet.
    pub open spec fn first(&self) -> bool {
        self.is_first
    }

    pub open spec fn wf(&self) -> bool {
        stack_ok(self.ctx(), self.prev())
    }

    /// A state for the start of a source text.
    pub fn new() -> (r: State)
        ensures
            r.wf(),
            r.is_expr_allowed,
            r.octal_pos is None,
            !r.had_line_break,
            r.first(),
            r.ctx() == seq![Type::BraceStmt],
            r.prev() is None,
    {
        State {
            is_expr_allowed: true,
            octal_pos: None,
            is_first: true,
            had_line_break: false,
            context: Context::top_level(),
            token_type: None,
        }
    }

    /// Whether whitespace may be skipped before the next token: not inside
    /// the raw text of a template.
    pub fn can_skip_space(&self) -> (r: bool)
        ensures
            r == !(top(self.ctx()) is Some && top(self.ctx())->0.spec_preserve_space()),
    {
        match self.context.current() {
            Some(t) => !t.preserve_space(),
            None => true,
        }
    }

    /// Whether the last token was a chunk of template text.
    pub fn last_was_tpl_element(&self) -> (r: bool)
        ensures
            r == (self.prev() == Some(TokenType::Template)),
    {
        match self.token_type {
            Some(TokenType::Template) => true,
            _ => false,
        }
    }

    /// Records the token `next`, which starts at `start`.
    pub fn update(&mut self, start: BytePos, next: &Token)
        requires
            old(self).wf(),
            old(self).ctx().len() < usize::MAX,
        ensures
            after_token(*old(self), *final(self), start, *next),
    {
        let prev = self.token_type;
        self.token_type = Some(TokenType::from_token(next));
        self.is_expr_allowed = is_expr_allowed_on_next(
            &mut self.context,
            prev,
            start,
            next,
            self.had_line_break,
            self.is_expr_allowed,
        );
        proof {
            lemma_on_next_keeps_stack_ok(old(self).ctx(), prev, start, *next, old(self).had_line_break, old(self).is_expr_allowed);
        }
    }

    /// Starts a new token: a line break counts as seen before the first one.
    pub fn begin_token(&mut self)
        ensures
            final(self).had_line_break == old(self).is_first,
            !final(self).is_first,
            final(self).is_expr_allowed == old(self).is_expr_allowed,
            final(self).octal_pos == old(self).octal_pos,
            final(self).ctx() == old(self).ctx(),
            final(self).prev() == old(self).prev(),
    {
        self.had_line_break = self.is_first;
        self.is_first = false;
    }

    /// The start of the template literal whose raw text comes next, if the
    /// innermost context is one.
    pub fn tpl_start(&self) -> (r: Option<BytePos>)
        ensures
            r == (match top(self.ctx()) {
                Some(Type::Tpl { start }) => Some(start),
                _ => None,
            }),
    {
        match self.context.current() {
            Some(Type::Tpl { start }) => Some(start),
            _ => None,
        }
    }

    /// Takes what the scanner read between `start` and `end` and returns it
    /// with its span. A token is recorded; a failure comes back as an error
    /// token and leaves the state as it is. Returns `None` at the end of the
    /// input.
    pub fn finish_token(&mut self, start: BytePos, end: BytePos, res: Result<Option<Token>, ScanError>) -> (r: Option<TokenAndSpan>)
        requires
            old(self).wf(),
            old(self).ctx().len() < usize::MAX,
        ensures
            res == Ok::<Option<Token>, ScanError>(None) ==> r is None && unchanged(*old(self), *final(self)),
            res is Err ==> r == Some(
                TokenAndSpan {
                    token: Token::Error(res->Err_0),
                    had_line_break: old(self).had_line_break,
                    span: Span { lo: start, hi: end },
                },
            ) && unchanged(*old(self), *final(self)),
            res is Ok && res->Ok_0 is Some ==> r == Some(
                TokenAndSpan {
                    token: res->Ok_0->0,
                    had_line_break: old(self).had_line_break,
                    span: Span { lo: start, hi: end },
                },
            ) && after_token(*old(self), *final(self), start, res->Ok_0->0),
    {
        match res {
            Ok(Some(t)) => {
                self.update(start, &t);
                Some(TokenAndSpan { token: t, had_line_break: self.had_line_break, span: Span { lo: start, hi: end } })
            },
            Ok(None) => None,
            Err(e) => Some(
                TokenAndSpan { token: Token::Error(e), had_line_break: self.had_line_break, span: Span { lo: start, hi: end } },
            ),
        }
    }

    /// Takes the outcome of skipping whitespace and comments between `start`
    /// and `end`: a failure comes back as an error token, and a line break
    /// among what was skipped is noted.
    pub fn after_skip(&mut self, start: BytePos, end: BytePos, res: Result<bool, ScanError>) -> (r: Option<TokenAndSpan>)
        ensures
            res is Err ==> r == Some(
                TokenAndSpan {
                    token: Token::Error(res->Err_0),
                    had_line_break: old(self).had_line_break,
                    span: Span { lo: start, hi: end },
                },
            ) && unchanged(*old(self), *final(self)),
            res is Ok ==> r is None && final(self).had_line_break == (old(self).had_line_break || res->Ok_0)
                && final(self).is_expr_allowed == old(self).is_expr_allowed
                && final(self).octal_pos == old(self).octal_pos
                && final(self).first() == old(self).first()
                && final(self).ctx() == old(self).ctx()
                && final(self).prev() == old(self).prev(),
    {
        match res {
            Err(e) => Some(
                TokenAndSpan { token: Token::Error(e), had_line_break: self.had_line_break, span: Span { lo: start, hi: end } },
            ),
            Ok(line_break) => {
                if line_break {
                    self.had_line_break = true;
                }
                None
            },
        }
    }

    /// The number of open contexts.
    pub fn context_depth(&self) -> (r: usize)
        ensures
            r == self.ctx().len(),
    {
        self.context.len()
    }

    /// The innermost open context.
    pub fn current_context(&self) -> (r: Option<Type>)
        ensures
            r == top(self.ctx()),
    {
        self.context.current()
    }
}

impl Default for State {
    fn default() -> (r: State)
        ensures
            r.wf(),
            r.is_expr_allowed,
            r.octal_pos is None,
            !r.had_line_break,
            r.first(),
            r.ctx() == seq![Type::BraceStmt],
            r.prev() is None,
    {
        State::new()
    }
}

/// Every token leaves a stack that can stand before the token after it.
pub proof fn lemma_on_next_keeps_stack_ok(
    ctx: Seq<Type>,
    prev: Option<TokenType>,
    start: BytePos,
    next: Token,
    had_line_break: bool,
    is_expr_allowed: bool,
)
    requires
        stack_ok(ctx, prev),
    ensures
        stack_ok(on_next(ctx, prev, start, next, had_line_break, is_expr_allowed).1, Some(classify(next))),
{
    let after = on_next(ctx, prev, start, next, had_line_break, is_expr_allowed).1;
    if ctx.len() >= 2 {
        assert(ctx.drop_last()[0] == Type::BraceStmt);
    }
    assert(after[0] == Type::BraceStmt);
}

} // verus!
