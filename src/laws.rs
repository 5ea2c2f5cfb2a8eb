use crate::context::{brace_is_block, top, Type};
use crate::state::{lemma_on_next_keeps_stack_ok, on_next, paren_context, stack_ok};
use crate::token::{classify, BytePos, Keyword, Token, TokenType};
use vstd::prelude::*;

verus! {

/// A `(`, `{` or `${` opens exactly one context on top of those already
/// open. A closing `)` or `}` that meets the stack as the opener left it
/// (the tokens in between having closed whatever they opened) removes that
/// context again, so the depth returns to what it was before the opener.
/// The one exception is the body of a function expression: its closing `}`
/// also removes the function-expression context beneath it, which the
/// keyword `function` had opened.
pub proof fn lemma_stack_balance(
    ctx: Seq<Type>,
    prev: Option<TokenType>,
    start: BytePos,
    opener: Token,
    had_line_break: bool,
    is_expr_allowed: bool,
    inner_prev: Option<TokenType>,
    close_start: BytePos,
    closer: Token,
    close_line_break: bool,
    close_expr_allowed: bool,
)
    requires
        stack_ok(ctx, prev),
        opener is LParen || opener is LBrace || opener is DollarLBrace,
        closer is RParen || closer is RBrace,
    ensures
        ({
            let opened = on_next(ctx, prev, start, opener, had_line_break, is_expr_allowed).1;
            let closed = on_next(opened, inner_prev, close_start, closer, close_line_break, close_expr_allowed).1;
            &&& opened.len() == ctx.len() + 1
            &&& opened.drop_last() == ctx
            &&& if opened.last() == Type::BraceStmt && top(ctx) == Some(Type::FnExpr) {
                closed == ctx.drop_last()
            } else {
                closed == ctx
            }
        }),
{
    let opened = on_next(ctx, prev, start, opener, had_line_break, is_expr_allowed).1;
    assert(opened.drop_last() =~= ctx);
}

/// How a token changes the bracket depth: `(`, `{` and `${` open, `)` and
/// `}` close.
pub open spec fn bracket_delta(t: Token) -> int {
    match t {
        Token::LParen | Token::LBrace | Token::DollarLBrace => 1,
        Token::RParen | Token::RBrace => -1,
        _ => 0,
    }
}

/// Tokens that open no context of their own besides brackets: not a
/// backquote, not the keyword `function`.
pub open spec fn bracket_or_plain(t: Token) -> bool {
    !(t is BackQuote) && t != Token::Keyword(Keyword::Function)
}

/// `steps` (start, token, line break before it) nest their brackets
/// properly, starting at depth `depth`: the depth never drops below zero and
/// ends at zero.
pub open spec fn nests(steps: Seq<(BytePos, Token, bool)>, depth: int) -> bool
    decreases steps.len(),
{
    if steps.len() == 0 {
        depth == 0
    } else {
        let d = depth + bracket_delta(steps[0].1);
        &&& d >= 0
        &&& bracket_or_plain(steps[0].1)
        &&& nests(steps.drop_first(), d)
    }
}

/// The flag and the open contexts after the tokens of `steps`, one by one.
pub open spec fn run(
    ctx: Seq<Type>,
    prev: Option<TokenType>,
    is_expr_allowed: bool,
    steps: Seq<(BytePos, Token, bool)>,
) -> (bool, Seq<Type>)
    decreases steps.len(),
{
    if steps.len() == 0 {
        (is_expr_allowed, ctx)
    } else {
        let (start, t, line_break) = steps[0];
        let (e, c) = on_next(ctx, prev, start, t, line_break, is_expr_allowed);
        run(c, Some(classify(t)), e, steps.drop_first())
    }
}

/// Contexts that a bracket opens.
pub open spec fn bracket_context(t: Type) -> bool {
    t is BraceStmt || t is BraceExpr || t is ParenStmt || t is ParenExpr || t is TplQuasi
}

proof fn lemma_run_closes_opened(
    base: Seq<Type>,
    opened: Seq<Type>,
    prev: Option<TokenType>,
    is_expr_allowed: bool,
    steps: Seq<(BytePos, Token, bool)>,
)
    requires
        base.len() >= 1,
        top(base) != Some(Type::FnExpr),
        forall|i: int| 0 <= i < opened.len() ==> bracket_context(#[trigger] opened[i]),
        nests(steps, opened.len() as int),
    ensures
        run(base + opened, prev, is_expr_allowed, steps).1 == base,
    decreases steps.len(),
{
    let ctx = base + opened;
    if steps.len() == 0 {
        assert(ctx =~= base);
    } else {
        let (start, t, line_break) = steps[0];
        let (e, c) = on_next(ctx, prev, start, t, line_break, is_expr_allowed);
        let next_opened = if bracket_delta(t) == 1 {
            opened.push(c.last())
        } else if bracket_delta(t) == -1 {
            opened.drop_last()
        } else {
            opened
        };
        if bracket_delta(t) == 1 {
            assert(c =~= base + next_opened);
        } else if bracket_delta(t) == -1 {
            assert(ctx.drop_last() =~= base + opened.drop_last());
            if opened.len() >= 2 {
                assert(opened.drop_last().last() == opened[opened.len() - 2]);
            }
            assert(c =~= base + next_opened);
        } else {
            assert(c =~= base + next_opened);
        }
        lemma_run_closes_opened(base, next_opened, Some(classify(t)), e, steps.drop_first());
    }
}

/// Tokens whose brackets nest properly leave the open contexts as they found
/// them, however deep the nesting and whatever stands between the brackets
/// (but a template or a function expression, which open contexts of their
/// own). This holds unless the innermost open context is a function
/// expression: a block opened there is that function's body, and closing it
/// closes the function expression too.
pub proof fn lemma_nested_brackets_balance(
    ctx: Seq<Type>,
    prev: Option<TokenType>,
    is_expr_allowed: bool,
    steps: Seq<(BytePos, Token, bool)>,
)
    requires
        stack_ok(ctx, prev),
        top(ctx) != Some(Type::FnExpr),
        nests(steps, 0),
    ensures
        run(ctx, prev, is_expr_allowed, steps).1 == ctx,
{
    assert(ctx + Seq::<Type>::empty() =~= ctx);
    lemma_run_closes_opened(ctx, Seq::empty(), prev, is_expr_allowed, steps);
}

/// No sequence of tokens, balanced or not, empties the stack: the program's
/// top level stays at its bottom.
pub proof fn lemma_run_never_underflows(
    ctx: Seq<Type>,
    prev: Option<TokenType>,
    is_expr_allowed: bool,
    steps: Seq<(BytePos, Token, bool)>,
)
    requires
        stack_ok(ctx, prev),
    ensures
        run(ctx, prev, is_expr_allowed, steps).1.len() >= 1,
        run(ctx, prev, is_expr_allowed, steps).1[0] == Type::BraceStmt,
    decreases steps.len(),
{
    if steps.len() > 0 {
        let (start, t, line_break) = steps[0];
        let (e, c) = on_next(ctx, prev, start, t, line_break, is_expr_allowed);
        lemma_on_next_keeps_stack_ok(ctx, prev, start, t, line_break, is_expr_allowed);
        lemma_run_never_underflows(c, Some(classify(t)), e, steps.drop_first());
    }
}

/// A closing `)` or `}` never empties the stack, balanced or not: the
/// program's top level stays at the bottom. At the top level the closer
/// leaves the stack as it is and lets an expression follow.
pub proof fn lemma_close_no_underflow(
    ctx: Seq<Type>,
    prev: Option<TokenType>,
    start: BytePos,
    closer: Token,
    had_line_break: bool,
    is_expr_allowed: bool,
)
    requires
        stack_ok(ctx, prev),
        closer is RParen || closer is RBrace,
    ensures
        stack_ok(on_next(ctx, prev, start, closer, had_line_break, is_expr_allowed).1, Some(classify(closer))),
        on_next(ctx, prev, start, closer, had_line_break, is_expr_allowed).1.len() >= 1,
        ctx.len() == 1 ==> on_next(ctx, prev, start, closer, had_line_break, is_expr_allowed) == (true, ctx),
{
    lemma_on_next_keeps_stack_ok(ctx, prev, start, closer, had_line_break, is_expr_allowed);
}

/// Every token of `steps`, run from `ctx`, leaves at least `depth` contexts
/// open.
pub open spec fn stays_above(
    ctx: Seq<Type>,
    prev: Option<TokenType>,
    is_expr_allowed: bool,
    steps: Seq<(BytePos, Token, bool)>,
    depth: int,
) -> bool
    decreases steps.len(),
{
    if steps.len() == 0 {
        true
    } else {
        let (start, t, line_break) = steps[0];
        let (e, c) = on_next(ctx, prev, start, t, line_break, is_expr_allowed);
        c.len() >= depth && stays_above(c, Some(classify(t)), e, steps.drop_first(), depth)
    }
}

proof fn lemma_on_next_shape(
    ctx: Seq<Type>,
    prev: Option<TokenType>,
    start: BytePos,
    next: Token,
    had_line_break: bool,
    is_expr_allowed: bool,
)
    ensures
        ({
            let c = on_next(ctx, prev, start, next, had_line_break, is_expr_allowed).1;
            ||| c == ctx
            ||| c.len() == ctx.len() + 1 && c.drop_last() == ctx
            ||| ctx.len() >= 1 && c == ctx.drop_last()
            ||| ctx.len() >= 2 && c == ctx.drop_last().drop_last()
        }),
{
    let c = on_next(ctx, prev, start, next, had_line_break, is_expr_allowed).1;
    if c.len() == ctx.len() + 1 {
        assert(c.drop_last() =~= ctx);
    }
}

proof fn lemma_run_keeps_bottom(
    ctx: Seq<Type>,
    prev: Option<TokenType>,
    is_expr_allowed: bool,
    steps: Seq<(BytePos, Token, bool)>,
    depth: int,
)
    requires
        0 <= depth <= ctx.len(),
        stays_above(ctx, prev, is_expr_allowed, steps, depth),
    ensures
        run(ctx, prev, is_expr_allowed, steps).1.len() >= depth,
        run(ctx, prev, is_expr_allowed, steps).1.subrange(0, depth) == ctx.subrange(0, depth),
    decreases steps.len(),
{
    if steps.len() > 0 {
        let (start, t, line_break) = steps[0];
        let (e, c) = on_next(ctx, prev, start, t, line_break, is_expr_allowed);
        lemma_on_next_shape(ctx, prev, start, t, line_break, is_expr_allowed);
        assert(c.subrange(0, depth) =~= ctx.subrange(0, depth));
        lemma_run_keeps_bottom(c, Some(classify(t)), e, steps.drop_first(), depth);
    }
}

/// Whatever a run of tokens opens, it closes from the top: while the run
/// never goes below the depth it started at, the contexts that were open
/// stay untouched, so a run that ends at that depth (every bracket,
/// template and function expression in it closed again) leaves the stack
/// exactly as it found it.
pub proof fn lemma_balanced_run_restores_stack(
    ctx: Seq<Type>,
    prev: Option<TokenType>,
    is_expr_allowed: bool,
    steps: Seq<(BytePos, Token, bool)>,
)
    requires
        stays_above(ctx, prev, is_expr_allowed, steps, ctx.len() as int),
        run(ctx, prev, is_expr_allowed, steps).1.len() == ctx.len(),
    ensures
        run(ctx, prev, is_expr_allowed, steps).1 == ctx,
{
    lemma_run_keeps_bottom(ctx, prev, is_expr_allowed, steps, ctx.len() as int);
    assert(run(ctx, prev, is_expr_allowed, steps).1 =~= run(ctx, prev, is_expr_allowed, steps).1.subrange(0, ctx.len() as int));
    assert(ctx =~= ctx.subrange(0, ctx.len() as int));
}

/// `function` where an expression is expected (and a `{` would not open a
/// block) opens a function-expression context and lets no expression
/// follow; its body, a block after the parameter list's `)`, is closed by a
/// `}` that closes the function expression too, so the stack is back to
/// what it was before `function` and no expression follows.
pub proof fn lemma_function_expression_balance(
    ctx: Seq<Type>,
    prev: Option<TokenType>,
    start: BytePos,
    had_line_break: bool,
    is_expr_allowed: bool,
    body_start: BytePos,
    body_line_break: bool,
    body_expr_allowed: bool,
    end_prev: Option<TokenType>,
    end_start: BytePos,
    end_line_break: bool,
    end_expr_allowed: bool,
)
    requires
        stack_ok(ctx, prev),
        prev != Some(TokenType::Dot),
        is_expr_allowed,
        !brace_is_block(ctx, prev, had_line_break, is_expr_allowed),
    ensures
        on_next(ctx, prev, start, Token::Keyword(Keyword::Function), had_line_break, is_expr_allowed) == (
            false,
            ctx.push(Type::FnExpr),
        ),
        on_next(ctx.push(Type::FnExpr), Some(TokenType::RParen), body_start, Token::LBrace, body_line_break, body_expr_allowed)
            == (true, ctx.push(Type::FnExpr).push(Type::BraceStmt)),
        on_next(
            ctx.push(Type::FnExpr).push(Type::BraceStmt),
            end_prev,
            end_start,
            Token::RBrace,
            end_line_break,
            end_expr_allowed,
        ) == (false, ctx),
{
    assert(ctx.push(Type::FnExpr).push(Type::BraceStmt).drop_last() =~= ctx.push(Type::FnExpr));
    assert(ctx.push(Type::FnExpr).drop_last() =~= ctx);
}

/// A token that opens or closes nothing, and is neither an identifier nor
/// `function`, leaves the contexts as they are; an expression may follow it
/// exactly when one may follow that kind of token (after an identifier, no:
/// `/` divides; after `return`, yes: `/` starts a regular expression), and
/// `++` or `--` keep the flag as it was.
pub proof fn lemma_plain_token(
    ctx: Seq<Type>,
    prev: Option<TokenType>,
    start: BytePos,
    next: Token,
    had_line_break: bool,
    is_expr_allowed: bool,
)
    requires
        !(next is RParen || next is RBrace || next is LParen || next is LBrace || next is DollarLBrace
            || next is BackQuote || next is Ident || next is Of),
        next != Token::Keyword(Keyword::Function),
        !(next is Keyword && prev == Some(TokenType::Dot)),
    ensures
        on_next(ctx, prev, start, next, had_line_break, is_expr_allowed) == (
            if next is PlusPlus || next is MinusMinus {
                is_expr_allowed
            } else {
                next.spec_before_expr()
            },
            ctx,
        ),
{
}

/// A `{` always lets an expression follow and opens a block context or an
/// object-literal context as the brace rule decides.
pub proof fn lemma_brace_opens(
    ctx: Seq<Type>,
    prev: Option<TokenType>,
    start: BytePos,
    had_line_break: bool,
    is_expr_allowed: bool,
)
    ensures
        on_next(ctx, prev, start, Token::LBrace, had_line_break, is_expr_allowed) == (
            true,
            ctx.push(
                if brace_is_block(ctx, prev, had_line_break, is_expr_allowed) {
                    Type::BraceStmt
                } else {
                    Type::BraceExpr
                },
            ),
        ),
{
}

/// An identifier (but `of` in a `for` header) leaves the contexts as they
/// are and lets an expression follow only when it comes after `let`,
/// `const` or `var` and a line break: then it starts a new statement.
pub proof fn lemma_identifier(
    ctx: Seq<Type>,
    prev: Option<TokenType>,
    start: BytePos,
    next: Token,
    had_line_break: bool,
    is_expr_allowed: bool,
)
    requires
        next is Ident || next is Of,
        !(next is Of && top(ctx) == Some(Type::ParenStmt { is_for_loop: true }) && prev is Some),
    ensures
        on_next(ctx, prev, start, next, had_line_break, is_expr_allowed) == (
            had_line_break && (prev == Some(TokenType::Keyword(Keyword::Let)) || prev == Some(
                TokenType::Keyword(Keyword::Const),
            ) || prev == Some(TokenType::Keyword(Keyword::Var))),
            ctx,
        ),
{
}

/// A `(` lets an expression follow and opens a statement header after
/// `if`, `with` or `while`, a `for` header after `for`, and an expression
/// otherwise. Inside a `for` header, `of` is the iteration keyword: an
/// expression follows it exactly when none could follow the token before.
pub proof fn lemma_paren_and_for_of(
    ctx: Seq<Type>,
    prev: Option<TokenType>,
    start: BytePos,
    had_line_break: bool,
    is_expr_allowed: bool,
)
    ensures
        on_next(ctx, prev, start, Token::LParen, had_line_break, is_expr_allowed) == (true, ctx.push(paren_context(prev))),
        paren_context(Some(TokenType::Keyword(Keyword::For))) == (Type::ParenStmt { is_for_loop: true }),
        top(ctx) == Some(Type::ParenStmt { is_for_loop: true }) && prev is Some ==> on_next(
            ctx,
            prev,
            start,
            Token::Of,
            had_line_break,
            is_expr_allowed,
        ) == (!prev->0.spec_before_expr(), ctx),
{
}

/// Template contexts come in matched pairs: a backquote outside template
/// text opens a template, whose raw text keeps its whitespace, and the next
/// backquote in that text closes it; `${` opens an interpolation, whose
/// whitespace may be skipped, and `}` closes it and returns to the template
/// text with an expression allowed. No expression follows a backquote.
pub proof fn lemma_template_pairs(
    ctx: Seq<Type>,
    prev: Option<TokenType>,
    start: BytePos,
    had_line_break: bool,
    is_expr_allowed: bool,
    close_prev: Option<TokenType>,
    close_start: BytePos,
    close_line_break: bool,
    close_expr_allowed: bool,
)
    requires
        !(top(ctx) is Some && top(ctx)->0 is Tpl),
    ensures
        ({
            let opened = ctx.push(Type::Tpl { start });
            &&& on_next(ctx, prev, start, Token::BackQuote, had_line_break, is_expr_allowed) == (false, opened)
            &&& opened.last().spec_preserve_space()
            &&& on_next(opened, close_prev, close_start, Token::BackQuote, close_line_break, close_expr_allowed)
                == (false, ctx)
        }),
        on_next(ctx, prev, start, Token::DollarLBrace, had_line_break, is_expr_allowed) == (
            true,
            ctx.push(Type::TplQuasi),
        ),
        !Type::TplQuasi.spec_preserve_space(),
        ctx.len() >= 1 ==> on_next(
            ctx.push(Type::TplQuasi),
            close_prev,
            close_start,
            Token::RBrace,
            close_line_break,
            close_expr_allowed,
        ) == (true, ctx),
{
    assert(ctx.push(Type::Tpl { start }).drop_last() =~= ctx);
    assert(ctx.push(Type::TplQuasi).drop_last() =~= ctx);
}

} // verus!
