use js_lexer_state::context::Type;
use js_lexer_state::lexer::{Lexer, Scanner};
use js_lexer_state::state::State;
use js_lexer_state::token::{
    BinOpToken, BytePos, Keyword, ScanError, Span, Token, TokenAndSpan, TokenType,
};

fn feed(s: &mut State, toks: &[Token]) {
    for (i, t) in toks.iter().enumerate() {
        s.update(BytePos(i as u32), t);
    }
}

fn assign() -> Token {
    Token::Other { before_expr: true }
}

#[test]
fn division_after_identifier() {
    let mut s = State::new();
    feed(&mut s, &[Token::Ident]);
    assert!(!s.is_expr_allowed);
    s.update(BytePos(2), &Token::BinOp(BinOpToken::Div));
    assert!(s.is_expr_allowed);
}

#[test]
fn regex_after_return() {
    let mut s = State::new();
    feed(&mut s, &[Token::Keyword(Keyword::Return)]);
    assert!(s.is_expr_allowed);
}

#[test]
fn keyword_after_dot_is_a_property() {
    let mut s = State::new();
    feed(&mut s, &[Token::Ident, Token::Dot, Token::Keyword(Keyword::Return)]);
    assert!(!s.is_expr_allowed);
    assert_eq!(s.context_depth(), 1);
}

#[test]
fn function_declaration_body_is_block() {
    let mut s = State::new();
    feed(
        &mut s,
        &[
            Token::Keyword(Keyword::Function),
            Token::Ident,
            Token::LParen,
            Token::RParen,
            Token::LBrace,
        ],
    );
    assert_eq!(s.current_context(), Some(Type::BraceStmt));
    assert_eq!(s.context_depth(), 2);
    s.update(BytePos(9), &Token::RBrace);
    assert_eq!(s.context_depth(), 1);
}

#[test]
fn object_literal_after_assignment() {
    let mut s = State::new();
    feed(
        &mut s,
        &[Token::Keyword(Keyword::Let), Token::Ident, assign(), Token::LBrace],
    );
    assert_eq!(s.current_context(), Some(Type::BraceExpr));
    assert!(s.is_expr_allowed);
}

#[test]
fn nested_braces_after_colon() {
    // `{ a: {} }` in statement position: a block holding a labelled block
    let mut s = State::new();
    feed(&mut s, &[Token::LBrace, Token::Ident, Token::Colon, Token::LBrace]);
    assert_eq!(s.current_context(), Some(Type::BraceStmt));
    feed(&mut s, &[Token::RBrace, Token::RBrace]);
    assert_eq!(s.context_depth(), 1);

    // `x = { a: {} }`: an object literal holding an object literal
    let mut e = State::new();
    feed(
        &mut e,
        &[Token::Ident, assign(), Token::LBrace, Token::Ident, Token::Colon, Token::LBrace],
    );
    assert_eq!(e.current_context(), Some(Type::BraceExpr));
    assert_eq!(e.context_depth(), 3);
    e.update(BytePos(7), &Token::RBrace);
    assert_eq!(e.current_context(), Some(Type::BraceExpr));
    e.update(BytePos(8), &Token::RBrace);
    assert_eq!(e.context_depth(), 1);
    assert!(!e.is_expr_allowed);
}

#[test]
fn return_brace_depends_on_line_break() {
    let mut s = State::new();
    feed(&mut s, &[Token::Keyword(Keyword::Return), Token::LBrace]);
    assert_eq!(s.current_context(), Some(Type::BraceExpr));

    let mut b = State::new();
    feed(&mut b, &[Token::Keyword(Keyword::Return)]);
    b.had_line_break = true;
    b.update(BytePos(7), &Token::LBrace);
    assert_eq!(b.current_context(), Some(Type::BraceStmt));
}

#[test]
fn brace_after_type_parameters_is_block() {
    // `class C<T> {`
    let mut s = State::new();
    feed(
        &mut s,
        &[
            Token::Keyword(Keyword::Class),
            Token::Ident,
            Token::BinOp(BinOpToken::Lt),
            Token::Ident,
            Token::BinOp(BinOpToken::Gt),
            Token::LBrace,
        ],
    );
    assert_eq!(s.current_context(), Some(Type::BraceStmt));
}

#[test]
fn declaration_name_after_line_break() {
    let mut s = State::new();
    feed(&mut s, &[Token::Keyword(Keyword::Let)]);
    s.had_line_break = true;
    s.update(BytePos(4), &Token::Ident);
    assert!(s.is_expr_allowed);

    let mut t = State::new();
    feed(&mut t, &[Token::Keyword(Keyword::Let), Token::Ident]);
    assert!(!t.is_expr_allowed);
}

#[test]
fn for_of_keyword() {
    let mut s = State::new();
    feed(
        &mut s,
        &[Token::Keyword(Keyword::For), Token::LParen, Token::Ident],
    );
    assert_eq!(s.current_context(), Some(Type::ParenStmt { is_for_loop: true }));
    s.update(BytePos(7), &Token::Of);
    assert!(s.is_expr_allowed);
    feed(&mut s, &[Token::Ident, Token::RParen]);
    assert!(s.is_expr_allowed);
    s.update(BytePos(12), &Token::LBrace);
    assert_eq!(s.current_context(), Some(Type::BraceStmt));
    s.update(BytePos(13), &Token::RBrace);
    assert_eq!(s.context_depth(), 1);

    // an identifier named `of` outside a `for` header
    let mut t = State::new();
    feed(&mut t, &[Token::Keyword(Keyword::Let), Token::Of]);
    assert!(!t.is_expr_allowed);
}

#[test]
fn if_paren_is_statement_header() {
    let mut s = State::new();
    feed(&mut s, &[Token::Keyword(Keyword::If), Token::LParen]);
    assert_eq!(s.current_context(), Some(Type::ParenStmt { is_for_loop: false }));
    let mut c = State::new();
    feed(&mut c, &[Token::Ident, Token::LParen]);
    assert_eq!(c.current_context(), Some(Type::ParenExpr));
    c.update(BytePos(2), &Token::RParen);
    assert!(!c.is_expr_allowed);
}

#[test]
fn template_nesting_round_trip() {
    // `a${ `b${c}` }d`
    let mut s = State::new();
    s.update(BytePos(0), &Token::BackQuote);
    assert_eq!(s.current_context(), Some(Type::Tpl { start: BytePos(0) }));
    assert!(!s.can_skip_space());
    s.update(BytePos(1), &Token::Template);
    assert!(s.last_was_tpl_element());
    s.update(BytePos(2), &Token::DollarLBrace);
    assert_eq!(s.current_context(), Some(Type::TplQuasi));
    assert!(s.can_skip_space());
    assert!(!s.last_was_tpl_element());
    s.update(BytePos(5), &Token::BackQuote);
    assert_eq!(s.current_context(), Some(Type::Tpl { start: BytePos(5) }));
    assert_eq!(s.context_depth(), 4);
    s.update(BytePos(6), &Token::Template);
    s.update(BytePos(7), &Token::DollarLBrace);
    s.update(BytePos(9), &Token::Ident);
    assert_eq!(s.context_depth(), 5);
    s.update(BytePos(10), &Token::RBrace);
    assert!(s.is_expr_allowed);
    assert_eq!(s.current_context(), Some(Type::Tpl { start: BytePos(5) }));
    s.update(BytePos(11), &Token::BackQuote);
    assert_eq!(s.current_context(), Some(Type::TplQuasi));
    s.update(BytePos(13), &Token::RBrace);
    assert_eq!(s.current_context(), Some(Type::Tpl { start: BytePos(0) }));
    assert!(!s.can_skip_space());
    s.update(BytePos(14), &Token::Template);
    s.update(BytePos(15), &Token::BackQuote);
    assert_eq!(s.context_depth(), 1);
    assert!(s.can_skip_space());
    assert!(!s.is_expr_allowed);
}

#[test]
fn function_expression_body_closes_marker() {
    // `let f = function(){}/42/i`
    let mut s = State::new();
    feed(
        &mut s,
        &[Token::Keyword(Keyword::Let), Token::Ident, assign()],
    );
    s.update(BytePos(8), &Token::Keyword(Keyword::Function));
    assert!(!s.is_expr_allowed);
    assert_eq!(s.current_context(), Some(Type::FnExpr));
    feed(&mut s, &[Token::LParen, Token::RParen, Token::LBrace]);
    assert_eq!(s.context_depth(), 3);
    s.update(BytePos(19), &Token::RBrace);
    assert_eq!(s.context_depth(), 1);
    assert_eq!(s.current_context(), Some(Type::BraceStmt));
    assert!(!s.is_expr_allowed);
}

#[test]
fn stack_balance_mixed_nesting() {
    // `f(a, { b: [c] })`
    let mut s = State::new();
    feed(&mut s, &[Token::Ident]);
    let before = s.context_depth();
    feed(
        &mut s,
        &[
            Token::LParen,
            Token::Ident,
            Token::Other { before_expr: true },
            Token::LBrace,
            Token::Ident,
            Token::Colon,
            Token::Other { before_expr: true },
            Token::Ident,
            Token::Other { before_expr: false },
        ],
    );
    assert_eq!(s.context_depth(), before + 2);
    s.update(BytePos(20), &Token::RBrace);
    assert_eq!(s.context_depth(), before + 1);
    s.update(BytePos(21), &Token::RParen);
    assert_eq!(s.context_depth(), before);
}

#[test]
fn unbalanced_closers_stay_at_top_level() {
    let mut s = State::new();
    feed(&mut s, &[Token::Ident, Token::RParen]);
    assert!(s.is_expr_allowed);
    assert_eq!(s.context_depth(), 1);
    feed(&mut s, &[Token::RBrace, Token::RBrace, Token::RParen]);
    assert_eq!(s.context_depth(), 1);
    assert_eq!(s.current_context(), Some(Type::BraceStmt));
    s.update(BytePos(9), &Token::LBrace);
    assert_eq!(s.context_depth(), 2);
}

#[test]
fn increment_keeps_flag() {
    let mut s = State::new();
    feed(&mut s, &[Token::Ident, Token::PlusPlus]);
    assert!(!s.is_expr_allowed);
    let mut t = State::new();
    feed(&mut t, &[Token::MinusMinus]);
    assert!(t.is_expr_allowed);
}

#[test]
fn default_matches_new() {
    let s = State::default();
    assert!(s.is_expr_allowed);
    assert!(s.is_first);
    assert!(!s.had_line_break);
    assert_eq!(s.octal_pos, None);
    assert_eq!(s.token_type, None);
    assert_eq!(s.context_depth(), 1);
    assert_eq!(s.current_context(), Some(Type::BraceStmt));
    assert!(s.can_skip_space());
    assert_eq!(s.tpl_start(), None);
}

#[test]
fn classification_values() {
    assert_eq!(TokenType::from_token(&Token::Dot), TokenType::Dot);
    assert_eq!(
        TokenType::from_token(&Token::Keyword(Keyword::Let)),
        TokenType::Keyword(Keyword::Let)
    );
    assert_eq!(
        TokenType::from_token(&Token::LParen),
        TokenType::Other { before_expr: true }
    );
    assert_eq!(
        TokenType::from_token(&Token::Ident),
        TokenType::Other { before_expr: false }
    );
    assert!(!TokenType::Template.before_expr());
    assert!(TokenType::Semi.before_expr());
}

#[test]
fn keyword_before_expr_values() {
    assert!(Keyword::TypeOf.before_expr());
    assert!(Keyword::Return.before_expr());
    assert!(!Keyword::This.before_expr());
    assert!(!Keyword::Function.before_expr());
    assert!(BinOpToken::Lt.before_expr());
}

#[test]
fn finish_token_records_and_spans() {
    let mut s = State::new();
    s.begin_token();
    assert!(s.had_line_break);
    assert!(!s.is_first);
    let r = s.finish_token(BytePos(0), BytePos(3), Ok(Some(Token::Ident)));
    assert_eq!(
        r,
        Some(TokenAndSpan {
            token: Token::Ident,
            had_line_break: true,
            span: Span { lo: BytePos(0), hi: BytePos(3) },
        })
    );
    assert!(!s.is_expr_allowed);
    assert_eq!(s.finish_token(BytePos(3), BytePos(3), Ok(None)), None);
    assert!(!s.is_expr_allowed);
}

#[test]
fn scan_failure_becomes_error_token() {
    let mut s = State::new();
    let err = ScanError { span: Span { lo: BytePos(1), hi: BytePos(2) } };
    let r = s.finish_token(BytePos(0), BytePos(2), Err(err));
    assert_eq!(
        r,
        Some(TokenAndSpan {
            token: Token::Error(err),
            had_line_break: false,
            span: Span { lo: BytePos(0), hi: BytePos(2) },
        })
    );
    assert!(s.is_expr_allowed);
    assert_eq!(s.token_type, None);
    assert_eq!(s.context_depth(), 1);
}

#[test]
fn scan_failure_inside_template_keeps_contexts() {
    let mut s = State::new();
    s.update(BytePos(0), &Token::BackQuote);
    let err = ScanError { span: Span { lo: BytePos(1), hi: BytePos(4) } };
    let r = s.finish_token(BytePos(1), BytePos(4), Err(err));
    assert_eq!(r.unwrap().token, Token::Error(err));
    assert_eq!(s.current_context(), Some(Type::Tpl { start: BytePos(0) }));
    assert_eq!(s.token_type, Some(TokenType::Other { before_expr: false }));
    assert!(!s.is_expr_allowed);
}

#[test]
fn after_skip_notes_line_break_and_failure() {
    let mut s = State::new();
    s.begin_token();
    s.had_line_break = false;
    assert_eq!(s.after_skip(BytePos(0), BytePos(2), Ok(false)), None);
    assert!(!s.had_line_break);
    assert_eq!(s.after_skip(BytePos(0), BytePos(2), Ok(true)), None);
    assert!(s.had_line_break);
    let err = ScanError { span: Span { lo: BytePos(2), hi: BytePos(3) } };
    assert_eq!(
        s.after_skip(BytePos(2), BytePos(3), Err(err)),
        Some(TokenAndSpan {
            token: Token::Error(err),
            had_line_break: true,
            span: Span { lo: BytePos(2), hi: BytePos(3) },
        })
    );
    assert!(s.is_expr_allowed);
    assert_eq!(s.context_depth(), 1);
}

struct ListScanner {
    items: Vec<(u32, Token, u32, bool)>,
    next: usize,
    pos: u32,
    fail_skip: bool,
    tmpl_reads: usize,
}

impl Scanner for ListScanner {
    fn cur_pos(&self) -> BytePos {
        BytePos(self.pos)
    }

    fn skip_space(&mut self) -> Result<bool, ScanError> {
        if self.fail_skip {
            self.pos += 1;
            return Err(ScanError { span: Span { lo: BytePos(0), hi: BytePos(self.pos) } });
        }
        match self.items.get(self.next) {
            Some(&(lo, _, _, nl)) => {
                self.pos = lo;
                Ok(nl)
            }
            None => Ok(false),
        }
    }

    fn read_token(&mut self) -> Result<Option<Token>, ScanError> {
        match self.items.get(self.next) {
            Some(&(lo, t, hi, _)) => {
                self.next += 1;
                self.pos = hi;
                let _ = lo;
                Ok(Some(t))
            }
            None => Ok(None),
        }
    }

    fn read_tmpl_token(&mut self, _start: BytePos) -> Result<Token, ScanError> {
        self.tmpl_reads += 1;
        let (lo, t, hi, _) = self.items[self.next];
        self.next += 1;
        self.pos = hi;
        let _ = lo;
        Ok(t)
    }
}

#[test]
fn lexer_produces_spans_and_line_breaks() {
    let scanner = ListScanner {
        items: vec![
            (0, Token::Keyword(Keyword::Let), 3, false),
            (4, Token::Ident, 5, true),
            (6, Token::BackQuote, 7, false),
            (7, Token::Template, 9, false),
            (9, Token::BackQuote, 10, false),
        ],
        next: 0,
        pos: 0,
        fail_skip: false,
        tmpl_reads: 0,
    };
    let mut lx = Lexer::new(scanner);
    let first = lx.next().unwrap();
    assert_eq!(first.token, Token::Keyword(Keyword::Let));
    assert!(first.had_line_break);
    assert_eq!(first.span, Span { lo: BytePos(0), hi: BytePos(3) });
    let second = lx.next().unwrap();
    assert_eq!(second.token, Token::Ident);
    assert!(second.had_line_break);
    assert!(lx.state.is_expr_allowed);
    assert_eq!(second.span, Span { lo: BytePos(4), hi: BytePos(5) });
    let open = lx.next().unwrap();
    assert!(!open.had_line_break);
    assert_eq!(lx.state.tpl_start(), Some(BytePos(6)));
    let text = lx.next().unwrap();
    assert_eq!(text.token, Token::Template);
    assert_eq!(text.span, Span { lo: BytePos(7), hi: BytePos(9) });
    let close = lx.next().unwrap();
    assert_eq!(close.token, Token::BackQuote);
    assert_eq!(lx.scanner.tmpl_reads, 2);
    assert_eq!(lx.state.context_depth(), 1);
    assert_eq!(lx.next(), None);
}

#[test]
fn lexer_reports_skip_failure() {
    let scanner = ListScanner {
        items: vec![(0, Token::Ident, 1, false)],
        next: 0,
        pos: 0,
        fail_skip: true,
        tmpl_reads: 0,
    };
    let mut lx = Lexer::new(scanner);
    let r = lx.next().unwrap();
    assert_eq!(r.token, Token::Error(ScanError { span: Span { lo: BytePos(0), hi: BytePos(1) } }));
    assert_eq!(r.span, Span { lo: BytePos(0), hi: BytePos(1) });
    assert!(r.had_line_break);
    assert_eq!(lx.state.token_type, None);
    assert_eq!(lx.state.context_depth(), 1);
}

#[test]
fn balance_across_function_and_template() {
    // `f(function () {}, `x`)`
    let mut s = State::new();
    feed(&mut s, &[Token::Ident]);
    let before = s.context_depth();
    feed(
        &mut s,
        &[
            Token::LParen,
            Token::Keyword(Keyword::Function),
            Token::LParen,
            Token::RParen,
            Token::LBrace,
        ],
    );
    assert_eq!(s.context_depth(), before + 3);
    s.update(BytePos(20), &Token::RBrace);
    assert_eq!(s.current_context(), Some(Type::ParenExpr));
    feed(
        &mut s,
        &[
            Token::Other { before_expr: true },
            Token::BackQuote,
            Token::Template,
            Token::BackQuote,
            Token::RParen,
        ],
    );
    assert_eq!(s.context_depth(), before);
    assert!(!s.is_expr_allowed);
}
