use crate::context::{top, Type};
use crate::state::{on_next, State};
use crate::token::{classify, BytePos, ScanError, Token, TokenAndSpan};
use vstd::prelude::*;

verus! {

/// The character-level scanner that a [`Lexer`] drives.
pub trait Scanner {
    /// The position of the next character.
    fn cur_pos(&self) -> BytePos;

    /// Skips whitespace and comments; `Ok(true)` when they held a line break.
    fn skip_space(&mut self) -> Result<bool, ScanError>;

    /// Reads the next token outside raw template text; `Ok(None)` at the end
    /// of the input.
    fn read_token(&mut self) -> Result<Option<Token>, ScanError>;

    /// Reads the next token inside the template literal that started at
    /// `start`.
    fn read_tmpl_token(&mut self, start: BytePos) -> Result<Token, ScanError>;
}

/// A scanner together with the context state of its session.
pub struct Lexer<S: Scanner> {
    pub scanner: S,
    pub state: State,
}

impl<S: Scanner> Lexer<S> {
    pub fn new(scanner: S) -> (r: Lexer<S>)
        ensures
            r.scanner == scanner,
            r.state.wf(),
            r.state.is_first,
            r.state.is_expr_allowed,
            r.state.octal_pos is None,
            !r.state.had_line_break,
            r.state.ctx() == seq![Type::BraceStmt],
            r.state.prev() is None,
    {
        Lexer { scanner, state: State::new() }
    }

    /// Produces the next token with its span, an error token where the
    /// scanner failed, or `None` at the end of the input. A token that the
    /// scanner read is recorded; a failure leaves the contexts, the previous
    /// token and the flag as they were.
    pub fn next(&mut self) -> (r: Option<TokenAndSpan>)
        requires
            old(self).state.wf(),
            old(self).state.ctx().len() < usize::MAX,
        ensures
            final(self).state.wf(),
            !final(self).state.is_first,
            old(self).state.is_first ==> final(self).state.had_line_break,
            !old(self).state.is_first && top(old(self).state.ctx()) is Some && top(
                old(self).state.ctx(),
            )->0 is Tpl ==> !final(self).state.had_line_break,
            final(self).state.octal_pos == old(self).state.octal_pos,
            final(self).state.ctx().len() <= old(self).state.ctx().len() + 1,
            r is Some ==> r->0.had_line_break == final(self).state.had_line_break,
            r is Some ==> (r->0.token is Error && final(self).state.ctx() == old(self).state.ctx()
                && final(self).state.prev() == old(self).state.prev()
                && final(self).state.is_expr_allowed == old(self).state.is_expr_allowed) || (
            final(self).state.prev() == Some(classify(r->0.token)) && (
            final(self).state.is_expr_allowed,
            final(self).state.ctx(),
            ) == on_next(
                old(self).state.ctx(),
                old(self).state.prev(),
                r->0.span.lo,
                r->0.token,
                r->0.had_line_break,
                old(self).state.is_expr_allowed,
            )),
            r is None ==> final(self).state.ctx() == old(self).state.ctx()
                && final(self).state.prev() == old(self).state.prev()
                && final(self).state.is_expr_allowed == old(self).state.is_expr_allowed,
    {
        self.state.begin_token();
        // whitespace is skipped except inside the raw text of a template
        if self.state.can_skip_space() {
            let start = self.scanner.cur_pos();
            let skipped = self.scanner.skip_space();
            let end = self.scanner.cur_pos();
            let failed = self.state.after_skip(start, end, skipped);
            if failed.is_some() {
                return failed;
            }
        }
        let start = self.scanner.cur_pos();
        let res = match self.state.tpl_start() {
            Some(tpl_start) => match self.scanner.read_tmpl_token(tpl_start) {
                Ok(t) => Ok(Some(t)),
                Err(e) => Err(e),
            },
            None => self.scanner.read_token(),
        };
        let end = self.scanner.cur_pos();
        self.state.finish_token(start, end, res)
    }
}

} // verus!
