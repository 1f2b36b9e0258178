//! Function declarations: `@tick fn 名称(参数, …) -> score { … }`.

use vstd::prelude::*;
use crate::parser::keywords::values::{Attribute, attribute_word, attribute_word_spec};
use super::cursor::{
    macro_state, Parser, Token, TokenKind, Span, Diagnostic, diag, kind_at, word_at, ident_at, merged, stream_ok,
    lemma_not_last, expected_word_message, MacroType,
};
use super::components::{stuck, Trace, extends};
use super::statements::{Statement, StmtView, stmts_view, block_spec};

verus! {

broadcast use vstd::string::group_string_axioms;

/// A function parameter and its span.
pub struct Parameter {
    pub name: String,
    pub span: Span,
}

/// A function declaration.
pub struct Function {
    pub exported: bool,
    pub name: String,
    pub name_span: Span,
    pub parameters: Vec<Parameter>,
    pub returns_score: bool,
    pub attributes: Vec<Attribute>,
    pub body: Vec<Statement>,
    pub span: Span,
}

/// A function as the contracts speak of it.
pub struct FunctionView {
    pub attributes: Seq<Attribute>,
    pub name: Seq<char>,
    pub name_span: Span,
    pub parameters: Seq<(Seq<char>, Span)>,
    pub returns_score: bool,
    pub body: Seq<StmtView>,
    pub span: Span,
}

pub open spec fn parameters_view(v: Seq<Parameter>) -> Seq<(Seq<char>, Span)> {
    v.map_values(|p: Parameter| (p.name@, p.span))
}

/// `f` is the function `v`.
pub open spec fn function_matches(f: Function, v: FunctionView) -> bool {
    &&& f.attributes@ == v.attributes
    &&& f.name@ == v.name
    &&& f.name_span == v.name_span
    &&& parameters_view(f.parameters@) == v.parameters
    &&& f.returns_score == v.returns_score
    &&& stmts_view(f.body@) == v.body
    &&& f.span == v.span
}

/// The attributes `@名称` from `c` on, after `done`, and the position after
/// them.
pub open spec fn attributes_spec(t: Seq<Token>, c: int, done: Seq<Attribute>) -> Result<
    (Seq<Attribute>, int),
    (Seq<char>, Span),
>
    decreases t.len() - c,
{
    if !stream_ok(t, c) {
        Err(stuck())
    } else if !kind_at(t, c, TokenKind::At) {
        Ok((done, c))
    } else {
        match ident_at(t, c + 1, "属性名称"@) {
            Err(e) => Err(e),
            Ok((word, span)) => match attribute_word_spec(word) {
                None => Err(("未知函数属性 `@"@ + word + "`"@, span)),
                Some(a) => attributes_spec(t, c + 2, done.push(a)),
            },
        }
    }
}

/// The parameter names from `c` on, after `done`, separated by `,`, and
/// the position after the last.
pub open spec fn parameters_spec(t: Seq<Token>, c: int, done: Seq<(Seq<char>, Span)>) -> Result<
    (Seq<(Seq<char>, Span)>, int),
    (Seq<char>, Span),
>
    decreases t.len() - c,
{
    if !stream_ok(t, c) {
        Err(stuck())
    } else {
        match ident_at(t, c, "参数名称"@) {
            Err(e) => Err(e),
            Ok((name, span)) => if kind_at(t, c + 1, TokenKind::Comma) {
                parameters_spec(t, c + 2, done.push((name, span)))
            } else {
                Ok((done.push((name, span)), c + 1))
            },
        }
    }
}

/// The signature after the attributes, from `fn` at `q`: name and its
/// span, parameters, whether it returns a score, and the position of its
/// body.
pub open spec fn signature_spec(t: Seq<Token>, q: int) -> Result<
    ((Seq<char>, Span, Seq<(Seq<char>, Span)>, bool), int),
    (Seq<char>, Span),
> {
    if !word_at(t, q, "fn"@) {
        Err((expected_word_message("fn"@), t[q].span))
    } else {
        match ident_at(t, q + 1, "函数名称"@) {
            Err(e) => Err(e),
            Ok((name, name_span)) => if !kind_at(t, q + 2, TokenKind::LeftParen) {
                Err(("函数名称后需要 `(`"@, t[q + 2].span))
            } else {
                let listed = if kind_at(t, q + 3, TokenKind::RightParen) {
                    Ok((seq![], q + 3))
                } else {
                    parameters_spec(t, q + 3, seq![])
                };
                match listed {
                    Err(e) => Err(e),
                    Ok((parameters, p)) => if !kind_at(t, p, TokenKind::RightParen) {
                        Err(("参数列表缺少 `)`"@, t[p].span))
                    } else if kind_at(t, p + 1, TokenKind::Arrow) && !word_at(t, p + 2, "score"@) {
                        Err((expected_word_message("score"@), t[p + 2].span))
                    } else if kind_at(t, p + 1, TokenKind::Arrow) {
                        Ok(((name, name_span, parameters, true), p + 3))
                    } else {
                        Ok(((name, name_span, parameters, false), p + 1))
                    },
                }
            },
        }
    }
}

/// The signature and body from `fn` at `q`: name, its span, parameters,
/// whether it returns a score, body, what the body records, and the
/// position after the `}`.
#[verifier::opaque]
pub open spec fn signature_and_body(t: Seq<Token>, q: int, params: Seq<(Seq<char>, MacroType)>) -> Result<
    ((Seq<char>, Span, Seq<(Seq<char>, Span)>, bool), Seq<StmtView>, Trace, int),
    (Seq<char>, Span),
> {
    match signature_spec(t, q) {
        Err(e) => Err(e),
        Ok((sig, b)) => match block_spec(t, b, params) {
            Err(e) => Err(e),
            Ok((body, tr, after)) => Ok((sig, body, tr, after)),
        },
    }
}

/// A function declaration at `c`: the function, what its body records,
/// and the position after its `}`.
pub open spec fn function_spec(t: Seq<Token>, c: int, params: Seq<(Seq<char>, MacroType)>) -> Result<
    (FunctionView, Trace, int),
    (Seq<char>, Span),
> {
    match attributes_spec(t, c, seq![]) {
        Err(e) => Err(e),
        Ok((attributes, q)) => match signature_and_body(t, q, params) {
            Err(e) => Err(e),
            Ok(((name, name_span, parameters, returns_score), body, tr, after)) => Ok(
                (
                    FunctionView {
                        attributes,
                        name,
                        name_span,
                        parameters,
                        returns_score,
                        body,
                        span: merged(t[c].span, t[after - 1].span),
                    },
                    tr,
                    after,
                ),
            ),
        },
    }
}

impl Parser {
    /// The attributes before `fn`, after `done`.
    fn function_attributes(&mut self, done: Vec<Attribute>) -> (r: Result<Vec<Attribute>, Diagnostic>)
        requires
            old(self).wf(),
        ensures
            final(self).wf(),
            final(self).tokens@ == old(self).tokens@,
            macro_state(&*final(self)) == macro_state(&*old(self)),
            match (r, attributes_spec(old(self).tokens@, old(self).cursor as int, done@)) {
                (Ok(v), Ok((w, after))) => v@ == w && final(self).cursor == after && after >= old(self).cursor,
                (Err(d), Err(e)) => diag(d) == e,
                _ => false,
            },
        decreases old(self).tokens@.len() - old(self).cursor,
    {
        let ghost t = self.tokens@;
        let ghost c = self.cursor as int;
        if self.take(&TokenKind::At).is_none() {
            return Ok(done);
        }
        proof {
            lemma_not_last(t, c);
        }
        let (word, span) = match self.ident("属性名称") {
            Ok(found) => found,
            Err(d) => return Err(d),
        };
        proof {
            lemma_not_last(t, c + 1);
        }
        let attribute = match attribute_word(word.as_str()) {
            Some(a) => a,
            None => {
                let mut m = "未知函数属性 `@".to_owned();
                m.append(word.as_str());
                m.append("`");
                return Err(Diagnostic { message: m, span });
            },
        };
        let mut done = done;
        done.push(attribute);
        self.function_attributes(done)
    }

    /// The parameter names, after `done`.
    fn function_parameters(&mut self, done: Vec<Parameter>) -> (r: Result<Vec<Parameter>, Diagnostic>)
        requires
            old(self).wf(),
        ensures
            final(self).wf(),
            final(self).tokens@ == old(self).tokens@,
            macro_state(&*final(self)) == macro_state(&*old(self)),
            match (r, parameters_spec(old(self).tokens@, old(self).cursor as int, parameters_view(done@))) {
                (Ok(v), Ok((w, after))) => parameters_view(v@) == w && final(self).cursor == after && after > old(
                    self,
                ).cursor,
                (Err(d), Err(e)) => diag(d) == e,
                _ => false,
            },
        decreases old(self).tokens@.len() - old(self).cursor,
    {
        let ghost t = self.tokens@;
        let ghost c = self.cursor as int;
        let (name, span) = match self.ident("参数名称") {
            Ok(found) => found,
            Err(d) => return Err(d),
        };
        proof {
            lemma_not_last(t, c);
        }
        let mut done = done;
        let ghost before = done@;
        done.push(Parameter { name, span });
        assert(parameters_view(done@) =~= parameters_view(before).push((done@.last().name@, span)));
        if self.take(&TokenKind::Comma).is_some() {
            proof {
                lemma_not_last(t, c + 1);
            }
            self.function_parameters(done)
        } else {
            Ok(done)
        }
    }

    /// The signature from `fn` to the body.
    fn function_signature(&mut self) -> (r: Result<(String, Span, Vec<Parameter>, bool), Diagnostic>)
        requires
            old(self).wf(),
        ensures
            final(self).wf(),
            final(self).tokens@ == old(self).tokens@,
            macro_state(&*final(self)) == macro_state(&*old(self)),
            match (r, signature_spec(old(self).tokens@, old(self).cursor as int)) {
                (Ok((name, name_span, parameters, returns_score)), Ok(((n, ns, ps, rs), b))) => name@ == n && name_span
                    == ns && parameters_view(parameters@) == ps && returns_score == rs && final(self).cursor == b
                    && b > old(self).cursor,
                (Err(d), Err(e)) => diag(d) == e,
                _ => false,
            },
    {
        let ghost t = self.tokens@;
        let ghost q = self.cursor as int;
        match self.expect_word("fn") {
            Ok(_) => {},
            Err(d) => return Err(d),
        }
        proof {
            lemma_not_last(t, q);
        }
        let (name, name_span) = match self.ident("函数名称") {
            Ok(found) => found,
            Err(d) => return Err(d),
        };
        proof {
            lemma_not_last(t, q + 1);
        }
        match self.expect(TokenKind::LeftParen, "函数名称后需要 `(`") {
            Ok(_) => {},
            Err(d) => return Err(d),
        }
        proof {
            lemma_not_last(t, q + 2);
        }
        let parameters = if self.check(&TokenKind::RightParen) {
            assert(parameters_view(Seq::<Parameter>::empty()) =~= seq![]);
            Vec::new()
        } else {
            assert(parameters_view(Seq::<Parameter>::empty()) =~= seq![]);
            match self.function_parameters(Vec::new()) {
                Ok(v) => v,
                Err(d) => return Err(d),
            }
        };
        let ghost p = self.cursor as int;
        match self.expect(TokenKind::RightParen, "参数列表缺少 `)`") {
            Ok(_) => {},
            Err(d) => return Err(d),
        }
        proof {
            lemma_not_last(t, p);
        }
        let returns_score = if self.take(&TokenKind::Arrow).is_some() {
            proof {
                lemma_not_last(t, p + 1);
            }
            match self.expect_word("score") {
                Ok(_) => {},
                Err(d) => return Err(d),
            }
            proof {
                lemma_not_last(t, p + 2);
            }
            true
        } else {
            false
        };
        Ok((name, name_span, parameters, returns_score))
    }

    /// The signature and body of a function, from `fn`.
    #[verifier::rlimit(40)]
    fn function_rest(&mut self) -> (r: Result<((String, Span, Vec<Parameter>, bool), Vec<Statement>, Span), Diagnostic>)
        requires
            old(self).wf(),
        ensures
            final(self).wf(),
            final(self).tokens@ == old(self).tokens@,
            match (r, signature_and_body(old(self).tokens@, old(self).cursor as int, macro_state(&*old(self)).0)) {
                (Ok(((name, name_span, parameters, returns_score), body, end)), Ok(((n, ns, ps, rs), w, tr, after))) => name@
                    == n && name_span == ns && parameters_view(parameters@) == ps && returns_score == rs && stmts_view(
                    body@,
                ) == w && end == old(self).tokens@[after - 1].span && final(self).cursor == after && after > old(
                    self,
                ).cursor && extends(macro_state(&*final(self)), macro_state(&*old(self)), tr),
                (Err(d), Err(e)) => diag(d) == e,
                _ => false,
            },
    {
        proof {
            reveal(signature_and_body);
        }
        let sig = match self.function_signature() {
            Ok(found) => found,
            Err(d) => return Err(d),
        };
        let (body, end) = match self.block() {
            Ok(found) => found,
            Err(d) => return Err(d),
        };
        Ok((sig, body, end))
    }

    /// A function declaration.
    pub fn function(&mut self) -> (r: Result<Function, Diagnostic>)
        requires
            old(self).wf(),
        ensures
            final(self).wf(),
            final(self).tokens@ == old(self).tokens@,
            match (r, function_spec(old(self).tokens@, old(self).cursor as int, macro_state(&*old(self)).0)) {
                (Ok(f), Ok((v, tr, after))) => !f.exported && function_matches(f, v) && final(self).cursor == after
                    && after > old(self).cursor && extends(macro_state(&*final(self)), macro_state(&*old(self)), tr),
                (Err(d), Err(e)) => diag(d) == e,
                _ => false,
            },
    {
        let first = self.tokens[self.cursor].span;
        let attributes = match self.function_attributes(Vec::new()) {
            Ok(v) => v,
            Err(d) => return Err(d),
        };
        let ((name, name_span, parameters, returns_score), body, end) = match self.function_rest() {
            Ok(found) => found,
            Err(d) => return Err(d),
        };
        Ok(
            Function {
                exported: false,
                name,
                name_span,
                parameters,
                returns_score,
                attributes,
                body,
                span: first.merge(end),
            },
        )
    }
}

} // verus!
