//! Numbers written as text and block positions: signed number arguments,
//! coordinate components (absolute, `~` relative, `^` local, or a macro
//! parameter), `pos(x, y, z)`, and `worldborder` 2D components.

use vstd::prelude::*;
use crate::parser::nbt::{signed_decimal, signed_text};
use super::cursor::{
    macro_state, Parser, Token, TokenKind, Span, Diagnostic, diag, advanced, kind_at, word_at, ident_at, merged,
    stream_ok, lemma_not_last, MacroType, MacroCoordinateKind,
};

verus! {

broadcast use vstd::string::group_string_axioms;

/// A coordinate component.
pub enum Coordinate {
    Absolute(String),
    Relative(String),
    Local(String),
    Macro(String),
}

/// A coordinate as the contracts speak of it: 0 absolute, 1 relative,
/// 2 local, 3 macro; and its text.
pub open spec fn coord_view(c: Coordinate) -> (int, Seq<char>) {
    match c {
        Coordinate::Absolute(s) => (0, s@),
        Coordinate::Relative(s) => (1, s@),
        Coordinate::Local(s) => (2, s@),
        Coordinate::Macro(s) => (3, s@),
    }
}

/// `pos(x, y, z)`.
pub struct BlockPosition {
    pub x: Coordinate,
    pub y: Coordinate,
    pub z: Coordinate,
    pub span: Span,
}

/// A block position as the contracts speak of it.
pub open spec fn position_view(p: BlockPosition) -> ((int, Seq<char>), (int, Seq<char>), (int, Seq<char>), Span) {
    (coord_view(p.x), coord_view(p.y), coord_view(p.z), p.span)
}

/// The text a number token stands for.
pub open spec fn number_text(k: TokenKind) -> Option<Seq<char>> {
    match k {
        TokenKind::Number(v) => Some(signed_decimal(v as int)),
        TokenKind::Decimal(s) => Some(s@),
        _ => None,
    }
}

/// An optional sign at `c`: whether it is `-`, and the position after it.
pub open spec fn sign_at(t: Seq<Token>, c: int) -> (bool, int) {
    if kind_at(t, c, TokenKind::Minus) {
        (true, c + 1)
    } else if kind_at(t, c, TokenKind::Plus) {
        (false, c + 1)
    } else {
        (false, c)
    }
}

pub open spec fn with_sign(negative: bool, text: Seq<char>) -> Seq<char> {
    if negative {
        seq!['-'] + text
    } else {
        text
    }
}

/// A signed number at `c`, as canonical text, and the position after it.
pub open spec fn signed_number_text_spec(t: Seq<Token>, c: int, name: Seq<char>) -> Result<(Seq<char>, int), (Seq<char>, Span)> {
    let (negative, n) = sign_at(t, c);
    match number_text(t[n].kind) {
        Some(x) => Ok((with_sign(negative, x), n + 1)),
        None => Err((name + " 需要数字"@, t[n].span)),
    }
}

/// The offset after `~` or `^` at `c` (empty before `,` or `)`).
pub open spec fn offset_spec(t: Seq<Token>, c: int, label: Seq<char>, prefix: Span) -> Result<(Seq<char>, int), (Seq<char>, Span)> {
    if kind_at(t, c, TokenKind::Comma) || kind_at(t, c, TokenKind::RightParen) {
        Ok((seq![], c))
    } else {
        let (negative, n) = sign_at(t, c);
        match number_text(t[n].kind) {
            Some(x) => Ok((with_sign(negative, x), n + 1)),
            None => Err((label + "的 `~`/`^` 偏移需要数字"@, merged(prefix, t[n].span))),
        }
    }
}

/// The type the first parameter named `name` is declared with.
pub open spec fn parameter_type(params: Seq<(Seq<char>, MacroType)>, name: Seq<char>) -> Option<MacroType>
    decreases params.len(),
{
    if params.len() == 0 {
        None
    } else if params[0].0 == name {
        Some(params[0].1)
    } else {
        parameter_type(params.drop_first(), name)
    }
}

/// A macro coordinate at `c` (`macro(name)`): its text `$(name)`, the use
/// of the parameter with its span, and the position after it; `None` when
/// no `macro` stands there.
pub open spec fn macro_coordinate_spec(
    t: Seq<Token>,
    c: int,
    params: Seq<(Seq<char>, MacroType)>,
    integer: bool,
) -> Result<Option<(Seq<char>, (Seq<char>, Span), int)>, (Seq<char>, Span)> {
    if !word_at(t, c, "macro"@) {
        Ok(None)
    } else if !kind_at(t, c + 1, TokenKind::LeftParen) {
        Err(("macro 坐标分量需要 `(`"@, t[c + 1].span))
    } else {
        match ident_at(t, c + 2, "宏坐标参数"@) {
            Err(e) => Err(e),
            Ok((name, span)) => {
                let kind = parameter_type(params, name);
                if kind != Some(MacroType::Integer) && (integer || kind != Some(MacroType::Decimal)) {
                    Err(
                        (
                            "宏坐标 `"@ + name + "` 需要声明为 "@ + (if integer {
                                "integer"@
                            } else {
                                "integer 或 decimal"@
                            }) + " 参数"@,
                            span,
                        ),
                    )
                } else if !kind_at(t, c + 3, TokenKind::RightParen) {
                    Err(("macro 坐标分量缺少 `)`"@, t[c + 3].span))
                } else {
                    Ok(Some((seq!['$', '('] + name + seq![')'], (name, span), c + 4)))
                }
            },
        }
    }
}

/// A coordinate component at `c`: the coordinate, the macro parameter it
/// uses (if any), and the position after it.
pub open spec fn coordinate_spec(t: Seq<Token>, c: int, label: Seq<char>, params: Seq<(Seq<char>, MacroType)>) -> Result<
    ((int, Seq<char>), Seq<(Seq<char>, Span)>, int),
    (Seq<char>, Span),
> {
    match macro_coordinate_spec(t, c, params, true) {
        Err(e) => Err(e),
        Ok(Some((text, used, after))) => Ok(((3, text), seq![used], after)),
        Ok(None) => if kind_at(t, c, TokenKind::Tilde) {
            match offset_spec(t, c + 1, label, t[c].span) {
                Ok((o, after)) => Ok(((1, seq!['~'] + o), seq![], after)),
                Err(e) => Err(e),
            }
        } else if kind_at(t, c, TokenKind::Caret) {
            match offset_spec(t, c + 1, label, t[c].span) {
                Ok((o, after)) => Ok(((2, seq!['^'] + o), seq![], after)),
                Err(e) => Err(e),
            }
        } else {
            let (negative, n) = sign_at(t, c);
            match t[n].kind {
                TokenKind::Number(v) => Ok(((0, with_sign(negative, signed_decimal(v as int))), seq![], n + 1)),
                _ => Err((label + "的绝对坐标需要整数，或用 `~`/`^` 写相对坐标"@, t[n].span)),
            }
        },
    }
}

/// The macro coordinate that a component records: its parameter name on
/// the given axis.
pub open spec fn recorded(coord: (int, Seq<char>), kind: MacroCoordinateKind) -> Seq<(Seq<char>, MacroCoordinateKind)> {
    if coord.0 == 3 {
        seq![(coord.1.subrange(2, coord.1.len() - 1), kind)]
    } else {
        seq![]
    }
}

pub open spec fn local_count(x: (int, Seq<char>), y: (int, Seq<char>), z: (int, Seq<char>)) -> int {
    (if x.0 == 2 { 1int } else { 0 }) + (if y.0 == 2 { 1int } else { 0 }) + (if z.0 == 2 { 1int } else { 0 })
}

/// A block position at `c`: its three components and span, the parameter
/// uses and macro coordinates it records, and the position after it.
pub open spec fn block_position_spec(t: Seq<Token>, c: int, label: Seq<char>, params: Seq<(Seq<char>, MacroType)>) -> Result<
    (
        ((int, Seq<char>), (int, Seq<char>), (int, Seq<char>), Span),
        Seq<(Seq<char>, Span)>,
        Seq<(Seq<char>, MacroCoordinateKind)>,
        int,
    ),
    (Seq<char>, Span),
> {
    if !(word_at(t, c, "pos"@) || word_at(t, c, "block_pos"@)) {
        Err((label + "需要 `pos(x, y, z)`（中文 `坐标(...)`，别名 `block_pos`）"@, t[c].span))
    } else if !kind_at(t, c + 1, TokenKind::LeftParen) {
        Err(("pos 后需要 `(`"@, t[c + 1].span))
    } else {
        match coordinate_spec(t, c + 2, label, params) {
            Err(e) => Err(e),
            Ok((x, xu, n1)) => if !kind_at(t, n1, TokenKind::Comma) {
                Err(("坐标分量后需要 `,`"@, t[n1].span))
            } else {
                match coordinate_spec(t, n1 + 1, label, params) {
                    Err(e) => Err(e),
                    Ok((y, yu, n2)) => if !kind_at(t, n2, TokenKind::Comma) {
                        Err(("坐标分量后需要 `,`"@, t[n2].span))
                    } else {
                        match coordinate_spec(t, n2 + 1, label, params) {
                            Err(e) => Err(e),
                            Ok((z, zu, n3)) => if !kind_at(t, n3, TokenKind::RightParen) {
                                Err(("坐标缺少 `)`"@, t[n3].span))
                            } else {
                                let span = merged(t[c].span, t[n3].span);
                                let local = local_count(x, y, z);
                                if local != 0 && local != 3 {
                                    Err(("方块坐标不能混用 `^` 局部坐标与 `~`/绝对坐标"@, span))
                                } else {
                                    Ok(
                                        (
                                            (x, y, z, span),
                                            xu + yu + zu,
                                            recorded(x, MacroCoordinateKind::Horizontal) + recorded(
                                                y,
                                                MacroCoordinateKind::Vertical,
                                            ) + recorded(z, MacroCoordinateKind::Horizontal),
                                            n3 + 1,
                                        ),
                                    )
                                }
                            },
                        }
                    },
                }
            },
        }
    }
}

/// A component of `worldborder.center`: a signed number or `~` with an
/// optional offset.
pub open spec fn vec2_component_spec(t: Seq<Token>, c: int, label: Seq<char>) -> Result<(Seq<char>, int), (Seq<char>, Span)> {
    if kind_at(t, c, TokenKind::Tilde) {
        match offset_spec(t, c + 1, label, t[c].span) {
            Ok((o, after)) => Ok((seq!['~'] + o, after)),
            Err(e) => Err(e),
        }
    } else {
        let (negative, n) = sign_at(t, c);
        match number_text(t[n].kind) {
            Some(x) => Ok((with_sign(negative, x), n + 1)),
            None => Err((label + "需要数字或 `~`"@, t[n].span)),
        }
    }
}

/// The text of a number token.
fn token_number_text(k: &TokenKind) -> (r: Option<String>)
    ensures
        match (r, number_text(*k)) {
            (Some(s), Some(x)) => s@ == x,
            (None, None) => true,
            _ => false,
        },
{
    match k {
        TokenKind::Number(v) => Some(signed_text(*v)),
        TokenKind::Decimal(s) => Some(s.clone()),
        _ => None,
    }
}

fn signed(negative: bool, text: String) -> (r: String)
    ensures
        r@ == with_sign(negative, text@),
{
    if negative {
        let mut r = "-".to_owned();
        r.append(text.as_str());
        proof {
            reveal_strlit("-");
        }
        r
    } else {
        text
    }
}

fn joined(a: &str, b: &str) -> (r: String)
    ensures
        r@ == a@ + b@,
{
    let mut r = a.to_owned();
    r.append(b);
    r
}

fn concat(a: &str, b: &str, c: &str) -> (r: String)
    ensures
        r@ == a@ + b@ + c@,
{
    let mut r = a.to_owned();
    r.append(b);
    r.append(c);
    r
}

impl Parser {
    /// An optional sign, then a number; the sign and the number are kept
    /// as text.
    pub fn signed_number_text(&mut self, name: &str) -> (r: Result<String, Diagnostic>)
        requires
            old(self).wf(),
        ensures
            final(self).wf(),
            final(self).tokens@ == old(self).tokens@,
            macro_state(&*final(self)) == macro_state(&*old(self)),
            match (r, signed_number_text_spec(old(self).tokens@, old(self).cursor as int, name@)) {
                (Ok(v), Ok((s, after))) => v@ == s && final(self).cursor == after,
                (Err(d), Err(e)) => diag(d) == e,
                _ => false,
            },
    {
        let ghost t = self.tokens@;
        let negative = self.negative_sign();
        let ghost n = self.cursor as int;
        let token = self.advance();
        match token_number_text(&token.kind) {
            Some(text) => {
                proof {
                    lemma_not_last(t, n);
                }
                Ok(signed(negative, text))
            },
            None => Err(Diagnostic { message: joined(name, " 需要数字"), span: token.span }),
        }
    }

    /// The offset after `~` or `^` (spanning from `prefix`).
    pub fn coordinate_offset(&mut self, label: &str, prefix: Span) -> (r: Result<String, Diagnostic>)
        requires
            old(self).wf(),
        ensures
            final(self).wf(),
            final(self).tokens@ == old(self).tokens@,
            macro_state(&*final(self)) == macro_state(&*old(self)),
            match (r, offset_spec(old(self).tokens@, old(self).cursor as int, label@, prefix)) {
                (Ok(v), Ok((s, after))) => v@ == s && final(self).cursor == after,
                (Err(d), Err(e)) => diag(d) == e,
                _ => false,
            },
    {
        let ghost t = self.tokens@;
        if self.check(&TokenKind::Comma) || self.check(&TokenKind::RightParen) {
            return Ok(String::new());
        }
        let negative = self.negative_sign();
        let ghost n = self.cursor as int;
        let token = self.advance();
        match token_number_text(&token.kind) {
            Some(text) => {
                proof {
                    lemma_not_last(t, n);
                }
                Ok(signed(negative, text))
            },
            None => Err(
                Diagnostic { message: joined(label, "的 `~`/`^` 偏移需要数字"), span: prefix.merge(token.span) },
            ),
        }
    }

    /// `macro(name)` as a coordinate component, when `macro` stands here;
    /// the parameter must be declared integer (or decimal, unless `integer`).
    pub fn macro_coordinate(&mut self, integer: bool) -> (r: Result<Option<Coordinate>, Diagnostic>)
        requires
            old(self).wf(),
        ensures
            final(self).wf(),
            final(self).tokens@ == old(self).tokens@,
            macro_state(&*final(self)).0 == macro_state(&*old(self)).0,
            macro_state(&*final(self)).2 == macro_state(&*old(self)).2,
            ({
                let (params, uses, _) = macro_state(&*old(self));
                match (r, macro_coordinate_spec(old(self).tokens@, old(self).cursor as int, params, integer)) {
                    (Ok(None), Ok(None)) => final(self).cursor == old(self).cursor && macro_state(&*final(self)).1
                        == uses,
                    (Ok(Some(coord)), Ok(Some((text, used, after)))) => coord_view(coord) == (3int, text) && final(self).cursor == after && macro_state(&*final(self)).1 == uses.push(used),
                    (Err(d), Err(e)) => diag(d) == e,
                    _ => false,
                }
            }),
    {
        let ghost t = self.tokens@;
        let ghost c = self.cursor as int;
        if !self.check_word("macro") {
            return Ok(None);
        }
        self.advance();
        proof {
            lemma_not_last(t, c);
        }
        match self.expect(TokenKind::LeftParen, "macro 坐标分量需要 `(`") {
            Ok(_) => {},
            Err(d) => return Err(d),
        }
        proof {
            lemma_not_last(t, c + 1);
        }
        let (name, span) = match self.ident("宏坐标参数") {
            Ok(found) => found,
            Err(d) => return Err(d),
        };
        proof {
            lemma_not_last(t, c + 2);
        }
        let kind = self.parameter_type(name.as_str());
        let is_integer = match kind {
            Some(MacroType::Integer) => true,
            _ => false,
        };
        let is_decimal = match kind {
            Some(MacroType::Decimal) => true,
            _ => false,
        };
        if !is_integer && (integer || !is_decimal) {
            let wanted = if integer {
                "integer"
            } else {
                "integer 或 decimal"
            };
            let mut m = concat("宏坐标 `", name.as_str(), "` 需要声明为 ");
            m.append(wanted);
            m.append(" 参数");
            return Err(Diagnostic { message: m, span });
        }
        match self.expect(TokenKind::RightParen, "macro 坐标分量缺少 `)`") {
            Ok(_) => {},
            Err(d) => return Err(d),
        }
        let text = concat("$(", name.as_str(), ")");
        proof {
            reveal_strlit("$(");
            reveal_strlit(")");
            assert(text@ =~= seq!['$', '('] + name@ + seq![')']);
        }
        let ghost before = self.macro_uses@;
        let ghost used = (name@, span);
        self.macro_uses.push((name, span));
        assert(self.macro_uses@.map_values(|e: (String, Span)| (e.0@, e.1)) =~= before.map_values(
            |e: (String, Span)| (e.0@, e.1),
        ).push(used));
        Ok(Some(Coordinate::Macro(text)))
    }

    /// The type of the first macro parameter named `name`.
    fn parameter_type(&self, name: &str) -> (r: Option<MacroType>)
        ensures
            r == parameter_type(macro_state(self).0, name@),
    {
        let ghost params = macro_state(self).0;
        assert(params.skip(0) =~= params);
        let mut i: usize = 0;
        while i < self.macro_parameters.len()
            invariant
                i <= self.macro_parameters@.len(),
                params == macro_state(self).0,
                parameter_type(params, name@) == parameter_type(params.skip(i as int), name@),
            decreases self.macro_parameters.len() - i,
        {
            assert(params.skip(i as int)[0] == (self.macro_parameters@[i as int].0@, self.macro_parameters@[i as int].1));
            if crate::chars::str_eq(self.macro_parameters[i].0.as_str(), name) {
                return Some(self.macro_parameters[i].1);
            }
            assert(params.skip(i as int).drop_first() =~= params.skip(i + 1));
            i += 1;
        }
        None
    }

    /// A coordinate component of a block position.
    pub fn coordinate(&mut self, label: &str) -> (r: Result<Coordinate, Diagnostic>)
        requires
            old(self).wf(),
        ensures
            final(self).wf(),
            final(self).tokens@ == old(self).tokens@,
            macro_state(&*final(self)).0 == macro_state(&*old(self)).0,
            macro_state(&*final(self)).2 == macro_state(&*old(self)).2,
            ({
                let (params, uses, _) = macro_state(&*old(self));
                match (r, coordinate_spec(old(self).tokens@, old(self).cursor as int, label@, params)) {
                    (Ok(coord), Ok((s, used, after))) => coord_view(coord) == s && final(self).cursor == after
                        && macro_state(&*final(self)).1 == uses + used && (s.0 == 3 ==> s.1.len() >= 3)
                        && after > old(self).cursor,
                    (Err(d), Err(e)) => diag(d) == e,
                    _ => false,
                }
            }),
    {
        let ghost t = self.tokens@;
        let ghost c = self.cursor as int;
        let ghost uses = macro_state(&*self).1;
        match self.macro_coordinate(true) {
            Err(d) => return Err(d),
            Ok(Some(value)) => {
                assert(uses.push(macro_state(&*self).1.last()) =~= uses + seq![macro_state(&*self).1.last()]);
                return Ok(value);
            },
            Ok(None) => {},
        }
        assert(uses + Seq::<(Seq<char>, Span)>::empty() =~= uses);
        if let Some(token) = self.take(&TokenKind::Tilde) {
            proof {
                lemma_not_last(t, c);
            }
            let offset = match self.coordinate_offset(label, token.span) {
                Ok(o) => o,
                Err(d) => return Err(d),
            };
            let text = joined("~", offset.as_str());
            proof {
                reveal_strlit("~");
                assert(text@ =~= seq!['~'] + offset@);
            }
            return Ok(Coordinate::Relative(text));
        }
        if let Some(token) = self.take(&TokenKind::Caret) {
            proof {
                lemma_not_last(t, c);
            }
            let offset = match self.coordinate_offset(label, token.span) {
                Ok(o) => o,
                Err(d) => return Err(d),
            };
            let text = joined("^", offset.as_str());
            proof {
                reveal_strlit("^");
                assert(text@ =~= seq!['^'] + offset@);
            }
            return Ok(Coordinate::Local(text));
        }
        let negative = self.negative_sign();
        let ghost n = self.cursor as int;
        let token = self.advance();
        match token.kind {
            TokenKind::Number(value) => {
                proof {
                    lemma_not_last(t, n);
                }
                Ok(Coordinate::Absolute(signed(negative, signed_text(value))))
            },
            _ => Err(
                Diagnostic {
                    message: joined(label, "的绝对坐标需要整数，或用 `~`/`^` 写相对坐标"),
                    span: token.span,
                },
            ),
        }
    }

    /// Records a macro coordinate's parameter on the given axis.
    pub fn record_macro_coordinate(&mut self, coordinate: &Coordinate, kind: MacroCoordinateKind)
        requires
            coord_view(*coordinate).0 == 3 ==> coord_view(*coordinate).1.len() >= 3,
        ensures
            final(self).tokens@ == old(self).tokens@,
            final(self).cursor == old(self).cursor,
            macro_state(&*final(self)).0 == macro_state(&*old(self)).0,
            macro_state(&*final(self)).1 == macro_state(&*old(self)).1,
            macro_state(&*final(self)).2 == macro_state(&*old(self)).2 + recorded(coord_view(*coordinate), kind),
    {
        let ghost before = macro_state(&*self).2;
        if let Coordinate::Macro(text) = coordinate {
            let chars = crate::chars::chars_of(text.as_str());
            let name = crate::chars::string_of(chars.as_slice(), 2, chars.len() - 1);
            let ghost entry = (name@, kind);
            self.macro_coordinates.push((name, kind));
            assert(macro_state(&*self).2 =~= before + seq![entry]);
        } else {
            assert(before + Seq::<(Seq<char>, MacroCoordinateKind)>::empty() =~= before);
        }
    }

    /// `pos(x, y, z)` (or `block_pos`): a block position, whose components
    /// are all local (`^`) or none of them.
    #[verifier::rlimit(60)]
    pub fn block_position(&mut self, label: &str) -> (r: Result<BlockPosition, Diagnostic>)
        requires
            old(self).wf(),
        ensures
            final(self).wf(),
            final(self).tokens@ == old(self).tokens@,
            macro_state(&*final(self)).0 == macro_state(&*old(self)).0,
            ({
                let (params, uses, coords) = macro_state(&*old(self));
                match (r, block_position_spec(old(self).tokens@, old(self).cursor as int, label@, params)) {
                    (Ok(p), Ok(((x, y, z, span), used, recorded, after))) => coord_view(p.x) == x && coord_view(p.y) == y
                        && coord_view(p.z) == z && p.span == span && final(self).cursor == after && macro_state(&*final(self)).1 == uses + used && macro_state(&*final(self)).2 == coords + recorded && after > old(self).cursor,
                    (Err(d), Err(e)) => diag(d) == e,
                    _ => false,
                }
            }),
    {
        let ghost t = self.tokens@;
        let ghost c = self.cursor as int;
        let ghost (params, uses0, coords0) = macro_state(&*self);
        let start = match self.take_word("pos") {
            Some(token) => token,
            None => match self.take_word("block_pos") {
                Some(token) => token,
                None => {
                    return Err(
                        Diagnostic {
                            message: joined(label, "需要 `pos(x, y, z)`（中文 `坐标(...)`，别名 `block_pos`）"),
                            span: self.tokens[self.cursor].span,
                        },
                    );
                },
            },
        };
        match self.expect(TokenKind::LeftParen, "pos 后需要 `(`") {
            Ok(_) => {},
            Err(d) => return Err(d),
        }
        proof {
            lemma_not_last(t, c + 1);
        }
        let x = match self.coordinate(label) {
            Ok(v) => v,
            Err(d) => return Err(d),
        };
        self.record_macro_coordinate(&x, MacroCoordinateKind::Horizontal);
        let ghost n1 = self.cursor as int;
        match self.expect(TokenKind::Comma, "坐标分量后需要 `,`") {
            Ok(_) => {},
            Err(d) => return Err(d),
        }
        proof {
            lemma_not_last(t, n1);
        }
        let y = match self.coordinate(label) {
            Ok(v) => v,
            Err(d) => return Err(d),
        };
        self.record_macro_coordinate(&y, MacroCoordinateKind::Vertical);
        let ghost n2 = self.cursor as int;
        match self.expect(TokenKind::Comma, "坐标分量后需要 `,`") {
            Ok(_) => {},
            Err(d) => return Err(d),
        }
        proof {
            lemma_not_last(t, n2);
        }
        let z = match self.coordinate(label) {
            Ok(v) => v,
            Err(d) => return Err(d),
        };
        self.record_macro_coordinate(&z, MacroCoordinateKind::Horizontal);
        let ghost n3 = self.cursor as int;
        let end = match self.expect(TokenKind::RightParen, "坐标缺少 `)`") {
            Ok(token) => token.span,
            Err(d) => return Err(d),
        };
        let span = start.span.merge(end);
        let mut local: u8 = 0;
        if let Coordinate::Local(_) = &x {
            local += 1;
        }
        if let Coordinate::Local(_) = &y {
            local += 1;
        }
        if let Coordinate::Local(_) = &z {
            local += 1;
        }
        if local != 0 && local != 3 {
            return Err(Diagnostic { message: "方块坐标不能混用 `^` 局部坐标与 `~`/绝对坐标".to_owned(), span });
        }
        Ok(BlockPosition { x, y, z, span })
    }

    /// A component of `worldborder.center`.
    pub fn vec2_component(&mut self, label: &str) -> (r: Result<String, Diagnostic>)
        requires
            old(self).wf(),
        ensures
            final(self).wf(),
            final(self).tokens@ == old(self).tokens@,
            macro_state(&*final(self)) == macro_state(&*old(self)),
            match (r, vec2_component_spec(old(self).tokens@, old(self).cursor as int, label@)) {
                (Ok(v), Ok((s, after))) => v@ == s && final(self).cursor == after,
                (Err(d), Err(e)) => diag(d) == e,
                _ => false,
            },
    {
        let ghost t = self.tokens@;
        let ghost c = self.cursor as int;
        if let Some(token) = self.take(&TokenKind::Tilde) {
            proof {
                lemma_not_last(t, c);
            }
            let offset = match self.coordinate_offset(label, token.span) {
                Ok(o) => o,
                Err(d) => return Err(d),
            };
            let text = joined("~", offset.as_str());
            proof {
                reveal_strlit("~");
                assert(text@ =~= seq!['~'] + offset@);
            }
            return Ok(text);
        }
        let negative = self.negative_sign();
        let ghost n = self.cursor as int;
        let token = self.advance();
        match token_number_text(&token.kind) {
            Some(text) => {
                proof {
                    lemma_not_last(t, n);
                }
                Ok(signed(negative, text))
            },
            None => Err(Diagnostic { message: joined(label, "需要数字或 `~`"), span: token.span }),
        }
    }
}

} // verus!
