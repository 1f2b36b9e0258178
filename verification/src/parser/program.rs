//! Programs: an optional `namespace 名称;`, then imports and
//! declarations (each optionally `export`ed) up to the end of the tokens;
//! and `parse`, which reads a program from a token stream.

use vstd::prelude::*;
use super::cursor::{
    macro_state, Parser, Token, TokenKind, Span, Diagnostic, diag, kind_at, word_at, ident_at, merged, stream_ok,
    lemma_not_last, MacroType,
};
use super::components::{moved, stuck, Trace, MacroState, no_trace, followed_by, extends, lemma_extends_none, lemma_extends_then};
use super::numbers::after_minus;
use super::imports::{ImportDecl, decl_view, import_spec};
use super::declarations::{ScoreDecl, DataSlotDecl, DataSlotKind, ResourceDecl, score_spec, data_slot_spec, resource_spec};
use super::tags::{FunctionTagDecl, StorageDecl, entries_view, function_tag_spec, storage_spec, tag_after};
use super::objectives::{ObjectiveDecl, ObjectiveView, objective_view, objective_spec};
use super::query::{EntityQueryDecl, QueryView, query_view, query_spec};
use super::items::{ItemStackDecl, ItemView, item_matches, item_stack_spec};
use super::advancement_decls::{AdvancementDecl, AdvancementView, advancement_matches, advancement_spec};
use super::functions::{Function, FunctionView, function_matches, function_spec};

verus! {

broadcast use vstd::string::group_string_axioms;

/// A `score` declaration at `c`, and the position after it.
#[verifier::opaque]
pub open spec fn score_item(t: Seq<Token>, c: int) -> Result<((Seq<char>, Span, i32, Span), int), (Seq<char>, Span)> {
    match score_spec(t, c) {
        Ok(v) => Ok((v, after_minus(t, c + 3).1 + 2)),
        Err(e) => Err(e),
    }
}

pub open spec fn score_match(x: ScoreDecl, v: (Seq<char>, Span, i32, Span)) -> bool {
    (x.name@, x.name_span, x.initial, x.span) == v
}

/// A `storage` declaration at `c`, and the position after it.
#[verifier::opaque]
pub open spec fn storage_item(t: Seq<Token>, c: int) -> Result<((Seq<char>, Span, Seq<char>, Seq<char>, Span), int), (Seq<char>, Span)> {
    match storage_spec(t, c) {
        Ok(v) => Ok((v, c + 10)),
        Err(e) => Err(e),
    }
}

pub open spec fn storage_match(x: StorageDecl, v: (Seq<char>, Span, Seq<char>, Seq<char>, Span)) -> bool {
    (x.name@, x.name_span, x.storage_id@, x.path@, x.span) == v
}

/// A `data_slot` declaration at `c`, and the position after it.
#[verifier::opaque]
pub open spec fn data_slot_item(t: Seq<Token>, c: int) -> Result<((Seq<char>, Span, bool, Seq<char>, Span, Span), int), (Seq<char>, Span)> {
    match data_slot_spec(t, c) {
        Ok(v) => Ok((v, c + 8)),
        Err(e) => Err(e),
    }
}

pub open spec fn data_slot_match(x: DataSlotDecl, v: (Seq<char>, Span, bool, Seq<char>, Span, Span)) -> bool {
    (x.name@, x.name_span, x.kind == DataSlotKind::ItemData, x.key@, x.key_span, x.span) == v
}

/// A `resource` declaration at `c`, and the position after it.
#[verifier::opaque]
pub open spec fn resource_item(t: Seq<Token>, c: int) -> Result<((Seq<char>, Seq<char>, Span, Seq<char>, Span), int), (Seq<char>, Span)> {
    match resource_spec(t, c) {
        Ok(v) => Ok((v, c + 6)),
        Err(e) => Err(e),
    }
}

pub open spec fn resource_match(x: ResourceDecl, v: (Seq<char>, Seq<char>, Span, Seq<char>, Span)) -> bool {
    (x.kind@, x.name@, x.name_span, x.json@, x.span) == v
}

/// A `fn_tag` declaration at `c`, and the position after it.
#[verifier::opaque]
pub open spec fn function_tag_item(t: Seq<Token>, c: int) -> Result<((Seq<char>, Span, Seq<(int, Seq<char>, Span)>, bool, Span), int), (Seq<char>, Span)> {
    match function_tag_spec(t, c) {
        Ok(v) => Ok((v, tag_after(t, c))),
        Err(e) => Err(e),
    }
}

pub open spec fn function_tag_match(x: FunctionTagDecl, v: (Seq<char>, Span, Seq<(int, Seq<char>, Span)>, bool, Span)) -> bool {
    (x.name@, x.name_span, entries_view(x.values@), x.replace, x.span) == v
}

/// An `import` at `c`.
#[verifier::opaque]
pub open spec fn import_item(t: Seq<Token>, c: int) -> Result<((Seq<Seq<char>>, Span, Option<Seq<(Seq<char>, Span, Option<Seq<char>>)>>), int), (Seq<char>, Span)> {
    import_spec(t, c)
}

/// An `objective` declaration at `c`, what it records, and the position
/// after it.
#[verifier::opaque]
pub open spec fn objective_item(t: Seq<Token>, c: int, params: Seq<(Seq<char>, MacroType)>) -> Result<
    ((Seq<char>, Span, ObjectiveView, Span), Trace, int),
    (Seq<char>, Span),
> {
    match objective_spec(t, c, params) {
        Ok((name, name_span, o, span, tr, after)) => Ok(((name, name_span, o, span), tr, after)),
        Err(e) => Err(e),
    }
}

pub open spec fn objective_match(x: ObjectiveDecl, v: (Seq<char>, Span, ObjectiveView, Span)) -> bool {
    x.name@ == v.0 && x.name_span == v.1 && objective_view(x) == v.2 && x.span == v.3
}

/// A `query` declaration at `c`.
#[verifier::opaque]
pub open spec fn query_item(t: Seq<Token>, c: int) -> Result<
    ((Seq<char>, Span, Seq<char>, QueryView, Span), int),
    (Seq<char>, Span),
> {
    match query_spec(t, c) {
        Ok((name, name_span, entity_type, v, span, after)) => Ok(((name, name_span, entity_type, v, span), after)),
        Err(e) => Err(e),
    }
}

pub open spec fn query_match(x: EntityQueryDecl, v: (Seq<char>, Span, Seq<char>, QueryView, Span)) -> bool {
    x.name@ == v.0 && x.name_span == v.1 && x.entity_type@ == v.2 && query_view(x) == v.3 && x.span == v.4
}

/// An `item` definition at `c`.
#[verifier::opaque]
pub open spec fn item_stack_item(t: Seq<Token>, c: int) -> Result<
    ((Seq<char>, Seq<char>, ItemView, Span), int),
    (Seq<char>, Span),
> {
    match item_stack_spec(t, c) {
        Ok((name, item_id, s, span, after)) => Ok(((name, item_id, s, span), after)),
        Err(e) => Err(e),
    }
}

pub open spec fn item_stack_match(x: ItemStackDecl, v: (Seq<char>, Seq<char>, ItemView, Span)) -> bool {
    x.name@ == v.0 && x.item_id@ == v.1 && item_matches(x, v.2) && x.span == v.3
}

/// An `advancement` declaration at `c`.
#[verifier::opaque]
pub open spec fn advancement_item(t: Seq<Token>, c: int) -> Result<
    ((Seq<char>, Span, AdvancementView, Span), int),
    (Seq<char>, Span),
> {
    match advancement_spec(t, c) {
        Ok((name, name_span, a, span, after)) => Ok(((name, name_span, a, span), after)),
        Err(e) => Err(e),
    }
}

pub open spec fn advancement_match(x: AdvancementDecl, v: (Seq<char>, Span, AdvancementView, Span)) -> bool {
    x.name@ == v.0 && x.name_span == v.1 && advancement_matches(x, v.2) && x.span == v.3
}

/// A function declaration at `c`.
#[verifier::opaque]
pub open spec fn function_item(t: Seq<Token>, c: int, params: Seq<(Seq<char>, MacroType)>) -> Result<(FunctionView, Trace, int), (Seq<char>, Span)> {
    function_spec(t, c, params)
}

/// One declaration of a program as the contracts speak of it, with
/// whether it is exported.
pub enum DeclView {
    Import((Seq<Seq<char>>, Span, Option<Seq<(Seq<char>, Span, Option<Seq<char>>)>>)),
    Score(bool, (Seq<char>, Span, i32, Span)),
    Objective(bool, (Seq<char>, Span, ObjectiveView, Span)),
    Query(bool, (Seq<char>, Span, Seq<char>, QueryView, Span)),
    ItemStack(bool, (Seq<char>, Seq<char>, ItemView, Span)),
    Storage(bool, (Seq<char>, Span, Seq<char>, Seq<char>, Span)),
    DataSlot(bool, (Seq<char>, Span, bool, Seq<char>, Span, Span)),
    Resource(bool, (Seq<char>, Seq<char>, Span, Seq<char>, Span)),
    Advancement(bool, (Seq<char>, Span, AdvancementView, Span)),
    FunctionTag(bool, (Seq<char>, Span, Seq<(int, Seq<char>, Span)>, bool, Span)),
    Function(bool, FunctionView),
}

/// One declaration of a program.
pub enum Declaration {
    Import(ImportDecl),
    Score(ScoreDecl),
    Objective(ObjectiveDecl),
    Query(EntityQueryDecl),
    ItemStack(ItemStackDecl),
    Storage(StorageDecl),
    DataSlot(DataSlotDecl),
    Resource(ResourceDecl),
    Advancement(AdvancementDecl),
    FunctionTag(FunctionTagDecl),
    Function(Function),
}

pub open spec fn decl_matches(x: Declaration, v: DeclView) -> bool {
    match (x, v) {
        (Declaration::Import(d), DeclView::Import(w)) => decl_view(d) == w,
        (Declaration::Score(d), DeclView::Score(e, w)) => d.exported == e && score_match(d, w),
        (Declaration::Objective(d), DeclView::Objective(e, w)) => d.exported == e && objective_match(d, w),
        (Declaration::Query(d), DeclView::Query(e, w)) => d.exported == e && query_match(d, w),
        (Declaration::ItemStack(d), DeclView::ItemStack(e, w)) => d.exported == e && item_stack_match(d, w),
        (Declaration::Storage(d), DeclView::Storage(e, w)) => d.exported == e && storage_match(d, w),
        (Declaration::DataSlot(d), DeclView::DataSlot(e, w)) => d.exported == e && data_slot_match(d, w),
        (Declaration::Resource(d), DeclView::Resource(e, w)) => d.exported == e && resource_match(d, w),
        (Declaration::Advancement(d), DeclView::Advancement(e, w)) => d.exported == e && advancement_match(d, w),
        (Declaration::FunctionTag(d), DeclView::FunctionTag(e, w)) => d.exported == e && function_tag_match(d, w),
        (Declaration::Function(d), DeclView::Function(e, w)) => d.exported == e && function_matches(d, w),
        _ => false,
    }
}

/// The declaration at `c` (an import, or a declaration after an optional
/// `export`), what it records, and the position after it.
pub open spec fn decl_spec(t: Seq<Token>, c: int, params: Seq<(Seq<char>, MacroType)>) -> Result<(DeclView, Trace, int), (Seq<char>, Span)> {
    if word_at(t, c, "import"@) {
        match import_item(t, c) {
            Ok((v, after)) => Ok((DeclView::Import(v), no_trace(), after)),
            Err(e) => Err(e),
        }
    } else {
        let ex = word_at(t, c, "export"@);
        let d = if ex {
            c + 1
        } else {
            c
        };
        if word_at(t, d, "score"@) {
            match score_item(t, d) {
                Ok((v, after)) => Ok((DeclView::Score(ex, v), no_trace(), after)),
                Err(e) => Err(e),
            }
        } else if word_at(t, d, "objective"@) {
            match objective_item(t, d, params) {
                Ok((v, tr, after)) => Ok((DeclView::Objective(ex, v), tr, after)),
                Err(e) => Err(e),
            }
        } else if word_at(t, d, "query"@) {
            match query_item(t, d) {
                Ok((v, after)) => Ok((DeclView::Query(ex, v), no_trace(), after)),
                Err(e) => Err(e),
            }
        } else if word_at(t, d, "item"@) {
            match item_stack_item(t, d) {
                Ok((v, after)) => Ok((DeclView::ItemStack(ex, v), no_trace(), after)),
                Err(e) => Err(e),
            }
        } else if word_at(t, d, "storage"@) {
            match storage_item(t, d) {
                Ok((v, after)) => Ok((DeclView::Storage(ex, v), no_trace(), after)),
                Err(e) => Err(e),
            }
        } else if word_at(t, d, "data_slot"@) {
            match data_slot_item(t, d) {
                Ok((v, after)) => Ok((DeclView::DataSlot(ex, v), no_trace(), after)),
                Err(e) => Err(e),
            }
        } else if word_at(t, d, "resource"@) {
            match resource_item(t, d) {
                Ok((v, after)) => Ok((DeclView::Resource(ex, v), no_trace(), after)),
                Err(e) => Err(e),
            }
        } else if word_at(t, d, "advancement"@) {
            match advancement_item(t, d) {
                Ok((v, after)) => Ok((DeclView::Advancement(ex, v), no_trace(), after)),
                Err(e) => Err(e),
            }
        } else if word_at(t, d, "fn_tag"@) {
            match function_tag_item(t, d) {
                Ok((v, after)) => Ok((DeclView::FunctionTag(ex, v), no_trace(), after)),
                Err(e) => Err(e),
            }
        } else {
            match function_item(t, d, params) {
                Ok((v, tr, after)) => Ok((DeclView::Function(ex, v), tr, after)),
                Err(e) => Err(e),
            }
        }
    }
}

/// A program as the contracts speak of it: its namespace and the
/// declarations of each kind, in order.
pub struct ProgramView {
    pub namespace: Seq<char>,
    pub namespace_span: Option<Span>,
    pub imports: Seq<(Seq<Seq<char>>, Span, Option<Seq<(Seq<char>, Span, Option<Seq<char>>)>>)>,
    pub scores: Seq<(bool, (Seq<char>, Span, i32, Span))>,
    pub objectives: Seq<(bool, (Seq<char>, Span, ObjectiveView, Span))>,
    pub queries: Seq<(bool, (Seq<char>, Span, Seq<char>, QueryView, Span))>,
    pub item_stacks: Seq<(bool, (Seq<char>, Seq<char>, ItemView, Span))>,
    pub storages: Seq<(bool, (Seq<char>, Span, Seq<char>, Seq<char>, Span))>,
    pub data_slots: Seq<(bool, (Seq<char>, Span, bool, Seq<char>, Span, Span))>,
    pub resources: Seq<(bool, (Seq<char>, Seq<char>, Span, Seq<char>, Span))>,
    pub advancements: Seq<(bool, (Seq<char>, Span, AdvancementView, Span))>,
    pub function_tags: Seq<(bool, (Seq<char>, Span, Seq<(int, Seq<char>, Span)>, bool, Span))>,
    pub functions: Seq<(bool, FunctionView)>,
}

pub open spec fn empty_program(namespace: Seq<char>, namespace_span: Option<Span>) -> ProgramView {
    ProgramView {
        namespace,
        namespace_span,
        imports: seq![],
        scores: seq![],
        objectives: seq![],
        queries: seq![],
        item_stacks: seq![],
        storages: seq![],
        data_slots: seq![],
        resources: seq![],
        advancements: seq![],
        function_tags: seq![],
        functions: seq![],
    }
}

/// `v` with the declaration `d` added to those of its kind.
pub open spec fn add_decl(v: ProgramView, d: DeclView) -> ProgramView {
    match d {
        DeclView::Import(w) => ProgramView { imports: v.imports.push(w), ..v },
        DeclView::Score(e, w) => ProgramView { scores: v.scores.push((e, w)), ..v },
        DeclView::Objective(e, w) => ProgramView { objectives: v.objectives.push((e, w)), ..v },
        DeclView::Query(e, w) => ProgramView { queries: v.queries.push((e, w)), ..v },
        DeclView::ItemStack(e, w) => ProgramView { item_stacks: v.item_stacks.push((e, w)), ..v },
        DeclView::Storage(e, w) => ProgramView { storages: v.storages.push((e, w)), ..v },
        DeclView::DataSlot(e, w) => ProgramView { data_slots: v.data_slots.push((e, w)), ..v },
        DeclView::Resource(e, w) => ProgramView { resources: v.resources.push((e, w)), ..v },
        DeclView::Advancement(e, w) => ProgramView { advancements: v.advancements.push((e, w)), ..v },
        DeclView::FunctionTag(e, w) => ProgramView { function_tags: v.function_tags.push((e, w)), ..v },
        DeclView::Function(e, w) => ProgramView { functions: v.functions.push((e, w)), ..v },
    }
}

/// The declarations from `c` to the end of the tokens, added to `v`.
pub open spec fn program_items_spec(t: Seq<Token>, c: int, params: Seq<(Seq<char>, MacroType)>, v: ProgramView, tr: Trace) -> Result<
    (ProgramView, Trace),
    (Seq<char>, Span),
>
    decreases t.len() - c,
{
    if !stream_ok(t, c) {
        Err(stuck())
    } else if t[c].kind is Eof {
        Ok((v, tr))
    } else {
        match decl_spec(t, c, params) {
            Err(e) => Err(e),
            Ok((d, tr2, q)) => if !moved(t, c, q) {
                Err(stuck())
            } else {
                program_items_spec(t, q, params, add_decl(v, d), followed_by(tr, tr2))
            },
        }
    }
}

/// The program that the tokens `t` hold.
pub open spec fn program_spec(t: Seq<Token>) -> Result<ProgramView, (Seq<char>, Span)> {
    let items = if word_at(t, 0, "namespace"@) {
        match ident_at(t, 1, "命名空间名称"@) {
            Err(e) => Err(e),
            Ok((name, span)) => if !kind_at(t, 2, TokenKind::Semicolon) {
                Err(("命名空间声明后需要 `;`"@, t[2].span))
            } else {
                program_items_spec(t, 3, seq![], empty_program(name, Some(merged(t[0].span, span))), no_trace())
            },
        }
    } else {
        program_items_spec(t, 0, seq![], empty_program(seq![], None), no_trace())
    };
    match items {
        Ok((v, _)) => Ok(v),
        Err(e) => Err(e),
    }
}

/// A program.
pub struct Program {
    pub namespace: String,
    pub namespace_span: Option<Span>,
    pub imports: Vec<ImportDecl>,
    pub scores: Vec<ScoreDecl>,
    pub objectives: Vec<ObjectiveDecl>,
    pub queries: Vec<EntityQueryDecl>,
    pub item_stacks: Vec<ItemStackDecl>,
    pub storages: Vec<StorageDecl>,
    pub data_slots: Vec<DataSlotDecl>,
    pub resources: Vec<ResourceDecl>,
    pub advancements: Vec<AdvancementDecl>,
    pub function_tags: Vec<FunctionTagDecl>,
    pub functions: Vec<Function>,
}

/// `p` is the program `v`.
pub open spec fn program_matches(p: Program, v: ProgramView) -> bool {
    &&& p.namespace@ == v.namespace
    &&& p.namespace_span == v.namespace_span
    &&& p.imports@.len() == v.imports.len()
    &&& forall|i: int| 0 <= i < v.imports.len() ==> decl_view(#[trigger] p.imports@[i]) == v.imports[i]
    &&& p.scores@.len() == v.scores.len()
    &&& forall|i: int| 0 <= i < v.scores.len() ==> decl_matches(Declaration::Score(#[trigger] p.scores@[i]), DeclView::Score(v.scores[i].0, v.scores[i].1))
    &&& p.objectives@.len() == v.objectives.len()
    &&& forall|i: int| 0 <= i < v.objectives.len() ==> decl_matches(Declaration::Objective(#[trigger] p.objectives@[i]), DeclView::Objective(v.objectives[i].0, v.objectives[i].1))
    &&& p.queries@.len() == v.queries.len()
    &&& forall|i: int| 0 <= i < v.queries.len() ==> decl_matches(Declaration::Query(#[trigger] p.queries@[i]), DeclView::Query(v.queries[i].0, v.queries[i].1))
    &&& p.item_stacks@.len() == v.item_stacks.len()
    &&& forall|i: int| 0 <= i < v.item_stacks.len() ==> decl_matches(Declaration::ItemStack(#[trigger] p.item_stacks@[i]), DeclView::ItemStack(v.item_stacks[i].0, v.item_stacks[i].1))
    &&& p.storages@.len() == v.storages.len()
    &&& forall|i: int| 0 <= i < v.storages.len() ==> decl_matches(Declaration::Storage(#[trigger] p.storages@[i]), DeclView::Storage(v.storages[i].0, v.storages[i].1))
    &&& p.data_slots@.len() == v.data_slots.len()
    &&& forall|i: int| 0 <= i < v.data_slots.len() ==> decl_matches(Declaration::DataSlot(#[trigger] p.data_slots@[i]), DeclView::DataSlot(v.data_slots[i].0, v.data_slots[i].1))
    &&& p.resources@.len() == v.resources.len()
    &&& forall|i: int| 0 <= i < v.resources.len() ==> decl_matches(Declaration::Resource(#[trigger] p.resources@[i]), DeclView::Resource(v.resources[i].0, v.resources[i].1))
    &&& p.advancements@.len() == v.advancements.len()
    &&& forall|i: int| 0 <= i < v.advancements.len() ==> decl_matches(Declaration::Advancement(#[trigger] p.advancements@[i]), DeclView::Advancement(v.advancements[i].0, v.advancements[i].1))
    &&& p.function_tags@.len() == v.function_tags.len()
    &&& forall|i: int| 0 <= i < v.function_tags.len() ==> decl_matches(Declaration::FunctionTag(#[trigger] p.function_tags@[i]), DeclView::FunctionTag(v.function_tags[i].0, v.function_tags[i].1))
    &&& p.functions@.len() == v.functions.len()
    &&& forall|i: int| 0 <= i < v.functions.len() ==> decl_matches(Declaration::Function(#[trigger] p.functions@[i]), DeclView::Function(v.functions[i].0, v.functions[i].1))
}

impl Parser {
    fn score_item(&mut self) -> (r: Result<ScoreDecl, Diagnostic>)
        requires
            old(self).wf(),
        ensures
            final(self).wf(),
            final(self).tokens@ == old(self).tokens@,
            macro_state(&*final(self)) == macro_state(&*old(self)),
            match (r, score_item(old(self).tokens@, old(self).cursor as int)) {
                (Ok(x), Ok((v, after))) => !x.exported && score_match(x, v) && final(self).cursor == after,
                (Err(d), Err(e)) => diag(d) == e,
                _ => false,
            },
    {
        proof {
            reveal(score_item);
        }
        self.score()
    }

    fn storage_item(&mut self) -> (r: Result<StorageDecl, Diagnostic>)
        requires
            old(self).wf(),
        ensures
            final(self).wf(),
            final(self).tokens@ == old(self).tokens@,
            macro_state(&*final(self)) == macro_state(&*old(self)),
            match (r, storage_item(old(self).tokens@, old(self).cursor as int)) {
                (Ok(x), Ok((v, after))) => !x.exported && storage_match(x, v) && final(self).cursor == after,
                (Err(d), Err(e)) => diag(d) == e,
                _ => false,
            },
    {
        proof {
            reveal(storage_item);
        }
        self.storage()
    }

    fn data_slot_item(&mut self) -> (r: Result<DataSlotDecl, Diagnostic>)
        requires
            old(self).wf(),
        ensures
            final(self).wf(),
            final(self).tokens@ == old(self).tokens@,
            macro_state(&*final(self)) == macro_state(&*old(self)),
            match (r, data_slot_item(old(self).tokens@, old(self).cursor as int)) {
                (Ok(x), Ok((v, after))) => !x.exported && data_slot_match(x, v) && final(self).cursor == after,
                (Err(d), Err(e)) => diag(d) == e,
                _ => false,
            },
    {
        proof {
            reveal(data_slot_item);
        }
        self.data_slot()
    }

    fn resource_item(&mut self) -> (r: Result<ResourceDecl, Diagnostic>)
        requires
            old(self).wf(),
        ensures
            final(self).wf(),
            final(self).tokens@ == old(self).tokens@,
            macro_state(&*final(self)) == macro_state(&*old(self)),
            match (r, resource_item(old(self).tokens@, old(self).cursor as int)) {
                (Ok(x), Ok((v, after))) => !x.exported && resource_match(x, v) && final(self).cursor == after,
                (Err(d), Err(e)) => diag(d) == e,
                _ => false,
            },
    {
        proof {
            reveal(resource_item);
        }
        self.resource()
    }

    fn function_tag_item(&mut self) -> (r: Result<FunctionTagDecl, Diagnostic>)
        requires
            old(self).wf(),
        ensures
            final(self).wf(),
            final(self).tokens@ == old(self).tokens@,
            macro_state(&*final(self)) == macro_state(&*old(self)),
            match (r, function_tag_item(old(self).tokens@, old(self).cursor as int)) {
                (Ok(x), Ok((v, after))) => !x.exported && function_tag_match(x, v) && final(self).cursor == after,
                (Err(d), Err(e)) => diag(d) == e,
                _ => false,
            },
    {
        proof {
            reveal(function_tag_item);
        }
        self.function_tag()
    }

    fn import_item(&mut self) -> (r: Result<ImportDecl, Diagnostic>)
        requires
            old(self).wf(),
        ensures
            final(self).wf(),
            final(self).tokens@ == old(self).tokens@,
            macro_state(&*final(self)) == macro_state(&*old(self)),
            match (r, import_item(old(self).tokens@, old(self).cursor as int)) {
                (Ok(x), Ok((v, after))) => decl_view(x) == v && final(self).cursor == after,
                (Err(d), Err(e)) => diag(d) == e,
                _ => false,
            },
    {
        proof {
            reveal(import_item);
        }
        self.import()
    }

    fn query_item(&mut self) -> (r: Result<EntityQueryDecl, Diagnostic>)
        requires
            old(self).wf(),
        ensures
            final(self).wf(),
            final(self).tokens@ == old(self).tokens@,
            macro_state(&*final(self)) == macro_state(&*old(self)),
            match (r, query_item(old(self).tokens@, old(self).cursor as int)) {
                (Ok(x), Ok((v, after))) => !x.exported && query_match(x, v) && final(self).cursor == after,
                (Err(d), Err(e)) => diag(d) == e,
                _ => false,
            },
    {
        proof {
            reveal(query_item);
        }
        self.query()
    }

    fn item_stack_item(&mut self) -> (r: Result<ItemStackDecl, Diagnostic>)
        requires
            old(self).wf(),
        ensures
            final(self).wf(),
            final(self).tokens@ == old(self).tokens@,
            macro_state(&*final(self)) == macro_state(&*old(self)),
            match (r, item_stack_item(old(self).tokens@, old(self).cursor as int)) {
                (Ok(x), Ok((v, after))) => !x.exported && item_stack_match(x, v) && final(self).cursor == after,
                (Err(d), Err(e)) => diag(d) == e,
                _ => false,
            },
    {
        proof {
            reveal(item_stack_item);
        }
        self.item_stack()
    }

    fn advancement_item(&mut self) -> (r: Result<AdvancementDecl, Diagnostic>)
        requires
            old(self).wf(),
        ensures
            final(self).wf(),
            final(self).tokens@ == old(self).tokens@,
            macro_state(&*final(self)) == macro_state(&*old(self)),
            match (r, advancement_item(old(self).tokens@, old(self).cursor as int)) {
                (Ok(x), Ok((v, after))) => !x.exported && advancement_match(x, v) && final(self).cursor == after,
                (Err(d), Err(e)) => diag(d) == e,
                _ => false,
            },
    {
        proof {
            reveal(advancement_item);
        }
        self.advancement()
    }

    fn objective_item(&mut self) -> (r: Result<ObjectiveDecl, Diagnostic>)
        requires
            old(self).wf(),
        ensures
            final(self).wf(),
            final(self).tokens@ == old(self).tokens@,
            match (r, objective_item(old(self).tokens@, old(self).cursor as int, macro_state(&*old(self)).0)) {
                (Ok(x), Ok((v, tr, after))) => !x.exported && objective_match(x, v) && final(self).cursor == after
                    && extends(macro_state(&*final(self)), macro_state(&*old(self)), tr),
                (Err(d), Err(e)) => diag(d) == e,
                _ => false,
            },
    {
        proof {
            reveal(objective_item);
        }
        self.objective()
    }

    fn function_item(&mut self) -> (r: Result<Function, Diagnostic>)
        requires
            old(self).wf(),
        ensures
            final(self).wf(),
            final(self).tokens@ == old(self).tokens@,
            match (r, function_item(old(self).tokens@, old(self).cursor as int, macro_state(&*old(self)).0)) {
                (Ok(x), Ok((v, tr, after))) => !x.exported && function_matches(x, v) && final(self).cursor == after
                    && extends(macro_state(&*final(self)), macro_state(&*old(self)), tr),
                (Err(d), Err(e)) => diag(d) == e,
                _ => false,
            },
    {
        proof {
            reveal(function_item);
        }
        self.function()
    }
}


impl Parser {
    /// One declaration: an import, or a declaration after an optional
    /// `export`.
    pub fn declaration(&mut self) -> (r: Result<Declaration, Diagnostic>)
        requires
            old(self).wf(),
        ensures
            final(self).wf(),
            final(self).tokens@ == old(self).tokens@,
            match (r, decl_spec(old(self).tokens@, old(self).cursor as int, macro_state(&*old(self)).0)) {
                (Ok(x), Ok((v, tr, after))) => decl_matches(x, v) && final(self).cursor == after && extends(
                    macro_state(&*final(self)),
                    macro_state(&*old(self)),
                    tr,
                ),
                (Err(d), Err(e)) => diag(d) == e,
                _ => false,
            },
    {
        let ghost start = macro_state(&*self);
        if self.check_word("import") {
            let x = match self.import_item() {
                Ok(x) => x,
                Err(d) => return Err(d),
            };
            proof {
                lemma_extends_none(start);
            }
            return Ok(Declaration::Import(x));
        }
        let exported = self.take_word("export").is_some();
        if self.check_word("score") {
            let mut x = match self.score_item() {
                Ok(x) => x,
                Err(d) => return Err(d),
            };
            x.exported = exported;
            proof {
                lemma_extends_none(start);
            }
            return Ok(Declaration::Score(x));
        }
        if self.check_word("objective") {
            let mut x = match self.objective_item() {
                Ok(x) => x,
                Err(d) => return Err(d),
            };
            x.exported = exported;
            return Ok(Declaration::Objective(x));
        }
        if self.check_word("query") {
            let mut x = match self.query_item() {
                Ok(x) => x,
                Err(d) => return Err(d),
            };
            x.exported = exported;
            proof {
                lemma_extends_none(start);
            }
            return Ok(Declaration::Query(x));
        }
        if self.check_word("item") {
            let mut x = match self.item_stack_item() {
                Ok(x) => x,
                Err(d) => return Err(d),
            };
            x.exported = exported;
            proof {
                lemma_extends_none(start);
            }
            return Ok(Declaration::ItemStack(x));
        }
        if self.check_word("storage") {
            let mut x = match self.storage_item() {
                Ok(x) => x,
                Err(d) => return Err(d),
            };
            x.exported = exported;
            proof {
                lemma_extends_none(start);
            }
            return Ok(Declaration::Storage(x));
        }
        if self.check_word("data_slot") {
            let mut x = match self.data_slot_item() {
                Ok(x) => x,
                Err(d) => return Err(d),
            };
            x.exported = exported;
            proof {
                lemma_extends_none(start);
            }
            return Ok(Declaration::DataSlot(x));
        }
        if self.check_word("resource") {
            let mut x = match self.resource_item() {
                Ok(x) => x,
                Err(d) => return Err(d),
            };
            x.exported = exported;
            proof {
                lemma_extends_none(start);
            }
            return Ok(Declaration::Resource(x));
        }
        if self.check_word("advancement") {
            let mut x = match self.advancement_item() {
                Ok(x) => x,
                Err(d) => return Err(d),
            };
            x.exported = exported;
            proof {
                lemma_extends_none(start);
            }
            return Ok(Declaration::Advancement(x));
        }
        if self.check_word("fn_tag") {
            let mut x = match self.function_tag_item() {
                Ok(x) => x,
                Err(d) => return Err(d),
            };
            x.exported = exported;
            proof {
                lemma_extends_none(start);
            }
            return Ok(Declaration::FunctionTag(x));
        }
        let mut x = match self.function_item() {
            Ok(x) => x,
            Err(d) => return Err(d),
        };
        x.exported = exported;
        Ok(Declaration::Function(x))
    }
}

/// `p` with the declaration `d` added to those of its kind.
#[verifier::rlimit(60)]
fn push_declaration(p: Program, d: Declaration, Ghost(v): Ghost<ProgramView>, Ghost(dv): Ghost<DeclView>) -> (r: Program)
    requires
        program_matches(p, v),
        decl_matches(d, dv),
    ensures
        program_matches(r, add_decl(v, dv)),
{
    let mut p = p;
    match d {
        Declaration::Import(x) => {
            let ghost before = p.imports@;
            p.imports.push(x);
            assert(p.imports@ == before.push(x));
        },
            Declaration::Score(x) => {
                let ghost before = p.scores@;
                p.scores.push(x);
                assert(p.scores@ == before.push(x));
            },
            Declaration::Objective(x) => {
                let ghost before = p.objectives@;
                p.objectives.push(x);
                assert(p.objectives@ == before.push(x));
            },
            Declaration::Query(x) => {
                let ghost before = p.queries@;
                p.queries.push(x);
                assert(p.queries@ == before.push(x));
            },
            Declaration::ItemStack(x) => {
                let ghost before = p.item_stacks@;
                p.item_stacks.push(x);
                assert(p.item_stacks@ == before.push(x));
            },
            Declaration::Storage(x) => {
                let ghost before = p.storages@;
                p.storages.push(x);
                assert(p.storages@ == before.push(x));
            },
            Declaration::DataSlot(x) => {
                let ghost before = p.data_slots@;
                p.data_slots.push(x);
                assert(p.data_slots@ == before.push(x));
            },
            Declaration::Resource(x) => {
                let ghost before = p.resources@;
                p.resources.push(x);
                assert(p.resources@ == before.push(x));
            },
            Declaration::Advancement(x) => {
                let ghost before = p.advancements@;
                p.advancements.push(x);
                assert(p.advancements@ == before.push(x));
            },
            Declaration::FunctionTag(x) => {
                let ghost before = p.function_tags@;
                p.function_tags.push(x);
                assert(p.function_tags@ == before.push(x));
            },
            Declaration::Function(x) => {
                let ghost before = p.functions@;
                p.functions.push(x);
                assert(p.functions@ == before.push(x));
            },
    }
    p
}

impl Parser {
    /// The declarations up to the end of the tokens, added to `p`.
    fn program_items(&mut self, p: Program, Ghost(v): Ghost<ProgramView>, Ghost(base): Ghost<MacroState>, Ghost(tr): Ghost<Trace>) -> (r: Result<
        Program,
        Diagnostic,
    >)
        requires
            old(self).wf(),
            program_matches(p, v),
            extends(macro_state(&*old(self)), base, tr),
        ensures
            final(self).wf(),
            final(self).tokens@ == old(self).tokens@,
            match (r, program_items_spec(old(self).tokens@, old(self).cursor as int, base.0, v, tr)) {
                (Ok(x), Ok((w, tr2))) => program_matches(x, w) && extends(macro_state(&*final(self)), base, tr2),
                (Err(d), Err(e)) => diag(d) == e,
                _ => false,
            },
        decreases old(self).tokens@.len() - old(self).cursor,
    {
        let ghost t = self.tokens@;
        let ghost c = self.cursor as int;
        let ghost before = macro_state(&*self);
        let start = self.cursor;
        if self.check(&TokenKind::Eof) {
            return Ok(p);
        }
        let ghost found = decl_spec(t, c, base.0);
        let d = match self.declaration() {
            Ok(x) => x,
            Err(e) => return Err(e),
        };
        if self.cursor <= start {
            return Err(Diagnostic { message: String::new(), span: Span { start: 0, end: 0 } });
        }
        let ghost dv = match found {
            Ok((dv, _, _)) => dv,
            Err(_) => DeclView::Function(false, arbitrary()),
        };
        let ghost tr2 = match found {
            Ok((_, tr2, _)) => tr2,
            Err(_) => no_trace(),
        };
        proof {
            lemma_extends_then(base, before, macro_state(&*self), tr, tr2);
        }
        let p = push_declaration(p, d, Ghost(v), Ghost(dv));
        self.program_items(p, Ghost(add_decl(v, dv)), Ghost(base), Ghost(followed_by(tr, tr2)))
    }

    /// A program: an optional `namespace 名称;`, then its declarations.
    pub fn program(&mut self) -> (r: Result<Program, Diagnostic>)
        requires
            old(self).wf(),
            old(self).cursor == 0,
            old(self).macro_parameters@.len() == 0,
        ensures
            final(self).wf(),
            final(self).tokens@ == old(self).tokens@,
            match (r, program_spec(old(self).tokens@)) {
                (Ok(x), Ok(v)) => program_matches(x, v),
                (Err(d), Err(e)) => diag(d) == e,
                _ => false,
            },
    {
        let ghost t = self.tokens@;
        let ghost start = macro_state(&*self);
        assert(start.0 =~= seq![]);
        proof {
            lemma_extends_none(start);
        }
        let mut namespace = String::new();
        let mut namespace_span: Option<Span> = None;
        if self.check_word("namespace") {
            let first = self.advance().span;
            proof {
                lemma_not_last(t, 0);
            }
            let (name, span) = match self.ident("命名空间名称") {
                Ok(found) => found,
                Err(d) => return Err(d),
            };
            proof {
                lemma_not_last(t, 1);
            }
            match self.expect(TokenKind::Semicolon, "命名空间声明后需要 `;`") {
                Ok(_) => {},
                Err(d) => return Err(d),
            }
            proof {
                lemma_not_last(t, 2);
            }
            namespace = name;
            namespace_span = Some(first.merge(span));
        }
        let empty = Program {
            namespace,
            namespace_span,
            imports: Vec::new(),
            scores: Vec::new(),
            objectives: Vec::new(),
            queries: Vec::new(),
            item_stacks: Vec::new(),
            storages: Vec::new(),
            data_slots: Vec::new(),
            resources: Vec::new(),
            advancements: Vec::new(),
            function_tags: Vec::new(),
            functions: Vec::new(),
        };
        let ghost v = empty_program(namespace@, namespace_span);
        assert(program_matches(empty, v));
        self.program_items(empty, Ghost(v), Ghost(start), Ghost(no_trace()))
    }
}

/// Reads a program from the tokens; a program that does not parse gives
/// its first diagnostic.
pub fn parse(tokens: Vec<Token>) -> (r: Result<Program, Vec<Diagnostic>>)
    requires
        tokens@.len() > 0,
        tokens@.last().kind is Eof,
    ensures
        match (r, program_spec(tokens@)) {
            (Ok(x), Ok(v)) => program_matches(x, v),
            (Err(ds), Err(e)) => ds@.len() == 1 && diag(ds@[0]) == e,
            _ => false,
        },
{
    let mut parser = Parser::new(tokens);
    match parser.program() {
        Ok(x) => Ok(x),
        Err(d) => Err(vec![d]),
    }
}

} // verus!
