//! What holds of every rewrite.
use vstd::prelude::*;
use crate::args::{args_ok, is_opt_out};
use crate::expand::expanded;
use crate::item::{
    lemma_first_free_unused, lemma_lifetime_param_outlived, lifetime_slot, wrapped_body, AsyncItem, GenericParam, ParamKind,
    ReturnType, WherePredicate,
};
use crate::render::{boxed_text, send_bound};

verus! {

/// The future's output type is `()` when no result was declared, and the
/// declared type, unchanged, otherwise; with or without the `Send` bound.
pub proof fn law_return_type_wrapping(old: AsyncItem, new: AsyncItem, send: bool)
    requires
        expanded(old, new, send),
    ensures
        new.output is Boxed,
        old.output is Unit ==> new.output->Boxed_future.inner@ == "()"@,
        forall|t: String|
            old.output == (ReturnType::Type { text: t }) ==> new.output->Boxed_future.inner@ == t@,
{
}

/// A definition with a reference receiver or a reference parameter gains
/// exactly one generic parameter: a lifetime whose name no generic parameter
/// had before, inserted after the lifetime parameters that open the list and
/// before the first type or const parameter. Every elided reference lifetime
/// of the receiver and the parameters becomes that lifetime; it bounds the
/// future, and every lifetime parameter and written lifetime outlives it.
/// This holds whether or not the future is bounded by `Send`.
pub proof fn law_lifetime_insertion(old: AsyncItem, new: AsyncItem, send: bool)
    requires
        expanded(old, new, send),
        old.receiver is ByRef || old.receiver is ByMutRef || exists|i: int|
            0 <= i < old.inputs@.len() && #[trigger] old.inputs@[i].ty is Reference,
    ensures
        ({
            let p = lifetime_slot(old.generics@) as int;
            let l = new.generics@[p];
            &&& 0 <= p <= old.generics@.len()
            &&& new.generics@ == old.generics@.insert(p, l)
            &&& forall|j: int| 0 <= j < p ==> (#[trigger] old.generics@[j]).kind == ParamKind::Lifetime
            &&& p == old.generics@.len() || old.generics@[p].kind != ParamKind::Lifetime
            &&& l.kind == ParamKind::Lifetime
            &&& !old.generic_names().contains(l.name@)
            &&& old.receiver.is_elided_ref() ==> new.receiver.named_lifetime() == Some(l.name@)
            &&& forall|i: int|
                0 <= i < old.inputs@.len() && (#[trigger] old.inputs@[i]).ty.is_elided_ref()
                    ==> new.inputs@[i].ty.named_lifetime() == Some(l.name@)
            &&& new.output->Boxed_future.lifetime is Some
            &&& new.output->Boxed_future.lifetime->0@ == l.name@
            &&& forall|i: int|
                0 <= i < old.generics@.len() && (#[trigger] old.generics@[i]).kind
                    == ParamKind::Lifetime ==> old.outlived_lifetimes().contains(old.generics@[i].name@)
            &&& forall|a: Seq<char>|
                #[trigger] old.outlived_lifetimes().contains(a) ==> exists|j: int|
                    0 <= j < new.where_clause@.len() && outlives(
                        #[trigger] new.where_clause@[j],
                        a,
                        l.name@,
                    )
        }),
{
    let p = lifetime_slot(old.generics@) as int;
    lemma_first_free_unused(old, crate::item::base_name());
    lemma_slot_shape(old.generics@);
    assert forall|i: int|
        0 <= i < old.generics@.len() && (#[trigger] old.generics@[i]).kind
            == ParamKind::Lifetime implies old.outlived_lifetimes().contains(old.generics@[i].name@) by {
        lemma_lifetime_param_outlived(old, i);
    }
    assert(new.generics@ =~= old.generics@.insert(p, new.generics@[p]));
    assert forall|a: Seq<char>| #[trigger] old.outlived_lifetimes().contains(a) implies exists|j: int|
        0 <= j < new.where_clause@.len() && outlives(
            #[trigger] new.where_clause@[j],
            a,
            new.generics@[p].name@,
        ) by {
        let k = choose|k: int| 0 <= k < old.outlived_lifetimes().len() && old.outlived_lifetimes()[k] == a;
        let j = old.where_clause@.len() + k;
        assert(match new.where_clause@[j] {
            WherePredicate::Outlives { longer, shorter } => longer@ == old.outlived_lifetimes()[k]
                && shorter@ == old.synthesized_lifetime(),
            _ => false,
        });
    }
}

/// `w` is `'a: 'l`.
pub open spec fn outlives(w: WherePredicate, a: Seq<char>, l: Seq<char>) -> bool {
    match w {
        WherePredicate::Outlives { longer, shorter } => longer@ == a && shorter@ == l,
        _ => false,
    }
}

/// The lifetime parameters that open a list are those before its slot.
pub proof fn lemma_slot_shape(g: Seq<GenericParam>)
    ensures
        lifetime_slot(g) <= g.len(),
        forall|j: int| 0 <= j < lifetime_slot(g) ==> (#[trigger] g[j]).kind == ParamKind::Lifetime,
        lifetime_slot(g) == g.len() || g[lifetime_slot(g) as int].kind != ParamKind::Lifetime,
    decreases g.len(),
{
    if g.len() > 0 && g[0].kind == ParamKind::Lifetime {
        let t = g.subrange(1, g.len() as int);
        lemma_slot_shape(t);
        assert forall|j: int| 0 <= j < lifetime_slot(g) implies (#[trigger] g[j]).kind == ParamKind::Lifetime by {
            if j > 0 {
                assert(g[j] == t[j - 1]);
            }
        }
        if lifetime_slot(g) < g.len() {
            assert(g[lifetime_slot(g) as int] == t[lifetime_slot(t) as int]);
        }
    }
}

/// A free function without reference parameters gains no generic parameter,
/// and its future carries no lifetime bound; with or without the `Send` bound.
pub proof fn law_no_lifetime(old: AsyncItem, new: AsyncItem, send: bool)
    requires
        expanded(old, new, send),
        old.receiver is NoReceiver,
        forall|i: int| 0 <= i < old.inputs@.len() ==> !(#[trigger] old.inputs@[i].ty is Reference),
    ensures
        new.generics@ == old.generics@,
        new.output->Boxed_future.lifetime is None,
{
}

/// Without arguments the future is bounded by `Send`; with `?Send` it is not.
pub proof fn law_send_flag(tokens: Seq<String>, old: AsyncItem, new: AsyncItem)
    requires
        args_ok(tokens),
        expanded(old, new, !is_opt_out(tokens)),
    ensures
        tokens.len() == 0 ==> send_bound(new.output->Boxed_future.send)
            == " + ::core::marker::Send"@,
        is_opt_out(tokens) ==> send_bound(new.output->Boxed_future.send) == Seq::<char>::empty(),
        boxed_text(new.output->Boxed_future) == "::core::pin::Pin<Box<dyn ::core::future::Future<Output = "@
            + new.output->Boxed_future.inner@ + ">"@ + crate::render::lifetime_bound(
            new.output->Boxed_future.lifetime,
        ) + send_bound(!is_opt_out(tokens)) + ">>"@,
{
}

/// The body as written stands unchanged inside the new one.
pub proof fn law_body_kept(old: AsyncItem, new: AsyncItem, send: bool)
    requires
        expanded(old, new, send),
    ensures
        new.body@ == wrapped_body(old.body@),
        new.body@.subrange(
            "{ Box::pin(async move "@.len() as int,
            ("{ Box::pin(async move "@.len() + old.body@.len()) as int,
        ) == old.body@,
{
    reveal_strlit("{ Box::pin(async move ");
    reveal_strlit(") }");
    assert(new.body@.subrange(
        "{ Box::pin(async move "@.len() as int,
        ("{ Box::pin(async move "@.len() + old.body@.len()) as int,
    ) =~= old.body@);
}

} // verus!
