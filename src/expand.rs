//! The rewrite of an asynchronous definition into one returning a boxed future.
use vstd::prelude::*;
use vstd::string::StringExecFns;
use crate::item::{
    base_name, distinct, first_free, generic_lifetime_names, input_named_lifetimes,
    lemma_first_free_unused, lemma_lifetime_slot, lifetime_slot,
    lemma_used_name_bounded, opt_seq, param_rewritten, receiver_rewritten, wrapped_body,
    AsyncItem, BoxedFuture, GenericParam, Param, ParamKind, ParamType, Receiver, ReturnType,
    WherePredicate,
};
use crate::render::{declared_text, declared_type, views};

verus! {

/// How the macro was configured.
#[derive(Clone, Copy, Debug, PartialEq, Eq, Structural)]
pub struct RecursionArgs {
    /// The boxed future is also bounded by `Send`.
    pub send_bound: bool,
}

/// Why a definition could not be rewritten.
#[derive(Clone, Copy, Debug, PartialEq, Eq, Structural)]
pub enum ExpandError {
    /// The definition is not declared `async`.
    NotAsync,
    /// The macro's arguments are neither empty nor `?Send`.
    BadArguments,
}

impl ExpandError {
    /// A human-readable description.
    pub fn message(&self) -> (s: String)
        ensures
            *self == ExpandError::NotAsync ==> s@ == "expected an async function"@,
            *self == ExpandError::BadArguments ==> s@ == "expected no arguments or `?Send`"@,
    {
        proof {
            reveal_strlit("expected an async function");
            reveal_strlit("expected no arguments or `?Send`");
        }
        match self {
            ExpandError::NotAsync => String::from_str("expected an async function"),
            ExpandError::BadArguments => String::from_str("expected no arguments or `?Send`"),
        }
    }
}

/// `new` is `old` with the lifetime `l` added: as a generic parameter right
/// after the lifetime parameters that open the list, on every elided
/// reference of the receiver and the parameters, and below every lifetime
/// parameter and every lifetime written on them.
pub open spec fn lifetime_added(old: AsyncItem, new: AsyncItem, l: Seq<char>) -> bool {
    let p = lifetime_slot(old.generics@) as int;
    &&& new.generics@.len() == old.generics@.len() + 1
    &&& forall|i: int| 0 <= i < p ==> #[trigger] new.generics@[i] == old.generics@[i]
    &&& forall|i: int| p <= i < old.generics@.len() ==> new.generics@[i + 1] == #[trigger] old.generics@[i]
    &&& new.generics@[p].kind == ParamKind::Lifetime
    &&& new.generics@[p].name@ == l
    &&& new.generics@[p].rest@ == Seq::<char>::empty()
    &&& receiver_rewritten(old.receiver, new.receiver, l)
    &&& new.inputs@.len() == old.inputs@.len()
    &&& forall|i: int| 0 <= i < old.inputs@.len() ==> param_rewritten(#[trigger] old.inputs@[i], new.inputs@[i], l)
    &&& new.where_clause@.len() == old.where_clause@.len() + old.outlived_lifetimes().len()
    &&& forall|i: int| 0 <= i < old.where_clause@.len() ==> #[trigger] new.where_clause@[i] == old.where_clause@[i]
    &&& forall|k: int|
        0 <= k < old.outlived_lifetimes().len() ==> match #[trigger] new.where_clause@[old.where_clause@.len() + k] {
            WherePredicate::Outlives { longer, shorter } => longer@ == old.outlived_lifetimes()[k] && shorter@ == l,
            _ => false,
        }
}

/// `new` is the rewrite of `old`: no longer `async`, returning a boxed future
/// of the declared type, with the body moved into that future, and a lifetime
/// added where the definition borrows.
pub open spec fn expanded(old: AsyncItem, new: AsyncItem, send: bool) -> bool {
    &&& new.attrs == old.attrs
    &&& new.vis == old.vis
    &&& new.name == old.name
    &&& !new.is_async
    &&& new.body@ == wrapped_body(old.body@)
    &&& match new.output {
        ReturnType::Boxed { future } => {
            &&& future.inner@ == declared_text(old.output)
            &&& future.send == send
            &&& if old.needs_lifetime() {
                future.lifetime is Some && future.lifetime->0@ == old.synthesized_lifetime()
            } else {
                future.lifetime is None
            }
        },
        _ => false,
    }
    &&& if old.needs_lifetime() {
        lifetime_added(old, new, old.synthesized_lifetime())
    } else {
        &&& new.generics@ == old.generics@
        &&& new.receiver == old.receiver
        &&& new.inputs@ == old.inputs@
        &&& new.where_clause@ == old.where_clause@
    }
}

/// Rewrites an `async` definition so that it returns a pinned, boxed future
/// of its declared type, which its recursive calls may then await.
pub fn expand(item: &mut AsyncItem, args: &RecursionArgs) -> (r: Result<(), ExpandError>)
    ensures
        r is Err <==> !old(item).is_async,
        r is Err ==> r == Err::<(), ExpandError>(ExpandError::NotAsync) && *final(item) == *old(item),
        r is Ok ==> expanded(*old(item), *final(item), args.send_bound),
{
    if !item.is_async {
        return Err(ExpandError::NotAsync);
    }
    let inner = declared_type(&item.output);
    let lifetime = if needs_lifetime(item) {
        let l = fresh_lifetime(item);
        let names = written_lifetimes(item);
        push_outlives(&names, &mut item.where_clause, &l);
        rewrite_receiver(&mut item.receiver, &l);
        rewrite_inputs(&mut item.inputs, &l);
        let slot = find_lifetime_slot(&item.generics);
        let ghost g0 = item.generics@;
        item.generics.insert(slot, GenericParam { kind: ParamKind::Lifetime, name: l.clone(), rest: String::new() });
        proof {
            assert forall|i: int| slot <= i < g0.len() implies item.generics@[i + 1] == #[trigger] g0[i] by {
                assert(item.generics@ == g0.insert(slot as int, item.generics@[slot as int]));
            }
        }
        Some(l)
    } else {
        None
    };
    item.output = ReturnType::Boxed { future: BoxedFuture { inner, lifetime, send: args.send_bound } };
    item.body = wrap_body(&item.body);
    item.is_async = false;
    Ok(())
}

/// Whether the definition has a receiver or a reference-typed parameter.
pub fn needs_lifetime(item: &AsyncItem) -> (r: bool)
    ensures
        r == item.needs_lifetime(),
{
    if !matches!(item.receiver, Receiver::NoReceiver) {
        return true;
    }
    let mut i: usize = 0;
    while i < item.inputs.len()
        invariant
            i <= item.inputs.len(),
            forall|j: int| 0 <= j < i ==> !(#[trigger] item.inputs@[j].ty is Reference),
        decreases item.inputs.len() - i,
    {
        if matches!(item.inputs[i].ty, ParamType::Reference { .. }) {
            assert(item.inputs@[i as int].ty is Reference);
            return true;
        }
        i = i + 1;
    }
    false
}

fn opt_name_eq(o: &Option<String>, n: &String) -> (r: bool)
    ensures
        r == (o is Some && o->0@ == n@),
{
    match o {
        Some(l) => *l == *n,
        None => false,
    }
}

/// Whether `n` names a generic parameter of `item` or a lifetime written on
/// one of its parameters.
pub fn uses_name(item: &AsyncItem, n: &String) -> (r: bool)
    ensures
        r == item.uses_name(n@),
{
    let mut i: usize = 0;
    while i < item.generics.len()
        invariant
            i <= item.generics.len(),
            forall|j: int| 0 <= j < i ==> item.generics@[j].name@ != n@,
        decreases item.generics.len() - i,
    {
        if item.generics[i].name == *n {
            assert(item.generic_names()[i as int] == n@);
            return true;
        }
        i = i + 1;
    }
    assert(!item.generic_names().contains(n@));
    let mut k: usize = 0;
    while k < item.inputs.len()
        invariant
            k <= item.inputs.len(),
            !item.generic_names().contains(n@),
            forall|j: int| 0 <= j < k ==> #[trigger] item.inputs@[j].ty.named_lifetime() != Some(n@),
        decreases item.inputs.len() - k,
    {
        let hit = match &item.inputs[k].ty {
            ParamType::Reference { lifetime, .. } => opt_name_eq(lifetime, n),
            ParamType::Plain { .. } => false,
        };
        if hit {
            assert(item.inputs@[k as int].ty.named_lifetime() == Some(n@));
            return true;
        }
        k = k + 1;
    }
    match &item.receiver {
        Receiver::ByRef { lifetime } => opt_name_eq(lifetime, n),
        Receiver::ByMutRef { lifetime } => opt_name_eq(lifetime, n),
        _ => false,
    }
}

/// A lifetime name that `item` does not use yet: `async_recursion`, followed
/// by as few underscores as make it unused.
pub fn fresh_lifetime(item: &AsyncItem) -> (r: String)
    ensures
        r@ == item.synthesized_lifetime(),
        !item.uses_name(r@),
{
    let mut cand = String::from_str("async_recursion");
    proof {
        reveal_strlit("async_recursion");
    }
    while uses_name(item, &cand)
        invariant
            first_free(*item, cand@) == item.synthesized_lifetime(),
        decreases item.name_bound() + 1 - cand@.len(),
    {
        proof {
            lemma_used_name_bounded(*item, cand@);
        }
        let ghost prev = cand@;
        cand.append("_");
        proof {
            reveal_strlit("_");
            assert(cand@ =~= prev.push('_'));
        }
    }
    proof {
        lemma_first_free_unused(*item, base_name());
    }
    cand
}

/// The receiver with an elided reference lifetime set to `l`.
fn rewrite_receiver(r: &mut Receiver, l: &String)
    ensures
        receiver_rewritten(*old(r), *final(r), l@),
{
    let (by_ref, by_mut) = match r {
        Receiver::ByRef { lifetime: None } => (true, false),
        Receiver::ByMutRef { lifetime: None } => (false, true),
        _ => (false, false),
    };
    if by_ref {
        *r = Receiver::ByRef { lifetime: Some(l.clone()) };
    } else if by_mut {
        *r = Receiver::ByMutRef { lifetime: Some(l.clone()) };
    }
}

/// The parameter with an elided reference lifetime set to `l`.
fn rewrite_param(p: Param, l: &String) -> (r: Param)
    ensures
        param_rewritten(p, r, l@),
{
    let Param { pat, ty } = p;
    let ty = match ty {
        ParamType::Reference { lifetime: None, mutable, elem } => ParamType::Reference {
            lifetime: Some(l.clone()),
            mutable,
            elem,
        },
        other => other,
    };
    Param { pat, ty }
}

/// Every parameter with an elided reference lifetime set to `l`.
fn rewrite_inputs(inputs: &mut Vec<Param>, l: &String)
    ensures
        final(inputs)@.len() == old(inputs)@.len(),
        forall|i: int|
            0 <= i < old(inputs)@.len() ==> param_rewritten(
                #[trigger] old(inputs)@[i],
                final(inputs)@[i],
                l@,
            ),
{
    let ghost orig = inputs@;
    let n = inputs.len();
    let mut rest: Vec<Param> = Vec::new();
    std::mem::swap(&mut rest, inputs);
    let mut k: usize = 0;
    while rest.len() > 0
        invariant
            k + rest@.len() == orig.len(),
            orig.len() == n,
            rest@ == orig.subrange(k as int, orig.len() as int),
            inputs@.len() == k,
            forall|i: int| 0 <= i < k ==> param_rewritten(#[trigger] orig[i], inputs@[i], l@),
        decreases rest@.len(),
    {
        let p = rest.remove(0);
        let q = rewrite_param(p, l);
        inputs.push(q);
        k = k + 1;
        assert(rest@ =~= orig.subrange(k as int, orig.len() as int));
    }
}

/// The lifetime parameters, then the lifetimes written on the receiver and
/// on reference parameters, in order.
fn written_lifetimes(item: &AsyncItem) -> (r: Vec<String>)
    ensures
        views(r@) == item.written_lifetimes(),
{
    let mut out: Vec<String> = Vec::new();
    let g = &item.generics;
    let mut i: usize = 0;
    while i < g.len()
        invariant
            i <= g.len(),
            views(out@) == generic_lifetime_names(g@.take(i as int)),
        decreases g.len() - i,
    {
        let ghost prev = views(out@);
        assert(g@.take(i + 1).drop_last() =~= g@.take(i as int));
        if g[i].kind == ParamKind::Lifetime {
            out.push(g[i].name.clone());
            assert(views(out@) =~= prev.push(g@[i as int].name@));
        }
        i = i + 1;
    }
    assert(g@.take(g.len() as int) =~= g@);
    let ghost lts = views(out@);
    match &item.receiver {
        Receiver::ByRef { lifetime: Some(a) } => out.push(a.clone()),
        Receiver::ByMutRef { lifetime: Some(a) } => out.push(a.clone()),
        _ => {},
    }
    let ghost head = lts + opt_seq(item.receiver.named_lifetime());
    assert(views(out@) =~= head);
    let mut i: usize = 0;
    while i < item.inputs.len()
        invariant
            i <= item.inputs.len(),
            head == generic_lifetime_names(item.generics@) + opt_seq(item.receiver.named_lifetime()),
            views(out@) == head + input_named_lifetimes(item.inputs@.take(i as int)),
        decreases item.inputs.len() - i,
    {
        let ghost prev = views(out@);
        assert(item.inputs@.take(i + 1).drop_last() =~= item.inputs@.take(i as int));
        match &item.inputs[i].ty {
            ParamType::Reference { lifetime: Some(a), .. } => {
                out.push(a.clone());
                assert(views(out@) =~= prev.push(a@));
            },
            _ => {},
        }
        assert(views(out@) =~= head + input_named_lifetimes(item.inputs@.take(i + 1)));
        i = i + 1;
    }
    assert(item.inputs@.take(item.inputs.len() as int) =~= item.inputs@);
    out
}

/// Where a new lifetime parameter goes: after the lifetime parameters that
/// open the list.
pub fn find_lifetime_slot(g: &Vec<GenericParam>) -> (r: usize)
    ensures
        r == lifetime_slot(g@),
        r <= g@.len(),
{
    let mut i: usize = 0;
    while i < g.len() && g[i].kind == ParamKind::Lifetime
        invariant
            i <= g.len(),
            forall|j: int| 0 <= j < i ==> (#[trigger] g@[j]).kind == ParamKind::Lifetime,
        decreases g.len() - i,
    {
        i = i + 1;
    }
    proof {
        lemma_lifetime_slot(g@, i as int);
    }
    i
}

/// Appends `'a: 'l` to `preds` for each of `names`, once per name, in order
/// of first appearance.
fn push_outlives(names: &Vec<String>, preds: &mut Vec<WherePredicate>, l: &String)
    ensures
        final(preds)@.len() == old(preds)@.len() + distinct(views(names@)).len(),
        forall|i: int| 0 <= i < old(preds)@.len() ==> #[trigger] final(preds)@[i] == old(preds)@[i],
        forall|k: int|
            0 <= k < distinct(views(names@)).len() ==> match #[trigger] final(preds)@[old(
                preds,
            )@.len() + k] {
                WherePredicate::Outlives { longer, shorter } => longer@ == distinct(
                    views(names@),
                )[k] && shorter@ == l@,
                _ => false,
            },
{
    let ghost start = preds@;
    let base = preds.len();
    let mut i: usize = 0;
    while i < names.len()
        invariant
            i <= names.len(),
            base == start.len(),
            preds@.len() == start.len() + distinct(views(names@.take(i as int))).len(),
            forall|j: int| 0 <= j < start.len() ==> #[trigger] preds@[j] == start[j],
            forall|k: int|
                0 <= k < distinct(views(names@.take(i as int))).len() ==> match #[trigger] preds@[start.len() + k] {
                    WherePredicate::Outlives { longer, shorter } => longer@ == distinct(
                        views(names@.take(i as int)),
                    )[k] && shorter@ == l@,
                    _ => false,
                },
        decreases names.len() - i,
    {
        let ghost d = distinct(views(names@.take(i as int)));
        let ghost n = names@[i as int]@;
        assert(views(names@.take(i + 1)).drop_last() =~= views(names@.take(i as int)));
        assert(views(names@.take(i + 1)).last() == n);
        let mut seen = false;
        let mut k: usize = base;
        while k < preds.len()
            invariant
                base <= k <= preds.len(),
                i < names.len(),
                n == names@[i as int]@,
                preds@.len() == base + d.len(),
                forall|m: int| 0 <= m < d.len() ==> match #[trigger] preds@[base + m] {
                    WherePredicate::Outlives { longer, shorter } => longer@ == d[m],
                    _ => false,
                },
                seen <==> exists|m: int| 0 <= m < k - base && d[m] == n,
            decreases preds.len() - k,
        {
            let hit = match &preds[k] {
                WherePredicate::Outlives { longer, .. } => *longer == names[i],
                _ => false,
            };
            proof {
                let m = k - base;
                assert(match preds@[base + m] {
                    WherePredicate::Outlives { longer, shorter } => longer@ == d[m],
                    _ => false,
                });
                assert(hit == (d[m] == n));
                if hit {
                    assert(0 <= m < k + 1 - base && d[m] == n);
                }
                if exists|j: int| 0 <= j < k + 1 - base && d[j] == n {
                    let j = choose|j: int| 0 <= j < k + 1 - base && d[j] == n;
                    if j < m {
                        assert(0 <= j < k - base && d[j] == n);
                    }
                }
            }
            seen = seen || hit;
            k = k + 1;
        }
        proof {
            if d.contains(n) {
                let m = choose|m: int| 0 <= m < d.len() && d[m] == n;
                assert(0 <= m < k - base && d[m] == n);
            }
        }
        if !seen {
            preds.push(WherePredicate::Outlives { longer: names[i].clone(), shorter: l.clone() });
        }
        i = i + 1;
    }
    assert(names@.take(names.len() as int) =~= names@);
}

/// The block as written, moved into a boxed, pinned `async move` block.
pub fn wrap_body(b: &String) -> (r: String)
    ensures
        r@ == wrapped_body(b@),
{
    let mut s = String::from_str("{ Box::pin(async move ");
    s.append(b.as_str());
    s.append(") }");
    proof {
        reveal_strlit("{ Box::pin(async move ");
        reveal_strlit(") }");
    }
    s
}

} // verus!
