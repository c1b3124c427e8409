//! Rust source text of a definition.
use vstd::prelude::*;
use vstd::string::{StrSliceExecFns, StringExecFns};
use crate::item::{
    AsyncItem, BoxedFuture, GenericParam, Param, ParamKind, ParamType, Receiver, ReturnType,
    WherePredicate,
};

verus! {

/// `Pin<Box<dyn Future<Output = inner> + 'l + Send>>`, with the lifetime and
/// `Send` only where the future carries them.
pub open spec fn boxed_text(f: BoxedFuture) -> Seq<char> {
    "::core::pin::Pin<Box<dyn ::core::future::Future<Output = "@ + f.inner@ + ">"@ + lifetime_bound(
        f.lifetime,
    ) + send_bound(f.send) + ">>"@
}

/// ` + 'l`, or nothing.
pub open spec fn lifetime_bound(l: Option<String>) -> Seq<char> {
    match l {
        Some(l) => " + '"@ + l@,
        None => Seq::empty(),
    }
}

/// ` + Send`, or nothing.
pub open spec fn send_bound(send: bool) -> Seq<char> {
    if send {
        " + ::core::marker::Send"@
    } else {
        Seq::empty()
    }
}

/// The type that a declared result stands for (`()` where none is declared).
pub open spec fn declared_text(r: ReturnType) -> Seq<char> {
    match r {
        ReturnType::Unit => "()"@,
        ReturnType::Type { text } => text@,
        ReturnType::Boxed { future } => boxed_text(future),
    }
}

pub fn render_boxed(f: &BoxedFuture) -> (r: String)
    ensures
        r@ == boxed_text(*f),
{
    let mut s = String::from_str("::core::pin::Pin<Box<dyn ::core::future::Future<Output = ");
    s.append(f.inner.as_str());
    s.append(">");
    let ghost mid = s@;
    match &f.lifetime {
        Some(l) => {
            s.append(" + '");
            s.append(l.as_str());
        },
        None => {},
    }
    let ghost mid2 = s@;
    if f.send {
        s.append(" + ::core::marker::Send");
    }
    let ghost mid3 = s@;
    s.append(">>");
    proof {
        reveal_strlit("::core::pin::Pin<Box<dyn ::core::future::Future<Output = ");
        reveal_strlit(">");
        reveal_strlit(" + '");
        reveal_strlit(" + ::core::marker::Send");
        reveal_strlit(">>");
        assert(mid2 =~= mid + lifetime_bound(f.lifetime));
        assert(mid3 =~= mid2 + send_bound(f.send));
        assert(s@ =~= boxed_text(*f));
    }
    s
}

/// The text of the type that a declared result stands for.
pub fn declared_type(r: &ReturnType) -> (s: String)
    ensures
        s@ == declared_text(*r),
{
    match r {
        ReturnType::Unit => {
            proof {
                reveal_strlit("()");
            }
            String::from_str("()")
        },
        ReturnType::Type { text } => text.clone(),
        ReturnType::Boxed { future } => render_boxed(future),
    }
}

/// The parts, with `sep` between each two.
pub open spec fn join(parts: Seq<Seq<char>>, sep: Seq<char>) -> Seq<char>
    decreases parts.len(),
{
    if parts.len() == 0 {
        Seq::empty()
    } else if parts.len() == 1 {
        parts[0]
    } else {
        join(parts.drop_last(), sep) + sep + parts.last()
    }
}

/// The text of each string.
pub open spec fn views(v: Seq<String>) -> Seq<Seq<char>> {
    v.map_values(|s: String| s@)
}

/// Joins the strings with `sep` between each two.
pub fn join_strings(parts: &Vec<String>, sep: &str) -> (r: String)
    ensures
        r@ == join(views(parts@), sep@),
{
    let mut s = String::new();
    let mut i: usize = 0;
    while i < parts.len()
        invariant
            i <= parts.len(),
            s@ == join(views(parts@.take(i as int)), sep@),
        decreases parts.len() - i,
    {
        let ghost prev = s@;
        if i > 0 {
            s.append(sep);
        }
        s.append(parts[i].as_str());
        proof {
            let t = views(parts@.take(i + 1));
            assert(t.drop_last() =~= views(parts@.take(i as int)));
            if i == 0 {
                assert(s@ =~= t[0]);
            } else {
                assert(s@ =~= prev + sep@ + t.last());
            }
        }
        i = i + 1;
    }
    assert(parts@.take(parts.len() as int) =~= parts@);
    s
}

/// `'l ` for a written lifetime, nothing for an elided one.
pub open spec fn ref_lifetime_text(l: Option<String>) -> Seq<char> {
    match l {
        Some(l) => "'"@ + l@ + " "@,
        None => Seq::empty(),
    }
}

/// The text of a generic parameter.
pub open spec fn generic_text(p: GenericParam) -> Seq<char> {
    match p.kind {
        ParamKind::Lifetime => "'"@ + p.name@ + p.rest@,
        ParamKind::Type => p.name@ + p.rest@,
        ParamKind::Const => "const "@ + p.name@ + p.rest@,
    }
}

/// The text of a receiver (empty where there is none).
pub open spec fn receiver_text(r: Receiver) -> Seq<char> {
    match r {
        Receiver::NoReceiver => Seq::empty(),
        Receiver::ByValue { mutable } => if mutable {
            "mut self"@
        } else {
            "self"@
        },
        Receiver::ByRef { lifetime } => "&"@ + ref_lifetime_text(lifetime) + "self"@,
        Receiver::ByMutRef { lifetime } => "&"@ + ref_lifetime_text(lifetime) + "mut self"@,
    }
}

/// `pattern: type`.
pub open spec fn param_text(p: Param) -> Seq<char> {
    p.pat@ + ": "@ + match p.ty {
        ParamType::Reference { lifetime, mutable, elem } => "&"@ + ref_lifetime_text(lifetime) + if mutable {
            "mut "@
        } else {
            Seq::empty()
        } + elem@,
        ParamType::Plain { text } => text@,
    }
}

/// The text of a `where` predicate.
pub open spec fn predicate_text(w: WherePredicate) -> Seq<char> {
    match w {
        WherePredicate::Text { text } => text@,
        WherePredicate::Outlives { longer, shorter } => "'"@ + longer@ + ": '"@ + shorter@,
    }
}

/// ` -> type`, or nothing for the unit result.
pub open spec fn output_text(r: ReturnType) -> Seq<char> {
    match r {
        ReturnType::Unit => Seq::empty(),
        _ => " -> "@ + declared_text(r),
    }
}

fn render_ref_lifetime(l: &Option<String>) -> (r: String)
    ensures
        r@ == ref_lifetime_text(*l),
{
    match l {
        Some(n) => {
            let mut s = String::from_str("'");
            s.append(n.as_str());
            s.append(" ");
            proof {
                reveal_strlit("'");
                reveal_strlit(" ");
            }
            s
        },
        None => String::new(),
    }
}

pub fn render_generic(p: &GenericParam) -> (r: String)
    ensures
        r@ == generic_text(*p),
{
    proof {
        reveal_strlit("'");
        reveal_strlit("const ");
    }
    let mut s = match p.kind {
        ParamKind::Lifetime => String::from_str("'"),
        ParamKind::Type => String::new(),
        ParamKind::Const => String::from_str("const "),
    };
    s.append(p.name.as_str());
    s.append(p.rest.as_str());
    s
}

pub fn render_receiver(r: &Receiver) -> (s: String)
    ensures
        s@ == receiver_text(*r),
{
    proof {
        reveal_strlit("mut self");
        reveal_strlit("self");
        reveal_strlit("&");
    }
    match r {
        Receiver::NoReceiver => String::new(),
        Receiver::ByValue { mutable } => if *mutable {
            String::from_str("mut self")
        } else {
            String::from_str("self")
        },
        Receiver::ByRef { lifetime } => {
            let mut s = String::from_str("&");
            s.append(render_ref_lifetime(lifetime).as_str());
            s.append("self");
            s
        },
        Receiver::ByMutRef { lifetime } => {
            let mut s = String::from_str("&");
            s.append(render_ref_lifetime(lifetime).as_str());
            s.append("mut self");
            s
        },
    }
}

pub fn render_param(p: &Param) -> (r: String)
    ensures
        r@ == param_text(*p),
{
    proof {
        reveal_strlit(": ");
        reveal_strlit("&");
        reveal_strlit("mut ");
    }
    let mut s = p.pat.clone();
    s.append(": ");
    match &p.ty {
        ParamType::Reference { lifetime, mutable, elem } => {
            s.append("&");
            s.append(render_ref_lifetime(lifetime).as_str());
            if *mutable {
                s.append("mut ");
            }
            s.append(elem.as_str());
        },
        ParamType::Plain { text } => {
            s.append(text.as_str());
        },
    }
    s
}

pub fn render_predicate(w: &WherePredicate) -> (r: String)
    ensures
        r@ == predicate_text(*w),
{
    match w {
        WherePredicate::Text { text } => text.clone(),
        WherePredicate::Outlives { longer, shorter } => {
            proof {
                reveal_strlit("'");
                reveal_strlit(": '");
            }
            let mut s = String::from_str("'");
            s.append(longer.as_str());
            s.append(": '");
            s.append(shorter.as_str());
            s
        },
    }
}

pub fn render_output(r: &ReturnType) -> (s: String)
    ensures
        s@ == output_text(*r),
{
    match r {
        ReturnType::Unit => String::new(),
        _ => {
            proof {
                reveal_strlit(" -> ");
            }
            let mut s = String::from_str(" -> ");
            s.append(declared_type(r).as_str());
            s
        },
    }
}

/// The texts of the receiver (if any) and of the parameters, in order.
pub open spec fn arg_texts(item: AsyncItem) -> Seq<Seq<char>> {
    (if item.receiver is NoReceiver {
        Seq::empty()
    } else {
        seq![receiver_text(item.receiver)]
    }) + item.inputs@.map_values(|p: Param| param_text(p))
}

/// `<...>`, or nothing without generic parameters.
pub open spec fn generics_text(item: AsyncItem) -> Seq<char> {
    if item.generics@.len() == 0 {
        Seq::empty()
    } else {
        "<"@ + join(item.generics@.map_values(|p: GenericParam| generic_text(p)), ", "@) + ">"@
    }
}

/// ` where ...`, or nothing without predicates.
pub open spec fn where_text(item: AsyncItem) -> Seq<char> {
    if item.where_clause@.len() == 0 {
        Seq::empty()
    } else {
        " where "@ + join(item.where_clause@.map_values(|w: WherePredicate| predicate_text(w)), ", "@)
    }
}

/// Attributes, visibility and `async`, before `fn`.
pub open spec fn head_text(item: AsyncItem) -> Seq<char> {
    (if item.attrs@.len() == 0 {
        Seq::empty()
    } else {
        join(views(item.attrs@), "\n"@) + "\n"@
    }) + (if item.vis@.len() == 0 {
        Seq::empty()
    } else {
        item.vis@ + " "@
    }) + (if item.is_async {
        "async "@
    } else {
        Seq::empty()
    })
}

/// The Rust source text of a definition.
pub open spec fn item_text(item: AsyncItem) -> Seq<char> {
    head_text(item) + "fn "@ + item.name@ + generics_text(item) + "("@ + join(arg_texts(item), ", "@)
        + ")"@ + output_text(item.output) + where_text(item) + " "@ + item.body@
}

fn render_generic_list(v: &Vec<GenericParam>) -> (r: Vec<String>)
    ensures
        views(r@) == v@.map_values(|p: GenericParam| generic_text(p)),
{
    let mut out: Vec<String> = Vec::new();
    let mut i: usize = 0;
    while i < v.len()
        invariant
            i <= v.len(),
            views(out@) =~= v@.take(i as int).map_values(|p: GenericParam| generic_text(p)),
        decreases v.len() - i,
    {
        let ghost prev = views(out@);
        out.push(render_generic(&v[i]));
        proof {
            assert(views(out@) =~= prev.push(generic_text(v@[i as int])));
            assert(v@.take(i + 1).map_values(|p: GenericParam| generic_text(p)) =~= v@.take(i as int).map_values(
                |p: GenericParam| generic_text(p),
            ).push(generic_text(v@[i as int])));
        }
        i = i + 1;
        assert(views(out@) =~= v@.take(i as int).map_values(|p: GenericParam| generic_text(p)));
    }
    assert(v@.take(v.len() as int) =~= v@);
    out
}

fn render_predicate_list(v: &Vec<WherePredicate>) -> (r: Vec<String>)
    ensures
        views(r@) == v@.map_values(|w: WherePredicate| predicate_text(w)),
{
    let mut out: Vec<String> = Vec::new();
    let mut i: usize = 0;
    while i < v.len()
        invariant
            i <= v.len(),
            views(out@) =~= v@.take(i as int).map_values(|w: WherePredicate| predicate_text(w)),
        decreases v.len() - i,
    {
        let ghost prev = views(out@);
        out.push(render_predicate(&v[i]));
        proof {
            assert(views(out@) =~= prev.push(predicate_text(v@[i as int])));
            assert(v@.take(i + 1).map_values(|w: WherePredicate| predicate_text(w)) =~= v@.take(i as int).map_values(
                |w: WherePredicate| predicate_text(w),
            ).push(predicate_text(v@[i as int])));
        }
        i = i + 1;
        assert(views(out@) =~= v@.take(i as int).map_values(|w: WherePredicate| predicate_text(w)));
    }
    assert(v@.take(v.len() as int) =~= v@);
    out
}

fn render_arg_list(item: &AsyncItem) -> (r: Vec<String>)
    ensures
        views(r@) == arg_texts(*item),
{
    let mut out: Vec<String> = Vec::new();
    if !matches!(item.receiver, Receiver::NoReceiver) {
        out.push(render_receiver(&item.receiver));
    }
    let ghost head = views(out@);
    let v = &item.inputs;
    let mut i: usize = 0;
    while i < v.len()
        invariant
            i <= v.len(),
            v == &item.inputs,
            head == (if item.receiver is NoReceiver {
                Seq::<Seq<char>>::empty()
            } else {
                seq![receiver_text(item.receiver)]
            }),
            views(out@) =~= head + v@.take(i as int).map_values(|p: Param| param_text(p)),
        decreases v.len() - i,
    {
        let ghost prev = views(out@);
        out.push(render_param(&v[i]));
        proof {
            assert(views(out@) =~= prev.push(param_text(v@[i as int])));
            assert(v@.take(i + 1).map_values(|p: Param| param_text(p)) =~= v@.take(i as int).map_values(
                |p: Param| param_text(p),
            ).push(param_text(v@[i as int])));
        }
        i = i + 1;
        assert(views(out@) =~= head + v@.take(i as int).map_values(|p: Param| param_text(p)));
    }
    assert(v@.take(v.len() as int) =~= v@);
    out
}

/// The Rust source text of a definition.
pub fn render(item: &AsyncItem) -> (r: String)
    ensures
        r@ == item_text(*item),
{
    proof {
        reveal_strlit("\n");
        reveal_strlit(" ");
        reveal_strlit("async ");
        reveal_strlit("fn ");
        reveal_strlit("<");
        reveal_strlit(">");
        reveal_strlit(", ");
        reveal_strlit("(");
        reveal_strlit(")");
        reveal_strlit(" where ");
    }
    let mut s = String::new();
    if item.attrs.len() > 0 {
        s.append(join_strings(&item.attrs, "\n").as_str());
        s.append("\n");
    }
    if item.vis.as_str().unicode_len() > 0 {
        s.append(item.vis.as_str());
        s.append(" ");
    }
    if item.is_async {
        s.append("async ");
    }
    assert(s@ =~= head_text(*item));
    s.append("fn ");
    s.append(item.name.as_str());
    let ghost g0 = s@;
    if item.generics.len() > 0 {
        s.append("<");
        s.append(join_strings(&render_generic_list(&item.generics), ", ").as_str());
        s.append(">");
    }
    assert(s@ =~= g0 + generics_text(*item));
    s.append("(");
    s.append(join_strings(&render_arg_list(item), ", ").as_str());
    s.append(")");
    s.append(render_output(&item.output).as_str());
    let ghost w0 = s@;
    if item.where_clause.len() > 0 {
        s.append(" where ");
        s.append(join_strings(&render_predicate_list(&item.where_clause), ", ").as_str());
    }
    assert(s@ =~= w0 + where_text(*item));
    s.append(" ");
    s.append(item.body.as_str());
    assert(s@ =~= item_text(*item));
    s
}

} // verus!
