//! The structured form of one asynchronous function or method definition.
use vstd::prelude::*;

verus! {

/// The kind of a generic parameter.
#[derive(Clone, Copy, Debug, PartialEq, Eq, Structural)]
pub enum ParamKind {
    Lifetime,
    Type,
    Const,
}

/// One generic parameter. `name` is an identifier (a lifetime without its
/// apostrophe); `rest` is the text written after the name (bounds, a default,
/// or the type of a const parameter), carried through untouched.
#[derive(Debug)]
pub struct GenericParam {
    pub kind: ParamKind,
    pub name: String,
    pub rest: String,
}

/// The `self` parameter of a method, if any.
#[derive(Debug)]
pub enum Receiver {
    NoReceiver,
    ByValue { mutable: bool },
    ByRef { lifetime: Option<String> },
    ByMutRef { lifetime: Option<String> },
}

/// The type of an ordinary parameter. Only a reference at the top level is
/// looked into; everything else is opaque text.
#[derive(Debug)]
pub enum ParamType {
    Reference { lifetime: Option<String>, mutable: bool, elem: String },
    Plain { text: String },
}

/// An ordinary parameter: its pattern (as text) and its type.
#[derive(Debug)]
pub struct Param {
    pub pat: String,
    pub ty: ParamType,
}

/// One predicate of a `where` clause.
#[derive(Debug)]
pub enum WherePredicate {
    /// A predicate carried through as text.
    Text { text: String },
    /// `'longer: 'shorter`.
    Outlives { longer: String, shorter: String },
}

/// The pinned, heap-allocated, dynamically dispatched future type
/// `Pin<Box<dyn Future<Output = inner> + 'lifetime + Send>>`.
#[derive(Debug)]
pub struct BoxedFuture {
    pub inner: String,
    pub lifetime: Option<String>,
    pub send: bool,
}

/// The declared result of a definition.
#[derive(Debug)]
pub enum ReturnType {
    /// No `->` at all: the unit type.
    Unit,
    /// A declared type, as text.
    Type { text: String },
    /// A boxed future type.
    Boxed { future: BoxedFuture },
}

/// One function or method definition. The body is opaque text (braces
/// included) that is relocated, never read.
#[derive(Debug)]
pub struct AsyncItem {
    pub attrs: Vec<String>,
    pub vis: String,
    pub is_async: bool,
    pub name: String,
    pub generics: Vec<GenericParam>,
    pub receiver: Receiver,
    pub inputs: Vec<Param>,
    pub output: ReturnType,
    pub where_clause: Vec<WherePredicate>,
    pub body: String,
}

impl Receiver {
    /// The receiver is `&self` or `&mut self` with no lifetime written.
    pub open spec fn is_elided_ref(&self) -> bool {
        match self {
            Receiver::ByRef { lifetime: None } => true,
            Receiver::ByMutRef { lifetime: None } => true,
            _ => false,
        }
    }

    /// The lifetime written on a reference receiver, or nothing.
    pub open spec fn named_lifetime(&self) -> Option<Seq<char>> {
        match self {
            Receiver::ByRef { lifetime: Some(l) } => Some(l@),
            Receiver::ByMutRef { lifetime: Some(l) } => Some(l@),
            _ => None,
        }
    }
}

impl ParamType {
    /// The type is a reference with no lifetime written.
    pub open spec fn is_elided_ref(&self) -> bool {
        match self {
            ParamType::Reference { lifetime: None, .. } => true,
            _ => false,
        }
    }

    /// The lifetime written on a reference type, or nothing.
    pub open spec fn named_lifetime(&self) -> Option<Seq<char>> {
        match self {
            ParamType::Reference { lifetime: Some(l), .. } => Some(l@),
            _ => None,
        }
    }
}

/// A name that may be absent, as a sequence (empty when absent).
pub open spec fn name_or_empty(o: Option<Seq<char>>) -> Seq<char> {
    match o {
        Some(n) => n,
        None => Seq::empty(),
    }
}

/// The longest length among some names.
pub open spec fn max_len(s: Seq<Seq<char>>) -> nat
    decreases s.len(),
{
    if s.len() == 0 {
        0
    } else {
        let m = max_len(s.drop_last());
        if s.last().len() > m {
            s.last().len()
        } else {
            m
        }
    }
}

pub proof fn lemma_max_len(s: Seq<Seq<char>>, i: int)
    requires
        0 <= i < s.len(),
    ensures
        s[i].len() <= max_len(s),
    decreases s.len(),
{
    if i < s.len() - 1 {
        lemma_max_len(s.drop_last(), i);
    }
}

/// The name chosen for a synthesized lifetime.
pub open spec fn base_name() -> Seq<char> {
    "async_recursion"@
}

/// The first of `cand`, `cand_`, `cand__`, ... that `item` does not use.
pub open spec fn first_free(item: AsyncItem, cand: Seq<char>) -> Seq<char>
    decreases item.name_bound() + 1 - cand.len(),
{
    if item.uses_name(cand) && cand.len() <= item.name_bound() {
        first_free(item, cand.push('_'))
    } else {
        cand
    }
}

impl AsyncItem {
    /// The definition has a receiver or a reference-typed parameter.
    pub open spec fn needs_lifetime(&self) -> bool {
        !(self.receiver is NoReceiver) || exists|i: int|
            0 <= i < self.inputs.len() && #[trigger] self.inputs@[i].ty is Reference
    }

    /// The names of the generic parameters.
    pub open spec fn generic_names(&self) -> Seq<Seq<char>> {
        self.generics@.map_values(|p: GenericParam| p.name@)
    }

    /// The lifetimes written on the reference parameters (empty where none).
    pub open spec fn input_lifetime_names(&self) -> Seq<Seq<char>> {
        self.inputs@.map_values(|p: Param| name_or_empty(p.ty.named_lifetime()))
    }

    /// `n` names a generic parameter, or a lifetime written on a parameter.
    pub open spec fn uses_name(&self, n: Seq<char>) -> bool {
        self.generic_names().contains(n) || (exists|i: int|
            0 <= i < self.inputs.len() && #[trigger] self.inputs@[i].ty.named_lifetime() == Some(n))
            || self.receiver.named_lifetime() == Some(n)
    }

    /// A length that no used name exceeds.
    pub open spec fn name_bound(&self) -> nat {
        max_len(self.generic_names()) + max_len(self.input_lifetime_names()) + name_or_empty(
            self.receiver.named_lifetime(),
        ).len()
    }

    /// The lifetime that a rewrite of this definition introduces.
    pub open spec fn synthesized_lifetime(&self) -> Seq<char> {
        first_free(*self, base_name())
    }
}

pub proof fn lemma_used_name_bounded(item: AsyncItem, n: Seq<char>)
    requires
        item.uses_name(n),
    ensures
        n.len() <= item.name_bound(),
{
    if item.generic_names().contains(n) {
        let i = choose|i: int| 0 <= i < item.generic_names().len() && item.generic_names()[i] == n;
        lemma_max_len(item.generic_names(), i);
    } else if exists|i: int|
        0 <= i < item.inputs.len() && #[trigger] item.inputs@[i].ty.named_lifetime() == Some(n) {
        let i = choose|i: int|
            0 <= i < item.inputs.len() && #[trigger] item.inputs@[i].ty.named_lifetime() == Some(n);
        assert(item.input_lifetime_names()[i] == n);
        lemma_max_len(item.input_lifetime_names(), i);
    }
}

/// The name found by `first_free` is not used by the definition.
pub proof fn lemma_first_free_unused(item: AsyncItem, cand: Seq<char>)
    ensures
        !item.uses_name(first_free(item, cand)),
    decreases item.name_bound() + 1 - cand.len(),
{
    if item.uses_name(cand) {
        lemma_used_name_bounded(item, cand);
        lemma_first_free_unused(item, cand.push('_'));
    }
}

} // verus!

verus! {

/// `new` is `old` with an elided reference lifetime set to `l`, and otherwise
/// the same receiver.
pub open spec fn receiver_rewritten(old: Receiver, new: Receiver, l: Seq<char>) -> bool {
    match (old, new) {
        (Receiver::ByRef { lifetime: None }, Receiver::ByRef { lifetime: Some(n) }) => n@ == l,
        (Receiver::ByMutRef { lifetime: None }, Receiver::ByMutRef { lifetime: Some(n) }) => n@
            == l,
        _ => !old.is_elided_ref() && new == old,
    }
}

/// `new` is `old` with an elided reference lifetime set to `l`, and otherwise
/// the same parameter.
pub open spec fn param_rewritten(old: Param, new: Param, l: Seq<char>) -> bool {
    new.pat == old.pat && match (old.ty, new.ty) {
        (
            ParamType::Reference { lifetime: None, mutable: m1, elem: e1 },
            ParamType::Reference { lifetime: Some(n), mutable: m2, elem: e2 },
        ) => n@ == l && m1 == m2 && e1 == e2,
        _ => !old.ty.is_elided_ref() && new.ty == old.ty,
    }
}

/// The names of the lifetime parameters, in order.
pub open spec fn generic_lifetime_names(g: Seq<GenericParam>) -> Seq<Seq<char>>
    decreases g.len(),
{
    if g.len() == 0 {
        Seq::empty()
    } else {
        let r = generic_lifetime_names(g.drop_last());
        if g.last().kind == ParamKind::Lifetime {
            r.push(g.last().name@)
        } else {
            r
        }
    }
}

/// The number of lifetime parameters that open the list: where a new
/// lifetime parameter goes, since lifetimes precede types and constants.
pub open spec fn lifetime_slot(g: Seq<GenericParam>) -> nat
    decreases g.len(),
{
    if g.len() == 0 || g[0].kind != ParamKind::Lifetime {
        0
    } else {
        1 + lifetime_slot(g.subrange(1, g.len() as int))
    }
}

pub proof fn lemma_lifetime_slot(g: Seq<GenericParam>, i: int)
    requires
        0 <= i <= g.len(),
        forall|j: int| 0 <= j < i ==> (#[trigger] g[j]).kind == ParamKind::Lifetime,
        i == g.len() || g[i].kind != ParamKind::Lifetime,
    ensures
        lifetime_slot(g) == i,
    decreases i,
{
    if i > 0 {
        let t = g.subrange(1, g.len() as int);
        assert forall|j: int| 0 <= j < i - 1 implies (#[trigger] t[j]).kind == ParamKind::Lifetime by {
            assert(t[j] == g[j + 1]);
        }
        if i < g.len() {
            assert(t[i - 1] == g[i]);
        }
        lemma_lifetime_slot(t, i - 1);
    }
}

/// The lifetimes written on reference parameters, in order.
pub open spec fn input_named_lifetimes(inputs: Seq<Param>) -> Seq<Seq<char>>
    decreases inputs.len(),
{
    if inputs.len() == 0 {
        Seq::empty()
    } else {
        let r = input_named_lifetimes(inputs.drop_last());
        match inputs.last().ty.named_lifetime() {
            Some(n) => r.push(n),
            None => r,
        }
    }
}

/// The names, each once, in order of first appearance.
pub open spec fn distinct(s: Seq<Seq<char>>) -> Seq<Seq<char>>
    decreases s.len(),
{
    if s.len() == 0 {
        Seq::empty()
    } else {
        let r = distinct(s.drop_last());
        if r.contains(s.last()) {
            r
        } else {
            r.push(s.last())
        }
    }
}

/// A name that may be absent, as a sequence of at most one name.
pub open spec fn opt_seq(o: Option<Seq<char>>) -> Seq<Seq<char>> {
    match o {
        Some(n) => seq![n],
        None => Seq::empty(),
    }
}

impl AsyncItem {
    /// The lifetime parameters, then the lifetimes written on the receiver and
    /// on reference parameters, in order.
    pub open spec fn written_lifetimes(&self) -> Seq<Seq<char>> {
        generic_lifetime_names(self.generics@) + opt_seq(self.receiver.named_lifetime())
            + input_named_lifetimes(self.inputs@)
    }

    /// The written lifetimes, each once, in order of first appearance.
    pub open spec fn outlived_lifetimes(&self) -> Seq<Seq<char>> {
        distinct(self.written_lifetimes())
    }
}

/// The body of the rewritten definition: the block as written, moved into an
/// `async move` block that is boxed and pinned.
pub open spec fn wrapped_body(b: Seq<char>) -> Seq<char> {
    "{ Box::pin(async move "@ + b + ") }"@
}

/// Each lifetime parameter is among the named lifetime parameters.
pub proof fn lemma_generic_lifetime_names(g: Seq<GenericParam>, i: int)
    requires
        0 <= i < g.len(),
        g[i].kind == ParamKind::Lifetime,
    ensures
        generic_lifetime_names(g).contains(g[i].name@),
    decreases g.len(),
{
    let r = generic_lifetime_names(g.drop_last());
    if i == g.len() - 1 {
        assert(generic_lifetime_names(g).last() == g[i].name@);
    } else {
        assert(g.drop_last()[i] == g[i]);
        lemma_generic_lifetime_names(g.drop_last(), i);
        let k = choose|k: int| 0 <= k < r.len() && r[k] == g[i].name@;
        assert(generic_lifetime_names(g)[k] == g[i].name@);
    }
}

/// Dropping repeats keeps every name.
pub proof fn lemma_distinct_contains(s: Seq<Seq<char>>, x: Seq<char>)
    requires
        s.contains(x),
    ensures
        distinct(s).contains(x),
    decreases s.len(),
{
    let r = distinct(s.drop_last());
    if s.last() == x {
        if !r.contains(x) {
            assert(distinct(s).last() == x);
        }
    } else {
        let i = choose|i: int| 0 <= i < s.len() && s[i] == x;
        assert(s.drop_last()[i] == x);
        lemma_distinct_contains(s.drop_last(), x);
        let k = choose|k: int| 0 <= k < r.len() && r[k] == x;
        assert(distinct(s)[k] == x);
    }
}

/// Every lifetime parameter is among the lifetimes that the new one is bounded below.
pub proof fn lemma_lifetime_param_outlived(item: AsyncItem, i: int)
    requires
        0 <= i < item.generics@.len(),
        item.generics@[i].kind == ParamKind::Lifetime,
    ensures
        item.outlived_lifetimes().contains(item.generics@[i].name@),
{
    let x = item.generics@[i].name@;
    lemma_generic_lifetime_names(item.generics@, i);
    let g = generic_lifetime_names(item.generics@);
    let k = choose|k: int| 0 <= k < g.len() && g[k] == x;
    assert(item.written_lifetimes()[k] == x);
    lemma_distinct_contains(item.written_lifetimes(), x);
}

} // verus!
