use async_recursion::args::parse_args;
use async_recursion::async_recursion;
use async_recursion::expand::{expand, needs_lifetime, ExpandError, RecursionArgs};
use async_recursion::item::{
    AsyncItem, BoxedFuture, GenericParam, Param, ParamKind, ParamType, Receiver, ReturnType,
    WherePredicate,
};
use async_recursion::render::render;
use futures_executor::block_on;

const FIB_BODY: &str = "{ match n { 0 => panic!(\"zero is not a valid argument to fib()!\"), 1 | 2 => 1, 3 => 2, _ => fib(n - 1).await + fib(n - 2).await, } }";

fn s(t: &str) -> String {
    t.to_string()
}

fn plain(pat: &str, ty: &str) -> Param {
    Param { pat: s(pat), ty: ParamType::Plain { text: s(ty) } }
}

fn reference(pat: &str, lifetime: Option<&str>, elem: &str) -> Param {
    Param {
        pat: s(pat),
        ty: ParamType::Reference { lifetime: lifetime.map(s), mutable: false, elem: s(elem) },
    }
}

fn generic(kind: ParamKind, name: &str, rest: &str) -> GenericParam {
    GenericParam { kind, name: s(name), rest: s(rest) }
}

fn item(name: &str, receiver: Receiver, inputs: Vec<Param>, output: ReturnType, body: &str) -> AsyncItem {
    AsyncItem {
        attrs: vec![],
        vis: String::new(),
        is_async: true,
        name: s(name),
        generics: vec![],
        receiver,
        inputs,
        output,
        where_clause: vec![],
        body: s(body),
    }
}

fn fib_item() -> AsyncItem {
    item("fib", Receiver::NoReceiver, vec![plain("n", "u32")], ReturnType::Type { text: s("u64") }, FIB_BODY)
}

// The text that `fibonacci_works` expects from the library, as code.
fn fib(n: u32) -> ::core::pin::Pin<Box<dyn ::core::future::Future<Output = u64> + ::core::marker::Send>> { Box::pin(async move { match n { 0 => panic!("zero is not a valid argument to fib()!"), 1 | 2 => 1, 3 => 2, _ => fib(n - 1).await + fib(n - 2).await, } }) }

struct Node<'a, T> {
    value: T,
    left: Option<&'a Node<'a, T>>,
    right: Option<&'a Node<'a, T>>,
}

impl<T> Node<'_, T> {
    fn new(value: T) -> Self {
        Self { value, left: None, right: None }
    }
}

const CONTAINS_BODY: &str = "{ if &node.value == value { true } else { (node.left.is_some() && contains_value(value, node.left.unwrap()).await) || (node.right.is_some() && contains_value(value, node.right.unwrap()).await) } }";

fn contains_value_item() -> AsyncItem {
    let mut it = item(
        "contains_value",
        Receiver::NoReceiver,
        vec![reference("value", None, "T"), reference("node", None, "Node<'a, T>")],
        ReturnType::Type { text: s("bool") },
        CONTAINS_BODY,
    );
    it.generics = vec![generic(ParamKind::Lifetime, "a", ""), generic(ParamKind::Type, "T", "")];
    it.where_clause = vec![WherePredicate::Text { text: s("T: PartialEq") }];
    it
}

// The texts that `basic_lifetimes_test` expects from the library with `?Send`, as code.
fn contains_value<'a, 'async_recursion, T>(value: &'async_recursion T, node: &'async_recursion Node<'a, T>) -> ::core::pin::Pin<Box<dyn ::core::future::Future<Output = bool> + 'async_recursion>> where T: PartialEq, 'a: 'async_recursion { Box::pin(async move { if &node.value == value { true } else { (node.left.is_some() && contains_value(value, node.left.unwrap()).await) || (node.right.is_some() && contains_value(value, node.right.unwrap()).await) } }) }

fn contains_value_2<'a, 'b, 'async_recursion, T>(value: &'b T, node: &'b Node<'a, T>) -> ::core::pin::Pin<Box<dyn ::core::future::Future<Output = bool> + 'async_recursion>> where T: PartialEq, 'a: 'async_recursion, 'b: 'async_recursion { Box::pin(async move { contains_value(value, node).await }) }

struct Empty {}

// The text that `struct_method_fib` expects from the library, inside the impl, as code.
impl Empty {
    pub fn fib<'async_recursion>(&'async_recursion self, n: u32) -> ::core::pin::Pin<Box<dyn ::core::future::Future<Output = u64> + 'async_recursion + ::core::marker::Send>> { Box::pin(async move { match n { 0 => panic!("zero is not a valid argument to fib()!"), 1 | 2 => 1, 3 => 2, _ => self.fib(n - 1).await + self.fib(n - 2).await, } }) }
}

#[test]
fn fibonacci_works() {
    let out = async_recursion(&vec![], fib_item()).unwrap();
    assert_eq!(
        out,
        format!(
            "fn fib(n: u32) -> ::core::pin::Pin<Box<dyn ::core::future::Future<Output = u64> + ::core::marker::Send>> {{ Box::pin(async move {}) }}",
            FIB_BODY
        )
    );
    block_on(async move {
        assert_eq!(fib(3).await, 2);
        assert_eq!(fib(4).await, 3);
        assert_eq!(fib(5).await, 5);
        assert_eq!(fib(6).await, 8);
    });
}

fn contains_value_2_item() -> AsyncItem {
    let mut second = item(
        "contains_value_2",
        Receiver::NoReceiver,
        vec![reference("value", Some("b"), "T"), reference("node", Some("b"), "Node<'a, T>")],
        ReturnType::Type { text: s("bool") },
        "{ contains_value(value, node).await }",
    );
    second.generics = vec![
        generic(ParamKind::Lifetime, "a", ""),
        generic(ParamKind::Lifetime, "b", ""),
        generic(ParamKind::Type, "T", ""),
    ];
    second.where_clause = vec![WherePredicate::Text { text: s("T: PartialEq") }];
    second
}

#[test]
fn basic_lifetimes_test() {
    // Without arguments: the future is also bounded by `Send`.
    let out = async_recursion(&vec![], contains_value_item()).unwrap();
    assert_eq!(
        out,
        format!(
            "fn contains_value<'a, 'async_recursion, T>(value: &'async_recursion T, node: &'async_recursion Node<'a, T>) -> ::core::pin::Pin<Box<dyn ::core::future::Future<Output = bool> + 'async_recursion + ::core::marker::Send>> where T: PartialEq, 'a: 'async_recursion {{ Box::pin(async move {}) }}",
            CONTAINS_BODY
        )
    );
    let out = async_recursion(&vec![], contains_value_2_item()).unwrap();
    assert_eq!(
        out,
        "fn contains_value_2<'a, 'b, 'async_recursion, T>(value: &'b T, node: &'b Node<'a, T>) -> ::core::pin::Pin<Box<dyn ::core::future::Future<Output = bool> + 'async_recursion + ::core::marker::Send>> where T: PartialEq, 'a: 'async_recursion, 'b: 'async_recursion { Box::pin(async move { contains_value(value, node).await }) }"
    );

    // A `Send` future holding `&T` needs `T: Sync`, which `T: PartialEq` does
    // not give, so the code run below is the `?Send` form.
    let out = async_recursion(&vec![s("?"), s("Send")], contains_value_item()).unwrap();
    assert_eq!(
        out,
        format!(
            "fn contains_value<'a, 'async_recursion, T>(value: &'async_recursion T, node: &'async_recursion Node<'a, T>) -> ::core::pin::Pin<Box<dyn ::core::future::Future<Output = bool> + 'async_recursion>> where T: PartialEq, 'a: 'async_recursion {{ Box::pin(async move {}) }}",
            CONTAINS_BODY
        )
    );
    let out = async_recursion(&vec![s("?"), s("Send")], contains_value_2_item()).unwrap();
    assert_eq!(
        out,
        "fn contains_value_2<'a, 'b, 'async_recursion, T>(value: &'b T, node: &'b Node<'a, T>) -> ::core::pin::Pin<Box<dyn ::core::future::Future<Output = bool> + 'async_recursion>> where T: PartialEq, 'a: 'async_recursion, 'b: 'async_recursion { Box::pin(async move { contains_value(value, node).await }) }"
    );

    block_on(async move {
        let mut node = Node::new(10);
        let mut left = Node::new(5);
        let left_left = Node::new(3);
        let left_right = Node::new(7);
        let mut right = Node::new(15);
        let right_left = Node::new(13);
        let right_right = Node::new(17);

        left.left = Some(&left_left);
        left.right = Some(&left_right);
        right.left = Some(&right_left);
        right.right = Some(&right_right);

        node.left = Some(&left);
        node.right = Some(&right);

        assert_eq!(contains_value(&3, &node).await, true);
        assert_eq!(contains_value(&4, &node).await, false);
        assert_eq!(contains_value(&17, &node).await, true);
        assert_eq!(contains_value(&13, &node).await, true);
        assert_eq!(contains_value(&12, &node).await, false);

        assert_eq!(contains_value_2(&3, &node).await, true);
        assert_eq!(contains_value_2(&4, &node).await, false);
        assert_eq!(contains_value_2(&17, &node).await, true);
        assert_eq!(contains_value_2(&13, &node).await, true);
        assert_eq!(contains_value_2(&12, &node).await, false);
    });
}

#[test]
fn struct_method_fib() {
    let mut method = item(
        "fib",
        Receiver::ByRef { lifetime: None },
        vec![plain("n", "u32")],
        ReturnType::Type { text: s("u64") },
        "{ match n { 0 => panic!(\"zero is not a valid argument to fib()!\"), 1 | 2 => 1, 3 => 2, _ => self.fib(n - 1).await + self.fib(n - 2).await, } }",
    );
    method.vis = s("pub");
    let out = async_recursion(&vec![], method).unwrap();
    assert_eq!(
        out,
        "pub fn fib<'async_recursion>(&'async_recursion self, n: u32) -> ::core::pin::Pin<Box<dyn ::core::future::Future<Output = u64> + 'async_recursion + ::core::marker::Send>> { Box::pin(async move { match n { 0 => panic!(\"zero is not a valid argument to fib()!\"), 1 | 2 => 1, 3 => 2, _ => self.fib(n - 1).await + self.fib(n - 2).await, } }) }"
    );
    block_on(async move {
        let e = Empty {};
        assert_eq!(e.fib(6).await, 8);
        assert_eq!(e.fib(5).await, 5);
        assert_eq!(e.fib(7).await, 13);
        assert_eq!(e.fib(6).await, fib(6).await);
    });
}

#[test]
fn unit_result_becomes_unit_output() {
    let mut it = item("tick", Receiver::NoReceiver, vec![], ReturnType::Unit, "{}");
    expand(&mut it, &RecursionArgs { send_bound: true }).unwrap();
    match &it.output {
        ReturnType::Boxed { future } => {
            assert_eq!(future.inner, "()");
            assert_eq!(future.lifetime, None);
            assert!(future.send);
        }
        _ => panic!("output not boxed"),
    }
    assert!(!it.is_async);
    assert_eq!(it.body, "{ Box::pin(async move {}) }");
}

#[test]
fn declared_result_kept() {
    let mut it = fib_item();
    expand(&mut it, &RecursionArgs { send_bound: false }).unwrap();
    match &it.output {
        ReturnType::Boxed { future } => {
            assert_eq!(future.inner, "u64");
            assert!(!future.send);
        }
        _ => panic!("output not boxed"),
    }
}

#[test]
fn boxed_result_is_wrapped_again() {
    let inner = BoxedFuture { inner: s("u8"), lifetime: None, send: false };
    let mut it = item("f", Receiver::NoReceiver, vec![], ReturnType::Boxed { future: inner }, "{ g() }");
    expand(&mut it, &RecursionArgs { send_bound: false }).unwrap();
    match &it.output {
        ReturnType::Boxed { future } => assert_eq!(
            future.inner,
            "::core::pin::Pin<Box<dyn ::core::future::Future<Output = u8>>>"
        ),
        _ => panic!("output not boxed"),
    }
}

#[test]
fn no_lifetime_without_references() {
    let mut it = fib_item();
    it.generics = vec![generic(ParamKind::Type, "T", ": Clone"), generic(ParamKind::Const, "N", ": usize")];
    assert!(!needs_lifetime(&it));
    expand(&mut it, &RecursionArgs { send_bound: true }).unwrap();
    assert_eq!(it.generics.len(), 2);
    assert_eq!(
        render(&it),
        format!(
            "fn fib<T: Clone, const N: usize>(n: u32) -> ::core::pin::Pin<Box<dyn ::core::future::Future<Output = u64> + ::core::marker::Send>> {{ Box::pin(async move {}) }}",
            FIB_BODY
        )
    );
}

#[test]
fn lifetime_name_avoids_collision() {
    let mut it = item("f", Receiver::NoReceiver, vec![reference("x", None, "u8")], ReturnType::Unit, "{}");
    it.generics = vec![
        generic(ParamKind::Lifetime, "async_recursion", ""),
        generic(ParamKind::Type, "async_recursion_", ""),
    ];
    expand(&mut it, &RecursionArgs { send_bound: true }).unwrap();
    assert_eq!(it.generics.len(), 3);
    assert_eq!(it.generics[1].name, "async_recursion__");
    assert_eq!(it.generics[1].kind, ParamKind::Lifetime);
    assert_eq!(it.generics[2].name, "async_recursion_");
    match &it.inputs[0].ty {
        ParamType::Reference { lifetime, .. } => assert_eq!(lifetime.as_deref(), Some("async_recursion__")),
        _ => panic!("reference lost"),
    }
}

#[test]
fn lifetime_written_on_receiver_is_bounded() {
    let mut it = item("walk", Receiver::ByMutRef { lifetime: Some(s("a")) }, vec![], ReturnType::Unit, "{}");
    expand(&mut it, &RecursionArgs { send_bound: true }).unwrap();
    assert_eq!(
        render(&it),
        "fn walk<'async_recursion>(&'a mut self) -> ::core::pin::Pin<Box<dyn ::core::future::Future<Output = ()> + 'async_recursion + ::core::marker::Send>> where 'a: 'async_recursion { Box::pin(async move {}) }"
    );
}

#[test]
fn by_value_receiver_gets_lifetime() {
    let mut it = item("consume", Receiver::ByValue { mutable: true }, vec![], ReturnType::Unit, "{}");
    expand(&mut it, &RecursionArgs { send_bound: true }).unwrap();
    assert_eq!(it.generics.len(), 1);
    assert!(render(&it).starts_with("fn consume<'async_recursion>(mut self) -> "));
}

#[test]
fn mutable_reference_parameter_rewritten() {
    let mut it = item(
        "fill",
        Receiver::NoReceiver,
        vec![Param { pat: s("buf"), ty: ParamType::Reference { lifetime: None, mutable: true, elem: s("Vec<u8>") } }],
        ReturnType::Unit,
        "{}",
    );
    it.attrs = vec![s("#[inline]")];
    expand(&mut it, &RecursionArgs { send_bound: false }).unwrap();
    assert_eq!(
        render(&it),
        "#[inline]\nfn fill<'async_recursion>(buf: &'async_recursion mut Vec<u8>) -> ::core::pin::Pin<Box<dyn ::core::future::Future<Output = ()> + 'async_recursion>> { Box::pin(async move {}) }"
    );
}

#[test]
fn not_async_is_refused() {
    let mut it = fib_item();
    it.is_async = false;
    assert_eq!(expand(&mut it, &RecursionArgs { send_bound: true }), Err(ExpandError::NotAsync));
    assert_eq!(it.body, FIB_BODY);
    let mut again = fib_item();
    again.is_async = false;
    assert_eq!(async_recursion(&vec![], again), Err(ExpandError::NotAsync));
    assert!(!ExpandError::NotAsync.message().is_empty());
}

#[test]
fn arguments_parsed() {
    assert_eq!(parse_args(&vec![]), Ok(RecursionArgs { send_bound: true }));
    assert_eq!(parse_args(&vec![s("?"), s("Send")]), Ok(RecursionArgs { send_bound: false }));
    assert_eq!(parse_args(&vec![s("Send")]), Err(ExpandError::BadArguments));
    assert_eq!(parse_args(&vec![s("?"), s("Sync")]), Err(ExpandError::BadArguments));
    assert_eq!(async_recursion(&vec![s("x")], fib_item()), Err(ExpandError::BadArguments));
    assert!(!ExpandError::BadArguments.message().is_empty());
}

#[test]
fn async_qualifier_rendered_before_rewrite() {
    let it = fib_item();
    assert_eq!(render(&it), format!("async fn fib(n: u32) -> u64 {}", FIB_BODY));
}

#[test]
fn written_lifetimes_bounded_once_each() {
    let mut it = item(
        "visit",
        Receiver::ByRef { lifetime: Some(s("a")) },
        vec![reference("x", Some("a"), "u8"), reference("y", Some("b"), "u8"), reference("z", None, "u8"), reference("w", Some("b"), "u8")],
        ReturnType::Unit,
        "{}",
    );
    it.where_clause = vec![WherePredicate::Text { text: s("'b: 'a") }];
    expand(&mut it, &RecursionArgs { send_bound: true }).unwrap();
    assert_eq!(
        render(&it),
        "fn visit<'async_recursion>(&'a self, x: &'a u8, y: &'b u8, z: &'async_recursion u8, w: &'b u8) -> ::core::pin::Pin<Box<dyn ::core::future::Future<Output = ()> + 'async_recursion + ::core::marker::Send>> where 'b: 'a, 'a: 'async_recursion, 'b: 'async_recursion { Box::pin(async move {}) }"
    );
}

#[test]
fn lifetime_goes_before_type_parameters() {
    let mut it = item("f", Receiver::NoReceiver, vec![reference("x", None, "T")], ReturnType::Unit, "{}");
    it.generics = vec![generic(ParamKind::Type, "T", ": Sync"), generic(ParamKind::Const, "N", ": usize")];
    expand(&mut it, &RecursionArgs { send_bound: true }).unwrap();
    assert_eq!(
        render(&it),
        "fn f<'async_recursion, T: Sync, const N: usize>(x: &'async_recursion T) -> ::core::pin::Pin<Box<dyn ::core::future::Future<Output = ()> + 'async_recursion + ::core::marker::Send>> { Box::pin(async move {}) }"
    );
}

#[test]
fn lifetime_parameter_in_by_value_input_is_bounded() {
    let mut it = item(
        "g",
        Receiver::NoReceiver,
        vec![reference("x", None, "u8"), plain("n", "Node<'a, u8>")],
        ReturnType::Type { text: s("u8") },
        "{ *x }",
    );
    it.generics = vec![generic(ParamKind::Lifetime, "a", "")];
    expand(&mut it, &RecursionArgs { send_bound: false }).unwrap();
    assert_eq!(
        render(&it),
        "fn g<'a, 'async_recursion>(x: &'async_recursion u8, n: Node<'a, u8>) -> ::core::pin::Pin<Box<dyn ::core::future::Future<Output = u8> + 'async_recursion>> where 'a: 'async_recursion { Box::pin(async move { *x }) }"
    );
}
