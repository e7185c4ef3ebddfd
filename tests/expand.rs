use norpc_macros::args::Args;
use norpc_macros::generator::{write_params, Generator, ParamStyle};
use norpc_macros::model::{check_ident, Function, GenerationError, Parameter, Service};
use norpc_macros::service;
use norpc_macros::expand::service_from_shape;
use norpc_macros::syntax::{function_from_parts, parse_func, parse_service, ArgShape, ItemShape, TraitShape};

const HELLO_WORLD: &str = "trait HelloWorld {
    fn read(id: u64) -> Option<String>;
    fn write(id: u64, v: String);
    fn write_many(kv: HashSet<(u64, String)>);
    fn noop();
}";

fn param(n: &str, t: &str) -> Parameter {
    Parameter { var_name: n.to_string(), typ_name: t.to_string() }
}

#[test]
fn args_empty_is_not_local() {
    assert_eq!(Args::parse(""), Ok(Args { local: false }));
    assert_eq!(Args::parse("  \n\t "), Ok(Args { local: false }));
}

#[test]
fn args_local_word() {
    assert_eq!(Args::parse("local"), Ok(Args { local: true }));
    assert_eq!(Args::parse("  local\n"), Ok(Args { local: true }));
}

#[test]
fn args_other_words_are_refused() {
    assert_eq!(Args::parse("locale"), Err(GenerationError::InvalidArguments));
    assert_eq!(Args::parse("loca"), Err(GenerationError::InvalidArguments));
    assert_eq!(Args::parse("lo cal"), Err(GenerationError::InvalidArguments));
    assert_eq!(Args::parse("remote"), Err(GenerationError::InvalidArguments));
}

#[test]
fn identifiers() {
    assert!(check_ident(&"read".to_string()));
    assert!(check_ident(&"_x9".to_string()));
    assert!(!check_ident(&"".to_string()));
    assert!(!check_ident(&"9x".to_string()));
    assert!(!check_ident(&"(a, b)".to_string()));
}

#[test]
fn params_in_each_style() {
    let ps = vec![param("id", "u64"), param("v", "String")];
    assert_eq!(write_params(&ps, ParamStyle::Types), "u64, String, ");
    assert_eq!(write_params(&ps, ParamStyle::Typed), "id: u64, v: String, ");
    assert_eq!(write_params(&ps, ParamStyle::Names), "id, v, ");
    assert_eq!(write_params(&vec![], ParamStyle::Typed), "");
}

#[test]
fn exact_code_for_one_method() {
    let svc = Service {
        name: "Echo".to_string(),
        functions: vec![Function {
            name: "echo".to_string(),
            inputs: vec![param("s", "String")],
            output: "String".to_string(),
        }],
    };
    let code = Generator { no_send: false }.generate(&svc).unwrap();
    let expected = "#[allow(non_camel_case_types)]
#[derive(Debug)]
pub enum EchoRequest {
    echo(String, norpc::oneshot::Sender<String>),
}
#[norpc::async_trait]
pub trait Echo: Clone {
    async fn echo(self, s: String, ) -> String;
}
#[derive(Clone)]
pub struct EchoClient<Svc> {
    svc: Svc,
}
impl<Svc: norpc::tower::Service<EchoRequest, Response = ()>> EchoClient<Svc> {
    pub fn new(svc: Svc) -> Self {
        Self { svc }
    }
    pub async fn echo(&mut self, s: String, ) -> std::result::Result<String, norpc::Error<Svc::Error>> {
        let (norpc_reply, norpc_slot) = norpc::oneshot::channel();
        norpc::poll_fn(|cx| self.svc.poll_ready(cx)).await.map_err(norpc::Error::Service)?;
        self.svc.call(EchoRequest::echo(s, norpc_reply)).await.map_err(norpc::Error::Service)?;
        norpc_slot.await.map_err(|_| norpc::Error::Disconnected)
    }
}
#[derive(Clone)]
pub struct EchoService<App> {
    app: App,
}
impl<App: Echo> EchoService<App> {
    pub fn new(app: App) -> Self {
        Self { app }
    }
}
impl<App: Echo + 'static + Send> norpc::tower::Service<EchoRequest> for EchoService<App> {
    type Response = ();
    type Error = ();
    type Future = std::pin::Pin<Box<dyn std::future::Future<Output = std::result::Result<(), ()>> + Send>>;
    fn poll_ready(&mut self, _: &mut std::task::Context<'_>) -> std::task::Poll<std::result::Result<(), ()>> {
        std::task::Poll::Ready(Ok(()))
    }
    fn call(&mut self, req: EchoRequest) -> Self::Future {
        let norpc_app = self.app.clone();
        Box::pin(async move {
            match req {
                EchoRequest::echo(s, norpc_reply) => {
                    let _ = norpc_reply.send(norpc_app.echo(s, ).await);
                }
            }
            Ok(())
        })
    }
}
";
    assert_eq!(code, expected);
}

#[test]
fn local_mode_drops_send() {
    let svc = Service { name: "Noop".to_string(), functions: vec![] };
    let code = Generator { no_send: true }.generate(&svc).unwrap();
    assert!(code.contains("#[norpc::async_trait(?Send)]\n"));
    assert!(code.contains("impl<App: Noop + 'static> norpc::tower::Service<NoopRequest>"));
    assert!(!code.contains("Send>"));
    let sent = Generator { no_send: false }.generate(&svc).unwrap();
    assert!(sent.contains("impl<App: Noop + 'static + Send> norpc::tower::Service<NoopRequest>"));
}

#[test]
fn duplicate_methods_are_refused() {
    let f = Function { name: "read".to_string(), inputs: vec![], output: "()".to_string() };
    let svc = Service { name: "S".to_string(), functions: vec![f.clone(), f] };
    assert_eq!(
        Generator { no_send: false }.generate(&svc),
        Err(GenerationError::DuplicateMethod { name: "read".to_string() })
    );
    let r = service("", "trait S { fn a(); fn b(x: u8); fn a(y: u8); }");
    assert_eq!(r, Err(GenerationError::DuplicateMethod { name: "a".to_string() }));
}

#[test]
fn bad_names_are_refused() {
    let svc = Service {
        name: "S".to_string(),
        functions: vec![Function {
            name: "f".to_string(),
            inputs: vec![param("(a, b)", "(u8, u8)")],
            output: "()".to_string(),
        }],
    };
    assert_eq!(
        Generator { no_send: false }.generate(&svc),
        Err(GenerationError::InvalidName { name: "f".to_string() })
    );
    let r = service("", "trait S { fn g(); fn f((a, b): (u8, u8)); }");
    assert_eq!(r, Err(GenerationError::InvalidName { name: "f".to_string() }));
    let bad = Service { name: "9S".to_string(), functions: vec![] };
    assert_eq!(
        Generator { no_send: false }.generate(&bad),
        Err(GenerationError::InvalidName { name: "9S".to_string() })
    );
}

#[test]
fn receivers_are_refused() {
    assert_eq!(
        service("", "trait S { fn f(&self); }"),
        Err(GenerationError::ReceiverParameter { method: "f".to_string() })
    );
    let r = function_from_parts(&"f".to_string(), &vec![ArgShape::Receiver], &None);
    assert_eq!(r.unwrap_err(), GenerationError::ReceiverParameter { method: "f".to_string() });
}

#[test]
fn parts_make_a_function() {
    let args = vec![ArgShape::Typed { var_name: "id".to_string(), typ_name: "u64".to_string() }];
    let f = function_from_parts(&"read".to_string(), &args, &None).unwrap();
    assert_eq!(f.name, "read");
    assert_eq!(f.inputs.len(), 1);
    assert_eq!(f.inputs[0].var_name, "id");
    assert_eq!(f.inputs[0].typ_name, "u64");
    assert_eq!(f.output, "()");
    let g = function_from_parts(&"n".to_string(), &vec![], &Some("u8".to_string())).unwrap();
    assert_eq!(g.output, "u8");
}

#[test]
fn non_method_items_are_refused() {
    assert_eq!(
        service("", "trait S { type X; }"),
        Err(GenerationError::UnsupportedItem { item: "type X ;".to_string() })
    );
    assert_eq!(
        service("", "trait S { fn f(); const K: u8; }"),
        Err(GenerationError::UnsupportedItem { item: "const K : u8 ;".to_string() })
    );
}

#[test]
fn non_traits_are_refused() {
    assert_eq!(service("", "struct S;"), Err(GenerationError::NotATrait));
    assert_eq!(service("", "trait S {"), Err(GenerationError::NotATrait));
    assert_eq!(service("remote", "trait S {}"), Err(GenerationError::InvalidArguments));
}

#[test]
fn messages_are_distinct() {
    let all = [
        GenerationError::InvalidArguments,
        GenerationError::NotATrait,
        GenerationError::UnsupportedItem { item: String::new() },
        GenerationError::ReceiverParameter { method: String::new() },
        GenerationError::InvalidName { name: String::new() },
        GenerationError::DuplicateMethod { name: String::new() },
    ];
    for (i, a) in all.iter().enumerate() {
        assert!(!a.message().is_empty());
        for b in all.iter().skip(i + 1) {
            assert_ne!(a.message(), b.message());
        }
    }
}

#[test]
fn envelope_has_one_case_per_method() {
    let code = service("", HELLO_WORLD).unwrap();
    let start = code.find("pub enum HelloWorldRequest {\n").unwrap();
    let body = &code[start..];
    let end = body.find("}\n").unwrap();
    let cases: Vec<&str> = body[..end].lines().skip(1).collect();
    assert_eq!(
        cases,
        vec![
            "    read(u64, norpc::oneshot::Sender<Option < String >>),",
            "    write(u64, String, norpc::oneshot::Sender<()>),",
            "    write_many(HashSet < (u64 , String) >, norpc::oneshot::Sender<()>),",
            "    noop(norpc::oneshot::Sender<()>),",
        ]
    );
}

#[test]
fn hello_world_surface() {
    let code = service("", HELLO_WORLD).unwrap();
    assert!(code.contains("    async fn read(self, id: u64, ) -> Option < String >;\n"));
    assert!(code.contains("    async fn write(self, id: u64, v: String, ) -> ();\n"));
    assert!(code.contains(
        "    pub async fn noop(&mut self, ) -> std::result::Result<(), norpc::Error<Svc::Error>> {\n"
    ));
    assert!(code.contains(
        "                HelloWorldRequest::write(id, v, norpc_reply) => {\n                    let _ = norpc_reply.send(norpc_app.write(id, v, ).await);\n"
    ));
    assert!(code.contains("self.svc.call(HelloWorldRequest::read(id, norpc_reply))"));
    assert!(code.contains("pub struct HelloWorldClient<Svc>"));
    assert!(code.contains("pub struct HelloWorldService<App>"));
}

#[test]
fn zero_argument_method_in_local_mode() {
    let code = service("local", "trait RateLimit { fn noop(); }").unwrap();
    assert!(code.contains("pub enum RateLimitRequest {\n    noop(norpc::oneshot::Sender<()>),\n}\n"));
    assert!(code.starts_with("#[allow(non_camel_case_types)]"));
    assert!(code.contains("#[norpc::async_trait(?Send)]\npub trait RateLimit: Clone {\n"));
}

#[test]
fn empty_service() {
    let code = service("", "trait Nothing {}").unwrap();
    assert!(code.contains("pub enum NothingRequest {\n}\n"));
    assert!(code.contains("            match req {\n            }\n            Ok(())\n"));
}

#[test]
fn reserved_names_are_refused() {
    let named = |n: &str| Err(GenerationError::InvalidName { name: n.to_string() });
    assert_eq!(service("", "trait S { fn new(); }"), named("new"));
    assert_eq!(service("", "trait S { fn f(_: u8); }"), named("f"));
    assert_eq!(service("", "trait S { fn h(self: Box<Self>); }"), named("h"));
    assert_eq!(service("", "trait S { fn f(norpc_app: u8); }"), named("f"));
    assert!(service("", "trait S { fn renew(_x: u8, norpc: u8, norp_c: u8); }").is_ok());
}

fn method(name: &str, args: Vec<ArgShape>, output: Option<&str>) -> ItemShape {
    ItemShape::Method { name: name.to_string(), args, output: output.map(|o| o.to_string()) }
}

fn typed(n: &str, t: &str) -> ArgShape {
    ArgShape::Typed { var_name: n.to_string(), typ_name: t.to_string() }
}

#[test]
fn parse_func_on_shapes() {
    let other = ItemShape::Other { text: "type X ;".to_string() };
    assert_eq!(
        parse_func(&other).unwrap_err(),
        GenerationError::UnsupportedItem { item: "type X ;".to_string() }
    );
    let recv = method("w", vec![typed("a", "u8"), ArgShape::Receiver], None);
    assert_eq!(
        parse_func(&recv).unwrap_err(),
        GenerationError::ReceiverParameter { method: "w".to_string() }
    );
    let f = parse_func(&method("read", vec![typed("id", "u64")], Some("String"))).unwrap();
    assert_eq!(f.name, "read");
    assert_eq!(f.inputs[0].var_name, "id");
    assert_eq!(f.output, "String");
}

#[test]
fn parse_service_on_shapes() {
    let t = TraitShape {
        name: "Kv".to_string(),
        items: vec![method("get", vec![typed("k", "u64")], Some("u8")), method("noop", vec![], None)],
    };
    let s = parse_service(&t).unwrap();
    assert_eq!(s.name, "Kv");
    let names: Vec<&str> = s.functions.iter().map(|f| f.name.as_str()).collect();
    assert_eq!(names, vec!["get", "noop"]);
    assert_eq!(s.functions[1].output, "()");
    let bad = TraitShape {
        name: "Kv".to_string(),
        items: vec![
            method("get", vec![], None),
            ItemShape::Other { text: "type A ;".to_string() },
            method("put", vec![ArgShape::Receiver], None),
        ],
    };
    assert_eq!(
        parse_service(&bad).unwrap_err(),
        GenerationError::UnsupportedItem { item: "type A ;".to_string() }
    );
}

#[test]
fn service_from_shape_matches_service() {
    let t = TraitShape {
        name: "RateLimit".to_string(),
        items: vec![method("noop", vec![], None)],
    };
    let from_text = service("local", "trait RateLimit { fn noop(); }").unwrap();
    assert_eq!(service_from_shape("local", &t).unwrap(), from_text);
    assert_eq!(service_from_shape("x", &t), Err(GenerationError::InvalidArguments));
    let dup = TraitShape {
        name: "D".to_string(),
        items: vec![method("a", vec![], None), method("a", vec![], None)],
    };
    assert_eq!(
        service_from_shape("", &dup),
        Err(GenerationError::DuplicateMethod { name: "a".to_string() })
    );
}

#[test]
fn non_ascii_identifiers() {
    assert!(check_ident(&"größe".to_string()));
    let code = service("", "trait Maß { fn größe(wert: u8) -> u8; }").unwrap();
    assert!(code.contains("pub enum MaßRequest {\n    größe(u8, norpc::oneshot::Sender<u8>),\n}\n"));
}
