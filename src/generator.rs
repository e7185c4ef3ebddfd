//! Code generation: from a checked interface to the text of the request
//! envelope, the service trait, the client stub and the server dispatcher.
use vstd::prelude::*;
use crate::check::check_service;
use crate::model::{
    error_fits, service_ok, Function, FunctionSpec, GenerationError, Parameter, ParameterSpec, Service,
    ServiceSpec,
};

verus! {

/// How a parameter list is written out.
#[derive(Debug, Clone, Copy, PartialEq, Eq)]
pub enum ParamStyle {
    /// `T, ` : the fields of an envelope case.
    Types,
    /// `x: T, ` : a method's parameter list.
    Typed,
    /// `x, ` : a pattern or an argument list.
    Names,
}

/// Which per-method piece of the generated code is written.
#[derive(Debug, Clone, Copy, PartialEq, Eq)]
pub enum Section {
    RequestCase,
    TraitMethod,
    ClientMethod,
    DispatchArm,
}

/// The parts, one after the other.
pub open spec fn cat_all(parts: Seq<Seq<char>>) -> Seq<char>
    decreases parts.len(),
{
    if parts.len() == 0 {
        Seq::empty()
    } else {
        cat_all(parts.drop_last()) + parts.last()
    }
}

pub open spec fn param_frag(p: ParameterSpec, style: ParamStyle) -> Seq<char> {
    match style {
        ParamStyle::Types => p.typ_name + ", "@,
        ParamStyle::Typed => p.var_name + ": "@ + p.typ_name + ", "@,
        ParamStyle::Names => p.var_name + ", "@,
    }
}

pub open spec fn params_text(ps: Seq<ParameterSpec>, style: ParamStyle) -> Seq<char> {
    cat_all(ps.map_values(|p: ParameterSpec| param_frag(p, style)))
}

/// The envelope case of one method: its name, then the types of its
/// arguments, then the write end of the reply slot for its result.
pub open spec fn request_case(f: FunctionSpec) -> Seq<char> {
    "    "@ + f.name + "("@ + params_text(f.inputs, ParamStyle::Types) + "norpc::oneshot::Sender<"@
        + f.output + ">),\n"@
}

pub open spec fn client_method(s: Seq<char>, f: FunctionSpec) -> Seq<char> {
    "    pub async fn "@ + f.name + "(&mut self, "@ + params_text(f.inputs, ParamStyle::Typed)
        + ") -> std::result::Result<"@ + f.output
        + ", norpc::Error<Svc::Error>> {\n        let (norpc_reply, norpc_slot) = norpc::oneshot::channel();\n        norpc::poll_fn(|cx| self.svc.poll_ready(cx)).await.map_err(norpc::Error::Service)?;\n        self.svc.call("@
        + s + "Request::"@ + f.name + "("@ + params_text(f.inputs, ParamStyle::Names)
        + "norpc_reply)).await.map_err(norpc::Error::Service)?;\n        norpc_slot.await.map_err(|_| norpc::Error::Disconnected)\n    }\n"@
}

pub open spec fn dispatch_arm(s: Seq<char>, f: FunctionSpec) -> Seq<char> {
    "                "@ + s + "Request::"@ + f.name + "("@ + params_text(f.inputs, ParamStyle::Names)
        + "norpc_reply) => {\n                    let _ = norpc_reply.send(norpc_app."@ + f.name + "("@
        + params_text(f.inputs, ParamStyle::Names) + ").await);\n                }\n"@
}

/// The piece that `sec` asks for, of method `f` of the service named `s`.
pub open spec fn method_frag(s: Seq<char>, f: FunctionSpec, sec: Section) -> Seq<char> {
    match sec {
        Section::RequestCase => request_case(f),
        Section::TraitMethod => "    async fn "@ + f.name + "(self, "@ + params_text(
            f.inputs,
            ParamStyle::Typed,
        ) + ") -> "@ + f.output + ";\n"@,
        Section::ClientMethod => client_method(s, f),
        Section::DispatchArm => dispatch_arm(s, f),
    }
}

pub open spec fn section_parts(svc: ServiceSpec, sec: Section) -> Seq<Seq<char>> {
    svc.functions.map_values(|f: FunctionSpec| method_frag(svc.name, f, sec))
}

pub open spec fn section_text(svc: ServiceSpec, sec: Section) -> Seq<char> {
    cat_all(section_parts(svc, sec))
}

/// The cases of the request envelope, one per method, in declaration order.
pub open spec fn envelope_cases(svc: ServiceSpec) -> Seq<Seq<char>> {
    section_parts(svc, Section::RequestCase)
}

pub open spec fn request_enum(svc: ServiceSpec) -> Seq<char> {
    "#[allow(non_camel_case_types)]\n#[derive(Debug)]\npub enum "@ + svc.name + "Request {\n"@
        + cat_all(envelope_cases(svc)) + "}\n"@
}

/// A single-context service drops the requirement that values cross threads.
pub open spec fn send_bound(local: bool) -> Seq<char> {
    if local {
        ""@
    } else {
        " + Send"@
    }
}

pub open spec fn async_attr(local: bool) -> Seq<char> {
    if local {
        "#[norpc::async_trait(?Send)]\n"@
    } else {
        "#[norpc::async_trait]\n"@
    }
}

pub open spec fn trait_decl(svc: ServiceSpec, local: bool) -> Seq<char> {
    async_attr(local) + "pub trait "@ + svc.name + ": Clone {\n"@ + section_text(
        svc,
        Section::TraitMethod,
    ) + "}\n"@
}

pub open spec fn client_stub(svc: ServiceSpec) -> Seq<char> {
    "#[derive(Clone)]\npub struct "@ + svc.name
        + "Client<Svc> {\n    svc: Svc,\n}\nimpl<Svc: norpc::tower::Service<"@ + svc.name
        + "Request, Response = ()>> "@ + svc.name
        + "Client<Svc> {\n    pub fn new(svc: Svc) -> Self {\n        Self { svc }\n    }\n"@
        + section_text(svc, Section::ClientMethod) + "}\n"@
}

pub open spec fn server_head(svc: ServiceSpec, local: bool) -> Seq<char> {
    "#[derive(Clone)]\npub struct "@ + svc.name + "Service<App> {\n    app: App,\n}\nimpl<App: "@
        + svc.name + "> "@ + svc.name
        + "Service<App> {\n    pub fn new(app: App) -> Self {\n        Self { app }\n    }\n}\nimpl<App: "@
        + svc.name + " + 'static"@ + send_bound(local) + "> norpc::tower::Service<"@ + svc.name
        + "Request> for "@ + svc.name
        + "Service<App> {\n    type Response = ();\n    type Error = ();\n    type Future = std::pin::Pin<Box<dyn std::future::Future<Output = std::result::Result<(), ()>>"@
        + send_bound(local) + ">>;\n"@
}

pub open spec fn server_dispatcher(svc: ServiceSpec, local: bool) -> Seq<char> {
    server_head(svc, local)
        + "    fn poll_ready(&mut self, _: &mut std::task::Context<'_>) -> std::task::Poll<std::result::Result<(), ()>> {\n        std::task::Poll::Ready(Ok(()))\n    }\n    fn call(&mut self, req: "@
        + svc.name
        + "Request) -> Self::Future {\n        let norpc_app = self.app.clone();\n        Box::pin(async move {\n            match req {\n"@
        + section_text(svc, Section::DispatchArm) + "            }\n            Ok(())\n        })\n    }\n}\n"@
}

/// All the code generated for a service.
pub open spec fn generated(svc: ServiceSpec, local: bool) -> Seq<char> {
    request_enum(svc) + trait_decl(svc, local) + client_stub(svc)
        + server_dispatcher(svc, local)
}


/// Writes a parameter list in the given style.
pub fn write_params(ps: &Vec<Parameter>, style: ParamStyle) -> (r: String)
    ensures
        r@ == params_text(ps@.map_values(|p: Parameter| p@), style),
{
    let ghost v = ps@.map_values(|p: Parameter| p@);
    let ghost parts = v.map_values(|p: ParameterSpec| param_frag(p, style));
    let mut r = String::new();
    let mut i: usize = 0;
    while i < ps.len()
        invariant
            i <= ps@.len(),
            v == ps@.map_values(|p: Parameter| p@),
            parts == v.map_values(|p: ParameterSpec| param_frag(p, style)),
            r@ == cat_all(parts.take(i as int)),
        decreases ps@.len() - i,
    {
        let p = &ps[i];
        match style {
            ParamStyle::Types => {
                r.append(p.typ_name.as_str());
                r.append(", ");
            },
            ParamStyle::Typed => {
                r.append(p.var_name.as_str());
                r.append(": ");
                r.append(p.typ_name.as_str());
                r.append(", ");
            },
            ParamStyle::Names => {
                r.append(p.var_name.as_str());
                r.append(", ");
            },
        }
        proof {
            assert(parts.take(i + 1).drop_last() =~= parts.take(i as int));
        }
        i = i + 1;
    }
    assert(parts.take(ps@.len() as int) =~= parts);
    r
}

/// Writes the piece `sec` of method `f` of the service named `s`.
pub fn write_method(s: &String, f: &Function, sec: Section) -> (r: String)
    ensures
        r@ == method_frag(s@, f@, sec),
{
    match sec {
        Section::RequestCase => {
            let mut r = "    ".to_owned();
            r.append(f.name.as_str());
            r.append("(");
            r.append(write_params(&f.inputs, ParamStyle::Types).as_str());
            r.append("norpc::oneshot::Sender<");
            r.append(f.output.as_str());
            r.append(">),\n");
            r
        },
        Section::TraitMethod => {
            let mut r = "    async fn ".to_owned();
            r.append(f.name.as_str());
            r.append("(self, ");
            r.append(write_params(&f.inputs, ParamStyle::Typed).as_str());
            r.append(") -> ");
            r.append(f.output.as_str());
            r.append(";\n");
            r
        },
        Section::ClientMethod => {
            let names = write_params(&f.inputs, ParamStyle::Names);
            let mut r = "    pub async fn ".to_owned();
            r.append(f.name.as_str());
            r.append("(&mut self, ");
            r.append(write_params(&f.inputs, ParamStyle::Typed).as_str());
            r.append(") -> std::result::Result<");
            r.append(f.output.as_str());
            r.append(
                ", norpc::Error<Svc::Error>> {\n        let (norpc_reply, norpc_slot) = norpc::oneshot::channel();\n        norpc::poll_fn(|cx| self.svc.poll_ready(cx)).await.map_err(norpc::Error::Service)?;\n        self.svc.call(",
            );
            r.append(s.as_str());
            r.append("Request::");
            r.append(f.name.as_str());
            r.append("(");
            r.append(names.as_str());
            r.append(
                "norpc_reply)).await.map_err(norpc::Error::Service)?;\n        norpc_slot.await.map_err(|_| norpc::Error::Disconnected)\n    }\n",
            );
            r
        },
        Section::DispatchArm => {
            let names = write_params(&f.inputs, ParamStyle::Names);
            let mut r = "                ".to_owned();
            r.append(s.as_str());
            r.append("Request::");
            r.append(f.name.as_str());
            r.append("(");
            r.append(names.as_str());
            r.append("norpc_reply) => {\n                    let _ = norpc_reply.send(norpc_app.");
            r.append(f.name.as_str());
            r.append("(");
            r.append(names.as_str());
            r.append(").await);\n                }\n");
            r
        },
    }
}

/// Writes the piece `sec` of every method, in declaration order.
pub fn write_section(svc: &Service, sec: Section) -> (r: String)
    ensures
        r@ == section_text(svc@, sec),
{
    let ghost parts = section_parts(svc@, sec);
    let mut r = String::new();
    let mut i: usize = 0;
    while i < svc.functions.len()
        invariant
            i <= svc.functions@.len(),
            parts == section_parts(svc@, sec),
            r@ == cat_all(parts.take(i as int)),
        decreases svc.functions@.len() - i,
    {
        let piece = write_method(&svc.name, &svc.functions[i], sec);
        r.append(piece.as_str());
        proof {
            assert(parts.take(i + 1).drop_last() =~= parts.take(i as int));
        }
        i = i + 1;
    }
    assert(parts.take(svc.functions@.len() as int) =~= parts);
    r
}


fn write_request_enum(svc: &Service) -> (r: String)
    ensures
        r@ == request_enum(svc@),
{
    let mut r = "#[allow(non_camel_case_types)]\n#[derive(Debug)]\npub enum ".to_owned();
    r.append(svc.name.as_str());
    r.append("Request {\n");
    r.append(write_section(svc, Section::RequestCase).as_str());
    r.append("}\n");
    r
}

fn write_trait_decl(svc: &Service, local: bool) -> (r: String)
    ensures
        r@ == trait_decl(svc@, local),
{
    let mut r = if local {
        "#[norpc::async_trait(?Send)]\n".to_owned()
    } else {
        "#[norpc::async_trait]\n".to_owned()
    };
    r.append("pub trait ");
    r.append(svc.name.as_str());
    r.append(": Clone {\n");
    r.append(write_section(svc, Section::TraitMethod).as_str());
    r.append("}\n");
    r
}

fn write_client_stub(svc: &Service) -> (r: String)
    ensures
        r@ == client_stub(svc@),
{
    let n = svc.name.as_str();
    let mut r = "#[derive(Clone)]\npub struct ".to_owned();
    r.append(n);
    r.append("Client<Svc> {\n    svc: Svc,\n}\nimpl<Svc: norpc::tower::Service<");
    r.append(n);
    r.append("Request, Response = ()>> ");
    r.append(n);
    r.append("Client<Svc> {\n    pub fn new(svc: Svc) -> Self {\n        Self { svc }\n    }\n");
    r.append(write_section(svc, Section::ClientMethod).as_str());
    r.append("}\n");
    r
}

fn write_server_dispatcher(svc: &Service, local: bool) -> (r: String)
    ensures
        r@ == server_dispatcher(svc@, local),
{
    let n = svc.name.as_str();
    let bound = if local {
        ""
    } else {
        " + Send"
    };
    let mut r = "#[derive(Clone)]\npub struct ".to_owned();
    r.append(n);
    r.append("Service<App> {\n    app: App,\n}\nimpl<App: ");
    r.append(n);
    r.append("> ");
    r.append(n);
    r.append(
        "Service<App> {\n    pub fn new(app: App) -> Self {\n        Self { app }\n    }\n}\nimpl<App: ",
    );
    r.append(n);
    r.append(" + 'static");
    r.append(bound);
    r.append("> norpc::tower::Service<");
    r.append(n);
    r.append("Request> for ");
    r.append(n);
    r.append(
        "Service<App> {\n    type Response = ();\n    type Error = ();\n    type Future = std::pin::Pin<Box<dyn std::future::Future<Output = std::result::Result<(), ()>>",
    );
    r.append(bound);
    r.append(">>;\n");
    assert(r@ == server_head(svc@, local));
    r.append(
        "    fn poll_ready(&mut self, _: &mut std::task::Context<'_>) -> std::task::Poll<std::result::Result<(), ()>> {\n        std::task::Poll::Ready(Ok(()))\n    }\n    fn call(&mut self, req: ",
    );
    r.append(n);
    r.append(
        "Request) -> Self::Future {\n        let norpc_app = self.app.clone();\n        Box::pin(async move {\n            match req {\n",
    );
    r.append(write_section(svc, Section::DispatchArm).as_str());
    r.append("            }\n            Ok(())\n        })\n    }\n}\n");
    r
}

/// Generates the code of a service: with `no_send` set, for a single
/// execution context; otherwise values must be safe to move across threads.
pub struct Generator {
    pub no_send: bool,
}

impl Generator {
    /// Checks the interface and writes its code; a malformed interface is
    /// refused with the first error that `check_service` finds.
    pub fn generate(&self, svc: &Service) -> (r: Result<String, GenerationError>)
        ensures
            r is Ok <==> service_ok(svc@),
            r matches Err(e) ==> error_fits(svc@, e),
            r matches Ok(code) ==> code@ == generated(svc@, self.no_send),
    {
        match check_service(svc) {
            Err(e) => Err(e),
            Ok(()) => {
                let mut code = write_request_enum(svc);
                code.append(write_trait_decl(svc, self.no_send).as_str());
                code.append(write_client_stub(svc).as_str());
                code.append(write_server_dispatcher(svc, self.no_send).as_str());
                Ok(code)
            },
        }
    }
}


/// The request envelope has one case per method, no more and no fewer: case
/// `i` is written for method `i`, its name is that method's name followed by
/// `(`, and since method names are distinct, so are the case names.
pub proof fn lemma_envelope_one_case_per_method(svc: ServiceSpec)
    requires
        service_ok(svc),
    ensures
        envelope_cases(svc).len() == svc.functions.len(),
        forall|i: int|
            0 <= i < svc.functions.len() ==> {
                let c = #[trigger] envelope_cases(svc)[i];
                let n = svc.functions[i].name;
                &&& c == request_case(svc.functions[i])
                &&& c.subrange(4, 4 + n.len() as int) == n
                &&& c[4 + n.len() as int] == '('
            },
        forall|i: int, j: int|
            0 <= i < svc.functions.len() && 0 <= j < svc.functions.len() && i != j
                ==> #[trigger] svc.functions[i].name != #[trigger] svc.functions[j].name,
{
    reveal_strlit("    ");
    reveal_strlit("(");
    assert forall|i: int| 0 <= i < svc.functions.len() implies {
        let c = #[trigger] envelope_cases(svc)[i];
        let n = svc.functions[i].name;
        &&& c == request_case(svc.functions[i])
        &&& c.subrange(4, 4 + n.len() as int) == n
        &&& c[4 + n.len() as int] == '('
    } by {
        let f = svc.functions[i];
        let c = envelope_cases(svc)[i];
        let head = "    "@ + f.name + "("@;
        assert(c == head + params_text(f.inputs, ParamStyle::Types) + "norpc::oneshot::Sender<"@
            + f.output + ">),\n"@);
        assert(c.subrange(4, 4 + f.name.len() as int) =~= f.name);
    }
}

} // verus!
