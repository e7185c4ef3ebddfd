//! The interface description that the generator consumes.
use vstd::prelude::*;

verus! {

/// One parameter of a method: its binding name and the text of its type.
#[derive(Debug, Clone)]
pub struct Parameter {
    pub var_name: String,
    pub typ_name: String,
}

/// One method of an interface.
#[derive(Debug, Clone)]
pub struct Function {
    pub name: String,
    pub inputs: Vec<Parameter>,
    pub output: String,
}

/// An interface: its name and its methods, in declaration order.
#[derive(Debug, Clone)]
pub struct Service {
    pub name: String,
    pub functions: Vec<Function>,
}

/// Why no code could be generated for an interface.
#[derive(Debug, Clone, PartialEq, Eq)]
pub enum GenerationError {
    /// The attribute arguments are neither empty nor the word `local`.
    InvalidArguments,
    /// The item text is not a trait declaration.
    NotATrait,
    /// The trait holds something other than a method; `item` is its text.
    UnsupportedItem { item: String },
    /// A method takes a `self` receiver, which the envelope cannot carry.
    ReceiverParameter { method: String },
    /// The service, or the method `name`, has a name (of its own or of a
    /// parameter) that the generated code cannot use.
    InvalidName { name: String },
    /// Two methods are called `name`.
    DuplicateMethod { name: String },
}

/// The diagnostic that goes with an error.
pub open spec fn message_of(e: GenerationError) -> Seq<char> {
    match e {
        GenerationError::InvalidArguments => "expected no arguments or `local`"@,
        GenerationError::NotATrait => "expected a trait declaration"@,
        GenerationError::UnsupportedItem { .. } => "a service trait may only hold methods"@,
        GenerationError::ReceiverParameter { .. } => "service methods take no `self` parameter"@,
        GenerationError::InvalidName { .. } => "names must be plain identifiers"@,
        GenerationError::DuplicateMethod { .. } => "two methods share a name"@,
    }
}

impl GenerationError {
    /// A one-line diagnostic for this error.
    pub fn message(&self) -> (r: &'static str)
        ensures
            r@ == message_of(*self),
    {
        match self {
            GenerationError::InvalidArguments => "expected no arguments or `local`",
            GenerationError::NotATrait => "expected a trait declaration",
            GenerationError::UnsupportedItem { .. } => "a service trait may only hold methods",
            GenerationError::ReceiverParameter { .. } => "service methods take no `self` parameter",
            GenerationError::InvalidName { .. } => "names must be plain identifiers",
            GenerationError::DuplicateMethod { .. } => "two methods share a name",
        }
    }
}

/// A parameter as the contracts see it.
pub struct ParameterSpec {
    pub var_name: Seq<char>,
    pub typ_name: Seq<char>,
}

/// A method as the contracts see it.
pub struct FunctionSpec {
    pub name: Seq<char>,
    pub inputs: Seq<ParameterSpec>,
    pub output: Seq<char>,
}

/// An interface as the contracts see it.
pub struct ServiceSpec {
    pub name: Seq<char>,
    pub functions: Seq<FunctionSpec>,
}

impl View for Parameter {
    type V = ParameterSpec;

    open spec fn view(&self) -> ParameterSpec {
        ParameterSpec { var_name: self.var_name@, typ_name: self.typ_name@ }
    }
}

impl View for Function {
    type V = FunctionSpec;

    open spec fn view(&self) -> FunctionSpec {
        FunctionSpec {
            name: self.name@,
            inputs: self.inputs@.map_values(|p: Parameter| p@),
            output: self.output@,
        }
    }
}

impl View for Service {
    type V = ServiceSpec;

    open spec fn view(&self) -> ServiceSpec {
        ServiceSpec { name: self.name@, functions: self.functions@.map_values(|f: Function| f@) }
    }
}

/// ASCII letters and `_`; characters beyond ASCII are left to the parser
/// that produced the name, which admits only Unicode identifier characters.
pub open spec fn is_ident_start(c: char) -> bool {
    ('a' <= c && c <= 'z') || ('A' <= c && c <= 'Z') || c == '_' || '\u{80}' <= c
}

pub open spec fn is_ident_char(c: char) -> bool {
    is_ident_start(c) || ('0' <= c && c <= '9')
}

/// An identifier: a letter or `_`, then letters, digits or `_`.
pub open spec fn is_ident(s: Seq<char>) -> bool {
    &&& s.len() > 0
    &&& is_ident_start(s[0])
    &&& forall|i: int| 0 <= i < s.len() ==> #[trigger] is_ident_char(s[i])
}

/// Names that start with `norpc_` are kept for the bindings of the
/// generated code (the reply slot's ends and the implementation).
pub open spec fn is_reserved(s: Seq<char>) -> bool {
    s.len() >= 6 && s.subrange(0, 6) == "norpc_"@
}

/// A parameter name that can be both bound and passed on: `_` binds
/// nothing, `self` is taken by the receiver, and reserved names would clash
/// with the generated code's own bindings.
pub open spec fn is_binding(s: Seq<char>) -> bool {
    is_ident(s) && s != "_"@ && s != "self"@ && !is_reserved(s)
}

/// Every name that the generated code uses as an identifier is one; `new`
/// is left to the constructors of the client and the server.
pub open spec fn names_ok(f: FunctionSpec) -> bool {
    &&& is_ident(f.name)
    &&& f.name != "new"@
    &&& forall|k: int| 0 <= k < f.inputs.len() ==> #[trigger] is_binding(f.inputs[k].var_name)
}

/// No two methods share a name.
pub open spec fn names_unique(fs: Seq<FunctionSpec>) -> bool {
    forall|i: int, j: int|
        0 <= i < fs.len() && 0 <= j < fs.len() && i != j ==> #[trigger] fs[i].name != #[trigger] fs[j].name
}

/// An interface from which code can be generated.
pub open spec fn service_ok(s: ServiceSpec) -> bool {
    &&& is_ident(s.name)
    &&& forall|i: int| 0 <= i < s.functions.len() ==> #[trigger] names_ok(s.functions[i])
    &&& names_unique(s.functions)
}

/// Whether `e` is the error owed for an interface that is not `service_ok`:
/// a bad service name is named first; else a method whose own name or
/// parameter names are bad is named; only when all names are good is a
/// method name that occurs twice named.
pub open spec fn error_fits(s: ServiceSpec, e: GenerationError) -> bool {
    match e {
        GenerationError::InvalidName { name } => if !is_ident(s.name) {
            name@ == s.name
        } else {
            exists|i: int|
                0 <= i < s.functions.len() && !#[trigger] names_ok(s.functions[i]) && name@
                    == s.functions[i].name
        },
        GenerationError::DuplicateMethod { name } => {
            &&& is_ident(s.name)
            &&& forall|i: int| 0 <= i < s.functions.len() ==> #[trigger] names_ok(s.functions[i])
            &&& exists|i: int, j: int|
                0 <= i < s.functions.len() && 0 <= j < s.functions.len() && i != j
                    && #[trigger] s.functions[i].name == name@ && #[trigger] s.functions[j].name
                    == name@
        },
        _ => false,
    }
}

/// Tests one character against `is_ident_char`.
pub fn ident_char(c: char) -> (r: bool)
    ensures
        r == is_ident_char(c),
{
    ('a' <= c && c <= 'z') || ('A' <= c && c <= 'Z') || c == '_' || '\u{80}' <= c || ('0' <= c
        && c <= '9')
}

/// Tests a name against `is_ident`.
pub fn check_ident(s: &String) -> (r: bool)
    ensures
        r == is_ident(s@),
{
    let n = s.as_str().unicode_len();
    if n == 0 {
        return false;
    }
    let c0 = s.as_str().get_char(0);
    if !(('a' <= c0 && c0 <= 'z') || ('A' <= c0 && c0 <= 'Z') || c0 == '_' || '\u{80}' <= c0) {
        return false;
    }
    let mut i: usize = 0;
    while i < n
        invariant
            n == s@.len(),
            i <= n,
            forall|k: int| 0 <= k < i ==> #[trigger] is_ident_char(s@[k]),
        decreases n - i,
    {
        let c = s.as_str().get_char(i);
        if !ident_char(c) {
            return false;
        }
        i = i + 1;
    }
    true
}

/// Tests a name against `is_reserved`.
pub fn check_reserved(s: &String) -> (r: bool)
    ensures
        r == is_reserved(s@),
{
    proof {
        reveal_strlit("norpc_");
    }
    let t = s.as_str();
    if t.unicode_len() < 6 {
        return false;
    }
    let r = t.get_char(0) == 'n' && t.get_char(1) == 'o' && t.get_char(2) == 'r' && t.get_char(3)
        == 'p' && t.get_char(4) == 'c' && t.get_char(5) == '_';
    proof {
        if r {
            assert(s@.subrange(0, 6) =~= "norpc_"@);
        } else if s@.subrange(0, 6) == "norpc_"@ {
            assert(s@.subrange(0, 6)[0] == 'n' && s@.subrange(0, 6)[1] == 'o' && s@.subrange(0, 6)[2]
                == 'r' && s@.subrange(0, 6)[3] == 'p' && s@.subrange(0, 6)[4] == 'c' && s@.subrange(
                0,
                6,
            )[5] == '_');
        }
    }
    r
}

/// Tests a parameter name against `is_binding`.
pub fn check_binding(s: &String) -> (r: bool)
    ensures
        r == is_binding(s@),
{
    check_ident(s) && *s != "_".to_owned() && *s != "self".to_owned() && !check_reserved(s)
}

} // verus!
