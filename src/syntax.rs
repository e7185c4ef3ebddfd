//! Reading an interface out of a trait declaration. syn parses the text; the
//! rules on what a trait may hold are checked here.
use vstd::prelude::*;
use quote::ToTokens;
use crate::model::{
    Function, FunctionSpec, GenerationError, Parameter, ParameterSpec, Service, ServiceSpec,
};

verus! {

#[verifier::external_type_specification]
#[verifier::external_body]
pub struct ExItemTrait(syn::ItemTrait);

#[verifier::external_type_specification]
#[verifier::external_body]
pub struct ExTraitItem(syn::TraitItem);

#[verifier::external_type_specification]
#[verifier::external_body]
pub struct ExSignature(syn::Signature);

#[verifier::external_type_specification]
#[verifier::external_body]
pub struct ExFnArg(syn::FnArg);

#[verifier::external_type_specification]
#[verifier::external_body]
pub struct ExSynError(syn::Error);

/// One parameter of a method signature, as far as the generator cares.
#[derive(Debug, Clone)]
pub enum ArgShape {
    /// `self`, `&self`, `&mut self` and the like.
    Receiver,
    /// `pattern: Type`, both written out as token text.
    Typed { var_name: String, typ_name: String },
}

/// Relies on syn::parse_str::<ItemTrait>: parses the whole text as one trait
/// declaration. Whether it succeeds can depend on the compiler that hosts
/// the expansion, so nothing is promised of the outcome.
#[verifier::external_body]
pub(crate) fn parse_item_trait(src: &str) -> Result<syn::ItemTrait, syn::Error> {
    syn::parse_str::<syn::ItemTrait>(src)
}

/// Relies on proc_macro2's Display for Ident: the trait's name as text.
#[verifier::external_body]
fn trait_name(t: &syn::ItemTrait) -> String {
    t.ident.to_string()
}

/// Relies on Clone of syn::TraitItem: the items of the trait, in order.
#[verifier::external_body]
fn trait_items(t: &syn::ItemTrait) -> Vec<syn::TraitItem> {
    t.items.clone()
}

/// Relies on Clone of syn::Signature: the signature of an item that is a
/// method, `None` for any other kind of item.
#[verifier::external_body]
fn method_signature(f: &syn::TraitItem) -> Option<syn::Signature> {
    match f {
        syn::TraitItem::Method(m) => Some(m.sig.clone()),
        _ => None,
    }
}

/// Relies on proc_macro2's Display for Ident: the method's name as text.
#[verifier::external_body]
fn signature_name(sig: &syn::Signature) -> String {
    sig.ident.to_string()
}

/// Relies on Clone of syn::FnArg: the parameters of a signature, in order.
#[verifier::external_body]
fn signature_inputs(sig: &syn::Signature) -> Vec<syn::FnArg> {
    sig.inputs.iter().cloned().collect()
}

/// Relies on quote's ToTokens::to_token_stream and its Display: an item's
/// text, to point at an item that is not a method.
#[verifier::external_body]
fn item_text(f: &syn::TraitItem) -> String {
    f.to_token_stream().to_string()
}

/// Relies on quote's ToTokens::to_token_stream and its Display: a typed
/// parameter's pattern and type as token text.
#[verifier::external_body]
fn arg_shape(a: &syn::FnArg) -> ArgShape {
    match a {
        syn::FnArg::Typed(p) => ArgShape::Typed {
            var_name: p.pat.to_token_stream().to_string(),
            typ_name: p.ty.to_token_stream().to_string(),
        },
        syn::FnArg::Receiver(_) => ArgShape::Receiver,
    }
}

/// Relies on quote's ToTokens::to_token_stream and its Display: the declared
/// result type as token text, `None` where the signature declares none.
#[verifier::external_body]
fn signature_output(sig: &syn::Signature) -> Option<String> {
    match &sig.output {
        syn::ReturnType::Type(_, x) => Some(x.to_token_stream().to_string()),
        syn::ReturnType::Default => None,
    }
}

/// A trait item as the generator sees it.
#[derive(Debug, Clone)]
pub enum ItemShape {
    /// A method: its name, its parameters and its declared result, if any.
    Method { name: String, args: Vec<ArgShape>, output: Option<String> },
    /// Any other item, kept as its text.
    Other { text: String },
}

/// A trait declaration as the generator sees it: its name and its items,
/// in order.
#[derive(Debug, Clone)]
pub struct TraitShape {
    pub name: String,
    pub items: Vec<ItemShape>,
}

/// Fills an item's shape from syn's tree.
fn read_item(f: &syn::TraitItem) -> ItemShape {
    match method_signature(f) {
        None => ItemShape::Other { text: item_text(f) },
        Some(sig) => {
            let inputs = signature_inputs(&sig);
            let mut args: Vec<ArgShape> = Vec::new();
            let mut k: usize = 0;
            while k < inputs.len()
                invariant
                    k <= inputs@.len(),
                decreases inputs@.len() - k,
            {
                args.push(arg_shape(&inputs[k]));
                k = k + 1;
            }
            ItemShape::Method { name: signature_name(&sig), args, output: signature_output(&sig) }
        },
    }
}

/// Fills a trait's shape from syn's tree: its name and every item, in order.
pub(crate) fn read_trait(t: &syn::ItemTrait) -> TraitShape {
    let items = trait_items(t);
    let mut shapes: Vec<ItemShape> = Vec::new();
    let mut k: usize = 0;
    while k < items.len()
        invariant
            k <= items@.len(),
        decreases items@.len() - k,
    {
        shapes.push(read_item(&items[k]));
        k = k + 1;
    }
    TraitShape { name: trait_name(t), items: shapes }
}

/// The parameter that a typed argument stands for.
pub open spec fn param_of(a: ArgShape) -> ParameterSpec {
    match a {
        ArgShape::Typed { var_name, typ_name } => ParameterSpec {
            var_name: var_name@,
            typ_name: typ_name@,
        },
        ArgShape::Receiver => ParameterSpec { var_name: Seq::empty(), typ_name: Seq::empty() },
    }
}

/// The result type of a method: the declared one, or `()` where none is.
pub open spec fn output_of(output: Option<String>) -> Seq<char> {
    match output {
        Some(o) => o@,
        None => "()"@,
    }
}

pub open spec fn has_receiver(args: Seq<ArgShape>) -> bool {
    exists|k: int| 0 <= k < args.len() && #[trigger] args[k] is Receiver
}

/// Why a trait item cannot become a method of the interface.
pub enum ItemFault {
    /// Not a method; the item's text.
    NotAMethod(Seq<char>),
    /// A method with a receiver; the method's name.
    Receiver(Seq<char>),
}

/// `e` is the error that reports `f`, and names what `f` names.
pub open spec fn fault_is(e: GenerationError, f: ItemFault) -> bool {
    match f {
        ItemFault::NotAMethod(t) => match e {
            GenerationError::UnsupportedItem { item } => item@ == t,
            _ => false,
        },
        ItemFault::Receiver(n) => match e {
            GenerationError::ReceiverParameter { method } => method@ == n,
            _ => false,
        },
    }
}

/// The method that an item stands for, or why there is none.
pub open spec fn function_of(item: ItemShape) -> Result<FunctionSpec, ItemFault> {
    match item {
        ItemShape::Other { text } => Err(ItemFault::NotAMethod(text@)),
        ItemShape::Method { name, args, output } => if has_receiver(args@) {
            Err(ItemFault::Receiver(name@))
        } else {
            Ok(
                FunctionSpec {
                    name: name@,
                    inputs: args@.map_values(|a: ArgShape| param_of(a)),
                    output: output_of(output),
                },
            )
        },
    }
}

/// The methods of a list of items, in order, or the fault of the first item
/// that has one.
pub open spec fn items_result(items: Seq<ItemShape>) -> Result<Seq<FunctionSpec>, ItemFault>
    decreases items.len(),
{
    if items.len() == 0 {
        Ok(Seq::empty())
    } else {
        match items_result(items.drop_last()) {
            Err(f) => Err(f),
            Ok(fs) => match function_of(items.last()) {
                Err(f) => Err(f),
                Ok(f) => Ok(fs.push(f)),
            },
        }
    }
}

/// The interface that a trait stands for, or the first fault among its items.
pub open spec fn service_of(t: TraitShape) -> Result<ServiceSpec, ItemFault> {
    match items_result(t.items@) {
        Err(f) => Err(f),
        Ok(fs) => Ok(ServiceSpec { name: t.name@, functions: fs }),
    }
}

/// The items give methods exactly when each one does, and then one method
/// per item, in order.
pub proof fn lemma_items_result(items: Seq<ItemShape>)
    ensures
        items_result(items) is Ok <==> forall|i: int|
            0 <= i < items.len() ==> #[trigger] function_of(items[i]) is Ok,
        items_result(items) matches Ok(fs) ==> fs.len() == items.len() && forall|i: int|
            0 <= i < items.len() ==> Ok::<FunctionSpec, ItemFault>(#[trigger] fs[i])
                == function_of(items[i]),
    decreases items.len(),
{
    if items.len() > 0 {
        let d = items.drop_last();
        let n = items.len() - 1;
        lemma_items_result(d);
        assert forall|i: int| 0 <= i < d.len() implies #[trigger] d[i] == items[i] by {}
        assert(items.last() == items[n]);
        if items_result(items) is Ok {
            assert forall|i: int| 0 <= i < items.len() implies #[trigger] function_of(
                items[i],
            ) is Ok by {
                if i < n {
                    assert(function_of(d[i]) is Ok);
                }
            }
        } else if items_result(d) is Err {
            let i = choose|i: int| 0 <= i < d.len() && !(#[trigger] function_of(d[i]) is Ok);
            assert(!(function_of(items[i]) is Ok));
        } else {
            assert(!(function_of(items[n]) is Ok));
        }
    }
}

/// A fault in a prefix of the items is the fault of them all.
pub proof fn lemma_prefix_fault(items: Seq<ItemShape>, k: int)
    requires
        0 <= k <= items.len(),
        items_result(items.take(k)) is Err,
    ensures
        items_result(items) == items_result(items.take(k)),
    decreases items.len(),
{
    if k == items.len() {
        assert(items.take(k) =~= items);
    } else {
        let d = items.drop_last();
        assert(d.take(k) =~= items.take(k));
        lemma_prefix_fault(d, k);
    }
}

/// Builds a method from its name, parameters and declared result. A
/// receiver cannot travel in an envelope, so it is refused.
pub fn function_from_parts(name: &String, args: &Vec<ArgShape>, output: &Option<String>) -> (r:
    Result<Function, GenerationError>)
    ensures
        r is Err <==> has_receiver(args@),
        r matches Err(e) ==> fault_is(e, ItemFault::Receiver(name@)),
        r matches Ok(f) ==> {
            &&& f@.name == name@
            &&& f@.inputs == args@.map_values(|a: ArgShape| param_of(a))
            &&& f@.output == output_of(*output)
        },
{
    let ghost shapes = args@;
    let mut inputs: Vec<Parameter> = Vec::new();
    let mut k: usize = 0;
    while k < args.len()
        invariant
            k <= args@.len(),
            shapes == args@,
            inputs@.len() == k,
            forall|j: int| 0 <= j < k ==> !(#[trigger] shapes[j] is Receiver),
            forall|j: int| 0 <= j < k ==> #[trigger] inputs@[j]@ == param_of(shapes[j]),
        decreases args@.len() - k,
    {
        match &args[k] {
            ArgShape::Receiver => {
                return Err(GenerationError::ReceiverParameter { method: name.clone() });
            },
            ArgShape::Typed { var_name, typ_name } => {
                inputs.push(Parameter { var_name: var_name.clone(), typ_name: typ_name.clone() });
            },
        }
        k = k + 1;
    }
    let out = match output {
        Some(o) => o.clone(),
        None => "()".to_owned(),
    };
    let f = Function { name: name.clone(), inputs, output: out };
    assert(f@.inputs =~= shapes.map_values(|a: ArgShape| param_of(a)));
    Ok(f)
}

/// Reads one trait item: it must be a method without a receiver.
pub fn parse_func(item: &ItemShape) -> (r: Result<Function, GenerationError>)
    ensures
        match function_of(*item) {
            Ok(spec_f) => r matches Ok(f) && f@ == spec_f,
            Err(fault) => r matches Err(e) && fault_is(e, fault),
        },
{
    match item {
        ItemShape::Other { text } => Err(GenerationError::UnsupportedItem { item: text.clone() }),
        ItemShape::Method { name, args, output } => function_from_parts(name, args, output),
    }
}

/// Reads a whole trait: its name and one method per item, in order. The
/// first item that is refused refuses the trait, with its own error.
pub fn parse_service(t: &TraitShape) -> (r: Result<Service, GenerationError>)
    ensures
        match service_of(*t) {
            Ok(spec_s) => r matches Ok(s) && s@ == spec_s,
            Err(fault) => r matches Err(e) && fault_is(e, fault),
        },
        r is Ok <==> forall|i: int|
            0 <= i < t.items@.len() ==> #[trigger] function_of(t.items@[i]) is Ok,
        r matches Ok(s) ==> {
            &&& s@.name == t.name@
            &&& s@.functions.len() == t.items@.len()
            &&& forall|i: int|
                0 <= i < t.items@.len() ==> Ok::<FunctionSpec, ItemFault>(#[trigger] s@.functions[i])
                    == function_of(t.items@[i])
        },
{
    let ghost items = t.items@;
    proof {
        lemma_items_result(items);
    }
    let mut functions: Vec<Function> = Vec::new();
    let mut k: usize = 0;
    assert(items.take(0) =~= Seq::<ItemShape>::empty());
    assert(functions@.map_values(|f: Function| f@) =~= Seq::<FunctionSpec>::empty());
    while k < t.items.len()
        invariant
            k <= items.len(),
            items == t.items@,
            items_result(items.take(k as int)) == Ok::<Seq<FunctionSpec>, ItemFault>(
                functions@.map_values(|f: Function| f@),
            ),
        decreases items.len() - k,
    {
        assert(items.take(k + 1).drop_last() =~= items.take(k as int));
        assert(items.take(k + 1).last() == items[k as int]);
        match parse_func(&t.items[k]) {
            Ok(f) => {
                let ghost before = functions@.map_values(|g: Function| g@);
                functions.push(f);
                assert(functions@.map_values(|g: Function| g@) =~= before.push(f@));
            },
            Err(e) => {
                proof {
                    lemma_prefix_fault(items, k + 1);
                }
                return Err(e);
            },
        }
        k = k + 1;
    }
    assert(items.take(items.len() as int) =~= items);
    Ok(Service { name: t.name.clone(), functions })
}

} // verus!
