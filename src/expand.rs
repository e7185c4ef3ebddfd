//! The whole expansion: attribute arguments and trait text in, generated
//! code out.
use vstd::prelude::*;
use crate::args::{args_of, Args};
use crate::generator::{
    envelope_cases, generated, lemma_envelope_one_case_per_method, request_case, Generator,
};
use crate::model::{error_fits, service_ok, FunctionSpec, GenerationError, ServiceSpec};
use crate::syntax::{
    fault_is, function_of, lemma_items_result, parse_item_trait, parse_service, read_trait,
    service_of, ItemFault, TraitShape,
};

verus! {

/// Expands a service whose trait has been read: the arguments are checked
/// first, then every item must be a method, then the interface is checked
/// and its code written.
pub fn service_from_shape(args: &str, t: &TraitShape) -> (r: Result<String, GenerationError>)
    ensures
        args_of(args@) is Err ==> r == Err::<String, GenerationError>(
            GenerationError::InvalidArguments,
        ),
        args_of(args@) matches Ok(a) ==> match service_of(*t) {
            Err(fault) => r matches Err(e) && fault_is(e, fault),
            Ok(svc) => {
                &&& r is Ok <==> service_ok(svc)
                &&& r matches Ok(code) ==> code@ == generated(svc, a.local)
                &&& r matches Err(e) ==> error_fits(svc, e)
            },
        },
{
    let a = match Args::parse(args) {
        Ok(a) => a,
        Err(e) => {
            return Err(e);
        },
    };
    let svc = match parse_service(t) {
        Ok(svc) => svc,
        Err(e) => {
            return Err(e);
        },
    };
    let generator = Generator { no_send: a.local };
    generator.generate(&svc)
}

/// For a trait that expands, the request envelope has one case per trait
/// item, in order: case `i` is written for the method that item `i` is, and
/// no two cases share a name.
pub proof fn lemma_one_case_per_trait_method(t: TraitShape, svc: ServiceSpec)
    requires
        service_of(t) == Ok::<ServiceSpec, ItemFault>(svc),
        service_ok(svc),
    ensures
        envelope_cases(svc).len() == t.items@.len(),
        forall|i: int|
            0 <= i < t.items@.len() ==> function_of(t.items@[i]) == Ok::<FunctionSpec, ItemFault>(
                svc.functions[i],
            ) && #[trigger] envelope_cases(svc)[i] == request_case(svc.functions[i]),
        forall|i: int, j: int|
            0 <= i < svc.functions.len() && 0 <= j < svc.functions.len() && i != j
                ==> #[trigger] svc.functions[i].name != #[trigger] svc.functions[j].name,
{
    lemma_items_result(t.items@);
    lemma_envelope_one_case_per_method(svc);
}

/// Expands a service declaration: `args` are the attribute's arguments and
/// `item` the text of the trait. Text that syn does not take as a trait is
/// `NotATrait`; what syn reads goes to `service_from_shape`.
pub fn service(args: &str, item: &str) -> (r: Result<String, GenerationError>)
    ensures
        args_of(args@) is Err ==> r == Err::<String, GenerationError>(
            GenerationError::InvalidArguments,
        ),
        r matches Ok(code) ==> exists|t: TraitShape, svc: ServiceSpec|
            #![trigger service_of(t), generated(svc, args_of(args@)->Ok_0.local)]
            service_of(t) == Ok::<ServiceSpec, ItemFault>(svc) && service_ok(svc) && code@
                == generated(svc, args_of(args@)->Ok_0.local),
{
    if let Err(e) = Args::parse(args) {
        return Err(e);
    }
    let tree = match parse_item_trait(item) {
        Ok(tree) => tree,
        Err(_) => {
            return Err(GenerationError::NotATrait);
        },
    };
    let shape = read_trait(&tree);
    let r = service_from_shape(args, &shape);
    proof {
        if r is Ok {
            let svc = service_of(shape)->Ok_0;
            assert(service_of(shape) == Ok::<ServiceSpec, ItemFault>(svc));
        }
    }
    r
}

} // verus!
