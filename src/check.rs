//! The checks that an interface passes before any code is generated.
use vstd::prelude::*;
use crate::model::{
    check_binding, check_ident, is_binding, is_ident, error_fits, names_ok, names_unique, service_ok, Function, GenerationError, Service,
};

verus! {

/// Tests one method against `names_ok`.
pub fn check_function_names(f: &Function) -> (r: bool)
    ensures
        r == names_ok(f@),
{
    if !check_ident(&f.name) || f.name == "new".to_owned() {
        return false;
    }
    let mut k: usize = 0;
    while k < f.inputs.len()
        invariant
            k <= f.inputs@.len(),
            is_ident(f.name@),
            f.name@ != "new"@,
            forall|j: int| 0 <= j < k ==> #[trigger] is_binding(f@.inputs[j].var_name),
        decreases f.inputs@.len() - k,
    {
        if !check_binding(&f.inputs[k].var_name) {
            assert(f@.inputs[k as int].var_name == f.inputs@[k as int].var_name@);
            return false;
        }
        k = k + 1;
    }
    true
}

/// Finds a method whose name another method has too.
pub fn find_duplicate_name(fs: &Vec<Function>) -> (r: Option<usize>)
    ensures
        r is None <==> names_unique(fs@.map_values(|f: Function| f@)),
        r matches Some(i) ==> i < fs@.len() && exists|j: int|
            0 <= j < fs@.len() && j != i && #[trigger] fs@[j].name@ == fs@[i as int].name@,
{
    let ghost v = fs@.map_values(|f: Function| f@);
    let mut i: usize = 0;
    while i < fs.len()
        invariant
            i <= fs@.len(),
            v == fs@.map_values(|f: Function| f@),
            forall|a: int, b: int|
                0 <= a < i && 0 <= b < fs@.len() && a != b ==> #[trigger] v[a].name != #[trigger] v[b].name,
        decreases fs@.len() - i,
    {
        let mut j: usize = 0;
        while j < fs.len()
            invariant
                i < fs@.len(),
                j <= fs@.len(),
                v == fs@.map_values(|f: Function| f@),
                forall|a: int, b: int|
                    0 <= a < i && 0 <= b < fs@.len() && a != b ==> #[trigger] v[a].name != #[trigger] v[b].name,
                forall|b: int| 0 <= b < j && b != i ==> #[trigger] v[b].name != v[i as int].name,
            decreases fs@.len() - j,
        {
            if j != i && fs[i].name == fs[j].name {
                assert(v[i as int].name == v[j as int].name);
                return Some(i);
            }
            j = j + 1;
        }
        assert forall|a: int, b: int|
            0 <= a < i + 1 && 0 <= b < fs@.len() && a != b implies #[trigger] v[a].name
            != #[trigger] v[b].name by {
            if a == i {
            }
        }
        i = i + 1;
    }
    None
}

/// Checks an interface: the names first, then that method names are
/// unique. An error names the service or the method at fault.
pub fn check_service(svc: &Service) -> (r: Result<(), GenerationError>)
    ensures
        r is Ok <==> service_ok(svc@),
        r matches Err(e) ==> error_fits(svc@, e),
{
    if !check_ident(&svc.name) {
        return Err(GenerationError::InvalidName { name: svc.name.clone() });
    }
    let mut i: usize = 0;
    while i < svc.functions.len()
        invariant
            i <= svc.functions@.len(),
            is_ident(svc@.name),
            forall|j: int| 0 <= j < i ==> #[trigger] names_ok(svc@.functions[j]),
        decreases svc.functions@.len() - i,
    {
        if !check_function_names(&svc.functions[i]) {
            assert(!names_ok(svc@.functions[i as int]));
            return Err(GenerationError::InvalidName { name: svc.functions[i].name.clone() });
        }
        i = i + 1;
    }
    match find_duplicate_name(&svc.functions) {
        Some(k) => {
            let name = svc.functions[k].name.clone();
            proof {
                let j = choose|j: int|
                    0 <= j < svc.functions@.len() && j != k && #[trigger] svc.functions@[j].name@
                        == svc.functions@[k as int].name@;
                assert(svc@.functions[j].name == name@ && svc@.functions[k as int].name == name@);
            }
            Err(GenerationError::DuplicateMethod { name })
        },
        None => Ok(()),
    }
}

} // verus!
