//! Which backend owns an instance handle.

use vstd::prelude::*;

verus! {

/// A graphics backend that a build can hold.
#[derive(Clone, Copy, Debug, PartialEq, Eq, Structural)]
pub enum Backend {
    Dx12,
    Metal,
    Vulkan,
}

/// The order in which the backends are tried.
pub open spec fn priority() -> Seq<Backend> {
    seq![Backend::Dx12, Backend::Metal, Backend::Vulkan]
}

/// The backend that makes the surface for an instance handle: the backend
/// whose instance type the handle holds, where the build holds that backend.
pub open spec fn owner(compiled: Seq<Backend>, instance: Option<Backend>) -> Option<Backend> {
    match instance {
        Some(backend) if compiled.contains(backend) => Some(backend),
        _ => None,
    }
}

/// The backends in the order in which they are tried.
pub fn backends() -> (order: Vec<Backend>)
    ensures
        order@ == priority(),
{
    vec![Backend::Dx12, Backend::Metal, Backend::Vulkan]
}

/// Tells whether `backend` is among `compiled`.
pub fn is_compiled(compiled: &Vec<Backend>, backend: Backend) -> (yes: bool)
    ensures
        yes == compiled@.contains(backend),
{
    let mut j: usize = 0;
    while j < compiled.len()
        invariant
            j <= compiled.len(),
            forall|k: int| 0 <= k < j ==> compiled@[k] != backend,
        decreases compiled.len() - j,
    {
        if compiled[j] == backend {
            return true;
        }
        j += 1;
    }
    false
}

/// Tries the backends that the build holds, in the fixed order, against the
/// instance handle, and returns the first whose instance type the handle
/// holds. `instance` says which backend's instance type that is, `None` for a
/// handle of no known backend. `None` comes back where no backend of the
/// build matches: the caller has nothing to make a surface with.
pub fn select_backend(compiled: &Vec<Backend>, instance: Option<Backend>) -> (found: Option<Backend>)
    ensures
        found == owner(compiled@, instance),
{
    let order = backends();
    let mut j: usize = 0;
    while j < order.len()
        invariant
            j <= order.len(),
            order@ == priority(),
            forall|k: int|
                0 <= k < j ==> !(compiled@.contains(#[trigger] order@[k]) && instance == Some(
                    order@[k],
                )),
        decreases order.len() - j,
    {
        let candidate: Backend = order[j];
        if is_compiled(compiled, candidate) {
            let matches: bool = match instance {
                Some(backend) => backend == candidate,
                None => false,
            };
            if matches {
                return Some(candidate);
            }
        }
        j += 1;
    }
    proof {
        if let Some(backend) = instance {
            assert(priority()[0] == Backend::Dx12);
            assert(priority()[1] == Backend::Metal);
            assert(priority()[2] == Backend::Vulkan);
            assert(exists|k: int| 0 <= k < 3 && priority()[k] == backend);
        }
    }
    None
}

/// The backend found for a handle is the handle's own backend, and one is
/// found for every handle whose backend the build holds.
pub proof fn dispatch_is_exact(compiled: Seq<Backend>, backend: Backend)
    ensures
        compiled.contains(backend) ==> owner(compiled, Some(backend)) == Some(backend),
        !compiled.contains(backend) ==> owner(compiled, Some(backend)) is None,
        owner(compiled, None) is None,
{
}

} // verus!
