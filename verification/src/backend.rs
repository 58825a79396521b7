//! The closed set of compute backends a benchmark can target, and the
//! mapping between backends and their command-line names.

use vstd::prelude::*;
use vstd::string::StrSliceExecFns;

verus! {

/// An execution target for the matrix multiplication. The actual device
/// handling lives entirely in the tensor library; here a backend is only a
/// selector with a name.
#[derive(Copy, Clone, PartialEq, Eq, Structural, PartialOrd, Ord, Debug)]
pub enum BackendType {
    /// Plain processor execution.
    Cpu,
    /// Vectorized array execution.
    Ndarray,
    /// GPU execution through the portable GPU API.
    Wgpu,
    /// GPU execution through Vulkan.
    Vulkan,
    /// GPU execution through CUDA.
    Cuda,
}

impl BackendType {
    /// The command-line name of this backend.
    pub open spec fn spec_name(self) -> Seq<char> {
        match self {
            BackendType::Cpu => "cpu"@,
            BackendType::Ndarray => "ndarray"@,
            BackendType::Wgpu => "wgpu"@,
            BackendType::Vulkan => "vulkan"@,
            BackendType::Cuda => "cuda"@,
        }
    }

    /// Returns the name under which this backend is selected and reported.
    pub fn name(&self) -> (r: &'static str)
        ensures
            r@ == self.spec_name(),
    {
        match self {
            BackendType::Cpu => "cpu",
            BackendType::Ndarray => "ndarray",
            BackendType::Wgpu => "wgpu",
            BackendType::Vulkan => "vulkan",
            BackendType::Cuda => "cuda",
        }
    }

    /// Looks a backend up by its command-line name. Exactly the five
    /// backend names are accepted; any other string is rejected.
    pub fn from_name(s: &str) -> (r: Option<BackendType>)
        ensures
            r matches Some(b) ==> b.spec_name() == s@,
            r is None ==> forall|b: BackendType| b.spec_name() != s@,
    {
        if str_eq(s, "cpu") {
            Some(BackendType::Cpu)
        } else if str_eq(s, "ndarray") {
            Some(BackendType::Ndarray)
        } else if str_eq(s, "wgpu") {
            Some(BackendType::Wgpu)
        } else if str_eq(s, "vulkan") {
            Some(BackendType::Vulkan)
        } else if str_eq(s, "cuda") {
            Some(BackendType::Cuda)
        } else {
            None
        }
    }
}

/// No two backends share a name, so a name determines the backend: looking
/// up the name of a backend yields that backend and no other.
pub proof fn lemma_backend_names_distinct(b1: BackendType, b2: BackendType)
    requires
        b1.spec_name() == b2.spec_name(),
    ensures
        b1 == b2,
{
    reveal_strlit("cpu");
    reveal_strlit("ndarray");
    reveal_strlit("wgpu");
    reveal_strlit("vulkan");
    reveal_strlit("cuda");
    // The lengths tell all names apart but the two four-letter ones,
    // which differ in their first character.
    assert("cpu"@.len() == 3);
    assert("ndarray"@.len() == 7);
    assert("wgpu"@.len() == 4);
    assert("vulkan"@.len() == 6);
    assert("cuda"@.len() == 4);
    assert("wgpu"@[0] == 'w');
    assert("cuda"@[0] == 'c');
}

/// Character-for-character string comparison.
fn str_eq(a: &str, b: &str) -> (r: bool)
    ensures
        r <==> a@ == b@,
{
    let alen = a.unicode_len();
    let blen = b.unicode_len();
    if alen != blen {
        return false;
    }
    let mut i: usize = 0;
    while i < alen
        invariant
            i <= alen,
            alen == a@.len(),
            alen == b@.len(),
            forall|j: int| 0 <= j < i ==> a@[j] == b@[j],
        decreases alen - i,
    {
        if a.get_char(i) != b.get_char(i) {
            return false;
        }
        i += 1;
    }
    proof {
        assert(a@ =~= b@);
    }
    true
}

} // verus!
