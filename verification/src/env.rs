//! The initialization-type announcement of the execution environment.

use vstd::prelude::*;
use vstd::string::StrSliceExecFns;

verus! {

/// How the execution environment was brought up, as announced by the
/// control plane. Unrecognized announcements map to `Unknown`, never to
/// an error.
#[derive(Clone, Copy, Debug)]
pub enum InitializationType {
    OnDemand,
    ProvisionedConcurrency,
    Unknown,
}

/// What `InitializationType::from_string` returns for each input.
pub open spec fn spec_initialization_type_of(s: Seq<char>) -> InitializationType {
    if s == "on-demand"@ {
        InitializationType::OnDemand
    } else if s == "provisioned-concurrency"@ {
        InitializationType::ProvisionedConcurrency
    } else {
        InitializationType::Unknown
    }
}

/// Character-by-character equality of two string slices.
pub(crate) fn str_eq_check(a: &str, b: &str) -> (r: bool)
    ensures
        r == (a@ == b@),
{
    let a_len = a.unicode_len();
    let b_len = b.unicode_len();
    if a_len != b_len {
        proof {
            assert(a@ != b@) by {
                if a@ == b@ {
                    assert(a@.len() == b@.len());
                }
            }
        }
        return false;
    }
    let mut i: usize = 0;
    while i < a_len
        invariant
            i <= a_len,
            a_len == a@.len(),
            b_len == b@.len(),
            a_len == b_len,
            forall|j: int| 0 <= j < i ==> a@[j] == b@[j],
        decreases a_len - i,
    {
        if a.get_char(i) != b.get_char(i) {
            return false;
        }
        i = i + 1;
    }
    proof {
        assert(a@ =~= b@);
    }
    true
}

/// The side channel a tracing library reads the trace id from. The
/// driver around the runtime implements it over the real process
/// environment; the runtime loop writes it once per poll cycle,
/// strictly before the handler runs.
pub trait EnvSink {
    fn set_trace_id(&mut self, id: Option<&str>);
}

impl InitializationType {
    /// The `InitializationType` named by the input string; `itype` is
    /// expected in lower case, anything unrecognized yields `Unknown`.
    pub fn from_string(itype: &str) -> (t: InitializationType)
        ensures
            t == spec_initialization_type_of(itype@),
    {
        if str_eq_check(itype, "on-demand") {
            InitializationType::OnDemand
        } else if str_eq_check(itype, "provisioned-concurrency") {
            InitializationType::ProvisionedConcurrency
        } else {
            InitializationType::Unknown
        }
    }
}

} // verus!
