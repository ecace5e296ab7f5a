//! The machine that the daemon runs on.

use gethostname::gethostname;
use vstd::prelude::*;

verus! {

/// Whether `name` is what `gethostname` returns on some machine, with what is not valid
/// Unicode in it replaced.
pub uninterp spec fn is_host_name(name: Seq<char>) -> bool;

/// `gethostname::gethostname`: the name of this machine, with what is not valid
/// Unicode in it replaced. Which name that is rests on the machine, and is not stated.
/// On Unix the call always returns; on Windows it panics if the name changes while it
/// is being read.
#[verifier::external_body]
pub(crate) fn host_name() -> (name: String)
    ensures
        is_host_name(name@),
{
    gethostname().to_string_lossy().into_owned()
}

} // verus!
