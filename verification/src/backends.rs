//! The audio backends that librespot was built with.

use librespot_playback::audio_backend;
use vstd::prelude::*;

verus! {

/// The name of the backend at a place in `audio_backend::BACKENDS`; `None` behind the
/// last one.
pub uninterp spec fn backend_name(index: int) -> Option<Seq<char>>;

/// `get` on the constant `audio_backend::BACKENDS`: the name of the backend at `index`,
/// `None` behind the last one. A place in a slice lies below its length, and so below
/// the largest `usize`.
#[verifier::external_body]
fn backend_at(index: usize) -> (res: Option<&'static str>)
    ensures
        res is Some == backend_name(index as int) is Some,
        res matches Some(name) ==> name@ == backend_name(index as int)->0,
        res is Some ==> index < usize::MAX,
{
    match audio_backend::BACKENDS.get(index) {
        Some(backend) => Some(backend.0),
        None => None,
    }
}

/// The names of all backends, in librespot's order.
pub fn possible_backends() -> (names: Vec<&'static str>)
    ensures
        forall|i: int| 0 <= i < names@.len() ==> backend_name(i) == Some((#[trigger] names@[i])@),
        backend_name(names@.len() as int) is None,
{
    let mut names: Vec<&'static str> = Vec::new();
    loop
        invariant
            forall|i: int|
                0 <= i < names@.len() ==> backend_name(i) == Some((#[trigger] names@[i])@),
        ensures
            backend_name(names@.len() as int) is None,
        decreases usize::MAX - names@.len(),
    {
        match backend_at(names.len()) {
            Some(name) => names.push(name),
            None => break,
        }
    }
    names
}

} // verus!
