use vstd::prelude::*;
use vstd::string::StringSliceAdditionalSpecFns;

verus! {

/// What a client of the debug endpoint can ask for.
#[derive(Clone, Copy, PartialEq, Eq, Debug, Structural)]
pub enum Request {
    CpuState,
    VicState,
    Memory,
    Dissasembly,
    ScreenTexture,
}

/// Whether `p` is a prefix of `s`.
pub open spec fn is_prefix(p: Seq<u8>, s: Seq<u8>) -> bool {
    p.len() <= s.len() && s.subrange(0, p.len() as int) == p
}

/// The request a path names, by its leading route; the first route that
/// matches wins.
pub open spec fn request_for(path: Seq<u8>) -> Option<Request> {
    if is_prefix("/get_cpu_state".spec_bytes(), path) {
        Some(Request::CpuState)
    } else if is_prefix("/get_vic_state".spec_bytes(), path) {
        Some(Request::VicState)
    } else if is_prefix("/memory".spec_bytes(), path) {
        Some(Request::Memory)
    } else if is_prefix("/dissasembly".spec_bytes(), path) {
        Some(Request::Dissasembly)
    } else if is_prefix("/screen_texture".spec_bytes(), path) {
        Some(Request::ScreenTexture)
    } else {
        None
    }
}

fn starts_with(s: &[u8], p: &[u8]) -> (r: bool)
    ensures
        r == is_prefix(p@, s@),
{
    if p.len() > s.len() {
        return false;
    }
    let mut i: usize = 0;
    while i < p.len()
        invariant
            p@.len() <= s@.len(),
            i <= p@.len(),
            forall|j: int| 0 <= j < i ==> s@[j] == p@[j],
        decreases p.len() - i,
    {
        if s[i] != p[i] {
            assert(s@.subrange(0, p@.len() as int)[i as int] != p@[i as int]);
            return false;
        }
        i = i + 1;
    }
    assert(s@.subrange(0, p@.len() as int) =~= p@);
    true
}

/// The request that an HTTP path asks for, if any.
pub fn parse_request(path: &str) -> (r: Option<Request>)
    ensures
        r == request_for(path.spec_bytes()),
{
    let b = path.as_bytes();
    if starts_with(b, "/get_cpu_state".as_bytes()) {
        Some(Request::CpuState)
    } else if starts_with(b, "/get_vic_state".as_bytes()) {
        Some(Request::VicState)
    } else if starts_with(b, "/memory".as_bytes()) {
        Some(Request::Memory)
    } else if starts_with(b, "/dissasembly".as_bytes()) {
        Some(Request::Dissasembly)
    } else if starts_with(b, "/screen_texture".as_bytes()) {
        Some(Request::ScreenTexture)
    } else {
        None
    }
}

} // verus!
