//! What the launcher finds out about the machine and the process it runs in.

use crate::mounts::{contains_text, device_candidate_paths, device_candidates};
use crate::text::texts;
use vstd::prelude::*;
use vstd::string::*;

verus! {

/// `std::path::Path::exists`: whether the path names something that exists
/// now. The answer depends on the file system, so nothing is claimed of it.
#[verifier::external_body]
fn path_exists(path: &str) -> bool {
    std::path::Path::new(path).exists()
}

/// `nix::unistd::getuid`: the real user id of this process. The answer
/// depends on the process, so nothing is claimed of it.
#[verifier::external_body]
fn current_uid() -> u32 {
    nix::unistd::getuid().as_raw()
}

/// `nix::unistd::getpid`: the id of this process. The answer depends on the
/// process, so nothing is claimed of it.
#[verifier::external_body]
fn current_pid() -> i32 {
    nix::unistd::getpid().as_raw()
}

/// `rand::rngs::OsRng` through `rand::RngCore::try_fill_bytes`: four random
/// bytes of the operating system as one number, or nothing where the
/// operating system gives none. Nothing is claimed of the number.
#[verifier::external_body]
pub(crate) fn random_number() -> Option<u32> {
    let mut bytes = [0u8; 4];
    match rand::RngCore::try_fill_bytes(&mut rand::rngs::OsRng, &mut bytes) {
        Ok(()) => Some(u32::from_le_bytes(bytes)),
        Err(_) => None,
    }
}

/// The path that an image-based host leaves at boot.
pub open spec fn ostree_marker() -> Seq<char> {
    "/run/ostree-booted"@
}

/// Whether a host with the given existing paths is image based.
pub open spec fn ostree_based(existing: Seq<Seq<char>>) -> bool {
    existing.contains(ostree_marker())
}

/// The paths whose existence shapes a launch: the marker of an image-based
/// host, then the candidate devices.
pub open spec fn probed_paths() -> Seq<Seq<char>> {
    seq![ostree_marker()] + device_candidates()
}

/// The path that an image-based host leaves at boot.
pub fn ostree_marker_path() -> (p: String)
    ensures
        p@ == ostree_marker(),
{
    String::from_str("/run/ostree-booted")
}

/// The paths whose existence shapes a launch.
pub fn probed_path_strings() -> (paths: Vec<String>)
    ensures
        texts(paths@) == probed_paths(),
{
    let mut paths: Vec<String> = Vec::new();
    paths.push(ostree_marker_path());
    let mut devices = device_candidate_paths();
    paths.append(&mut devices);
    assert(texts(paths@) =~= probed_paths());
    paths
}

/// Returns true if the host is OSTree based: if the marker that such a host
/// leaves at boot is among the paths that exist on it.
pub fn is_ostree_based_host(existing: &Vec<String>) -> (b: bool)
    ensures
        b == ostree_based(texts(existing@)),
{
    let marker = ostree_marker_path();
    contains_text(existing, &marker)
}

/// The real user id of the invoking user.
pub fn real_uid() -> u32 {
    current_uid()
}

/// The id of this process.
pub fn process_id() -> i32 {
    current_pid()
}

/// Whether `found` holds some of `candidates`, each once, in their order.
pub open spec fn chosen_from(found: Seq<Seq<char>>, candidates: Seq<Seq<char>>, k: int) -> bool
    decreases k,
{
    if k <= 0 || k > candidates.len() {
        found.len() == 0
    } else {
        chosen_from(found, candidates, k - 1) || (found.len() > 0 && found.last()
            == candidates[k - 1] && chosen_from(found.drop_last(), candidates, k - 1))
    }
}

/// The probed paths that exist on this host now, in their order: no other
/// path is asked about. Which of them exist is for the file system to say.
pub fn existing_paths() -> (found: Vec<String>)
    ensures
        chosen_from(texts(found@), probed_paths(), probed_paths().len() as int),
{
    let candidates = probed_path_strings();
    let ghost cs = probed_paths();
    let mut found: Vec<String> = Vec::new();
    let mut k: usize = 0;
    while k < candidates.len()
        invariant
            k <= candidates.len(),
            texts(candidates@) == cs,
            cs == probed_paths(),
            chosen_from(texts(found@), cs, k as int),
        decreases candidates.len() - k,
    {
        assert(cs.len() == candidates@.len());
        assert(cs[k as int] == candidates@[k as int]@);
        if path_exists(candidates[k].as_str()) {
            let ghost before = texts(found@);
            found.push(candidates[k].clone());
            assert(texts(found@).drop_last() =~= before);
            assert(texts(found@).last() == cs[k as int]);
        }
        k = k + 1;
    }
    found
}

/// What is chosen from candidates is among them.
pub proof fn chosen_are_candidates(
    found: Seq<Seq<char>>,
    candidates: Seq<Seq<char>>,
    k: int,
    path: Seq<char>,
)
    requires
        0 <= k <= candidates.len(),
        chosen_from(found, candidates, k),
        found.contains(path),
    ensures
        candidates.contains(path),
    decreases k,
{
    if k > 0 {
        if chosen_from(found, candidates, k - 1) {
            chosen_are_candidates(found, candidates, k - 1, path);
        } else {
            let j = choose|j: int| 0 <= j < found.len() && found[j] == path;
            if j == found.len() - 1 {
                assert(candidates[k - 1] == path);
            } else {
                assert(found.drop_last()[j] == path);
                chosen_are_candidates(found.drop_last(), candidates, k - 1, path);
            }
        }
    }
}

} // verus!
