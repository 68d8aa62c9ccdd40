//! The bind mounts that expose the host inside the container.

use crate::text::texts;
use vstd::prelude::*;
use vstd::string::*;

verus! {

/// The runtime's argument that mounts `source` of the host at `target` in the
/// container, with recursive-slave propagation.
pub open spec fn volume_arg(source: Seq<char>, target: Seq<char>) -> Seq<char> {
    "--volume="@ + source + ":"@ + target + ":rslave"@
}

/// The argument that mounts a host path at the same path in the container.
pub open spec fn device_arg(path: Seq<char>) -> Seq<char> {
    volume_arg(path, path)
}

/// The argument that mounts a host path below `/host` in the container.
pub open spec fn host_arg(path: Seq<char>) -> Seq<char> {
    volume_arg(path, "/host"@ + path)
}

/// The argument that mounts the launcher's own executable as the entrypoint.
pub open spec fn self_arg(self_bin: Seq<char>) -> Seq<char> {
    volume_arg(self_bin, "/toolbox.entrypoint"@)
}

/// The device paths that are mounted where the host has them.
pub open spec fn device_candidates() -> Seq<Seq<char>> {
    seq!["/dev/bus"@, "/dev/dri"@, "/dev/fuse"@]
}

/// The host paths that are always mounted below `/host`.
pub open spec fn always_mounted() -> Seq<Seq<char>> {
    seq!["/usr"@, "/var"@, "/etc"@, "/run"@]
}

/// The host paths that are mounted below `/host` depending on the kind of host.
pub open spec fn conditionally_mounted(ostree_based_host: bool) -> Seq<Seq<char>> {
    if ostree_based_host {
        seq!["/sysroot"@]
    } else {
        seq!["/media"@, "/mnt"@, "/home"@, "/srv"@]
    }
}

/// Those of the first `k` candidates that are among the existing paths, in
/// the order of the candidates.
pub open spec fn kept_among(candidates: Seq<Seq<char>>, existing: Seq<Seq<char>>, k: int) -> Seq<
    Seq<char>,
>
    decreases k,
{
    if k <= 0 || k > candidates.len() {
        Seq::empty()
    } else if existing.contains(candidates[k - 1]) {
        kept_among(candidates, existing, k - 1).push(candidates[k - 1])
    } else {
        kept_among(candidates, existing, k - 1)
    }
}

/// The device paths that are mounted, given the paths that exist on the host.
pub open spec fn mounted_devices(existing: Seq<Seq<char>>) -> Seq<Seq<char>> {
    kept_among(device_candidates(), existing, device_candidates().len() as int)
}

/// The arguments for the device mounts, given the paths that exist on the host.
pub open spec fn device_args(existing: Seq<Seq<char>>) -> Seq<Seq<char>> {
    mounted_devices(existing).map_values(|p: Seq<char>| device_arg(p))
}

/// The host paths mounted below `/host`, in order.
pub open spec fn host_paths(ostree_based_host: bool) -> Seq<Seq<char>> {
    always_mounted() + conditionally_mounted(ostree_based_host)
}

/// The arguments for the mounts below `/host`.
pub open spec fn host_args(ostree_based_host: bool) -> Seq<Seq<char>> {
    host_paths(ostree_based_host).map_values(|p: Seq<char>| host_arg(p))
}

/// Renders the runtime's argument for one bind mount.
pub fn volume_arg_string(source: &str, target: &str) -> (a: String)
    ensures
        a@ == volume_arg(source@, target@),
{
    let mut a = String::from_str("--volume=");
    a.append(source);
    a.append(":");
    a.append(target);
    a.append(":rslave");
    a
}

/// Renders the argument that mounts a host path below `/host`.
pub fn host_arg_string(path: &str) -> (a: String)
    ensures
        a@ == host_arg(path@),
{
    let mut target = String::from_str("/host");
    target.append(path);
    volume_arg_string(path, target.as_str())
}

/// Renders the argument that mounts the launcher's own executable.
pub fn self_arg_string(self_bin: &str) -> (a: String)
    ensures
        a@ == self_arg(self_bin@),
{
    volume_arg_string(self_bin, "/toolbox.entrypoint")
}

/// The device paths that are mounted where the host has them.
pub fn device_candidate_paths() -> (paths: Vec<String>)
    ensures
        texts(paths@) == device_candidates(),
{
    let mut paths: Vec<String> = Vec::new();
    paths.push(String::from_str("/dev/bus"));
    paths.push(String::from_str("/dev/dri"));
    paths.push(String::from_str("/dev/fuse"));
    assert(texts(paths@) =~= device_candidates());
    paths
}

/// Whether a list of strings holds the given text.
pub fn contains_text(list: &Vec<String>, wanted: &String) -> (b: bool)
    ensures
        b == texts(list@).contains(wanted@),
{
    let mut i: usize = 0;
    while i < list.len()
        invariant
            i <= list.len(),
            forall|j: int| 0 <= j < i ==> texts(list@)[j] != wanted@,
        decreases list.len() - i,
    {
        if list[i] == *wanted {
            assert(texts(list@)[i as int] == wanted@);
            return true;
        }
        i = i + 1;
    }
    false
}

/// The arguments that mount each candidate device which is among the
/// existing paths. A candidate that does not exist is passed over.
pub fn device_mount_args(existing: &Vec<String>) -> (args: Vec<String>)
    ensures
        texts(args@) == device_args(texts(existing@)),
{
    let candidates = device_candidate_paths();
    let ghost cs = device_candidates();
    let ghost ex = texts(existing@);
    let mut args: Vec<String> = Vec::new();
    let mut k: usize = 0;
    while k < candidates.len()
        invariant
            k <= candidates.len(),
            texts(candidates@) == cs,
            cs == device_candidates(),
            ex == texts(existing@),
            texts(args@) == kept_among(cs, ex, k as int).map_values(|p: Seq<char>| device_arg(p)),
        decreases candidates.len() - k,
    {
        assert(cs.len() == candidates@.len());
        assert(cs[k as int] == candidates@[k as int]@);
        if contains_text(existing, &candidates[k]) {
            let ghost before = args@;
            let path = candidates[k].as_str();
            args.push(volume_arg_string(path, path));
            assert(texts(args@) =~= texts(before).push(device_arg(cs[k as int])));
            assert(texts(args@) =~= kept_among(cs, ex, k + 1).map_values(
                |p: Seq<char>| device_arg(p),
            ));
        }
        k = k + 1;
    }
    args
}

/// The arguments that mount the host's own directories below `/host`: four
/// that every host has, and those that depend on the kind of host.
pub fn host_mount_args(ostree_based_host: bool) -> (args: Vec<String>)
    ensures
        texts(args@) == host_args(ostree_based_host),
{
    let mut args: Vec<String> = Vec::new();
    args.push(host_arg_string("/usr"));
    args.push(host_arg_string("/var"));
    args.push(host_arg_string("/etc"));
    args.push(host_arg_string("/run"));
    if ostree_based_host {
        args.push(host_arg_string("/sysroot"));
    } else {
        args.push(host_arg_string("/media"));
        args.push(host_arg_string("/mnt"));
        args.push(host_arg_string("/home"));
        args.push(host_arg_string("/srv"));
    }
    assert(texts(args@) =~= host_args(ostree_based_host));
    args
}

/// A path is among the first `k` kept candidates exactly when it is one of
/// the first `k` candidates and exists.
proof fn lemma_kept_among(
    candidates: Seq<Seq<char>>,
    existing: Seq<Seq<char>>,
    k: int,
    path: Seq<char>,
)
    requires
        0 <= k <= candidates.len(),
    ensures
        kept_among(candidates, existing, k).contains(path) <==> (candidates.take(k).contains(path)
            && existing.contains(path)),
    decreases k,
{
    if k > 0 {
        lemma_kept_among(candidates, existing, k - 1, path);
        let before = kept_among(candidates, existing, k - 1);
        let last = candidates[k - 1];
        let shorter = candidates.take(k - 1);
        assert(candidates.take(k) =~= shorter.push(last));
        assert(candidates.take(k).contains(path) <==> (shorter.contains(path) || path == last)) by {
            if shorter.contains(path) {
                let j = choose|j: int| 0 <= j < shorter.len() && shorter[j] == path;
                assert(candidates.take(k)[j] == path);
            }
            if path == last {
                assert(candidates.take(k)[k - 1] == path);
            }
        }
        if existing.contains(last) {
            let after = before.push(last);
            assert(after.contains(path) <==> (before.contains(path) || path == last)) by {
                if before.contains(path) {
                    let j = choose|j: int| 0 <= j < before.len() && before[j] == path;
                    assert(after[j] == path);
                }
                if path == last {
                    assert(after[before.len() as int] == path);
                }
            }
        }
    } else {
        assert(candidates.take(0).len() == 0);
    }
}

/// The devices that are mounted are exactly the candidates that exist.
pub proof fn device_mounts_are_exact(existing: Seq<Seq<char>>, path: Seq<char>)
    ensures
        mounted_devices(existing).contains(path) <==> (device_candidates().contains(path)
            && existing.contains(path)),
{
    let candidates = device_candidates();
    lemma_kept_among(candidates, existing, candidates.len() as int, path);
    assert(candidates.take(candidates.len() as int) =~= candidates);
}

/// On a host of either kind, the paths mounted on account of the kind are
/// those of that kind and no other: `/sysroot` alone on an image-based host,
/// and `/media`, `/mnt`, `/home` and `/srv` on every other. No path belongs to
/// both kinds, and neither kind is without a path.
pub proof fn conditional_mounts_are_exclusive(ostree_based_host: bool, path: Seq<char>)
    ensures
        conditionally_mounted(true).contains(path) <==> path == "/sysroot"@,
        conditionally_mounted(false).contains(path) <==> (path == "/media"@ || path == "/mnt"@
            || path == "/home"@ || path == "/srv"@),
        !(conditionally_mounted(true).contains(path) && conditionally_mounted(false).contains(
            path,
        )),
        conditionally_mounted(ostree_based_host).len() > 0,
{
    reveal_strlit("/sysroot");
    reveal_strlit("/media");
    reveal_strlit("/mnt");
    reveal_strlit("/home");
    reveal_strlit("/srv");
    let yes = conditionally_mounted(true);
    let no = conditionally_mounted(false);
    assert(yes[0] == "/sysroot"@);
    assert(no[0] == "/media"@ && no[1] == "/mnt"@ && no[2] == "/home"@ && no[3] == "/srv"@);
    assert("/sysroot"@.len() == 8);
    assert("/media"@.len() == 6);
    assert("/mnt"@.len() == 4);
    assert("/home"@.len() == 5);
    assert("/srv"@.len() == 4);
}

} // verus!
