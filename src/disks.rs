use vstd::prelude::*;
use crate::paths::{has_prefix, starts_with};

verus! {

/// Whether a mount point follows the removable-media convention: it lies
/// under `/media` or `/run/media`. This is an allow-list on the text, so that
/// system and network mounts are never scanned.
pub open spec fn is_removable_mount(m: Seq<char>) -> bool {
    starts_with(m, "/media"@) || starts_with(m, "/run/media"@)
}

/// The removable mount points among `mounts`, in their order.
pub open spec fn removable_only(mounts: Seq<Seq<char>>) -> Seq<Seq<char>>
    decreases mounts.len(),
{
    if mounts.len() == 0 {
        seq![]
    } else {
        removable_only(mounts.drop_last()) + if is_removable_mount(mounts.last()) {
            seq![mounts.last()]
        } else {
            seq![]
        }
    }
}

/// Every element of `removable_only(mounts)` is a removable mount point.
pub proof fn lemma_removable_only_sound(mounts: Seq<Seq<char>>)
    ensures
        forall|k: int|
            0 <= k < removable_only(mounts).len() ==> is_removable_mount(
                #[trigger] removable_only(mounts)[k],
            ),
    decreases mounts.len(),
{
    if mounts.len() > 0 {
        let prev = removable_only(mounts.drop_last());
        lemma_removable_only_sound(mounts.drop_last());
        assert forall|k: int|
            0 <= k < removable_only(mounts).len() implies is_removable_mount(
                #[trigger] removable_only(mounts)[k],
            ) by {
            if k < prev.len() {
                assert(removable_only(mounts)[k] == prev[k]);
            }
        }
    }
}

/// Relies on sysinfo's `Disks::new_with_refreshed_list` and `Disk::mount_point`:
/// the mount points of the disks that the system reports now. What is mounted
/// changes from one call to the next, so nothing is promised of the list.
#[verifier::external_body]
fn mounted_volume_paths() -> (r: Vec<String>) {
    let disks = sysinfo::Disks::new_with_refreshed_list();
    disks.list().iter().map(|d| d.mount_point().to_str().unwrap_or_default().to_string()).collect()
}

/// The removable mount points among `mounts`, in their order.
pub fn removable_mount_points(mounts: &Vec<String>) -> (r: Vec<String>)
    ensures
        r@.map_values(|s: String| s@) == removable_only(mounts@.map_values(|s: String| s@)),
{
    let ghost all = mounts@.map_values(|s: String| s@);
    let mut out: Vec<String> = Vec::new();
    let mut i: usize = 0;
    while i < mounts.len()
        invariant
            i <= mounts@.len(),
            all == mounts@.map_values(|s: String| s@),
            out@.map_values(|s: String| s@) == removable_only(all.subrange(0, i as int)),
        decreases mounts@.len() - i,
    {
        let m = &mounts[i];
        proof {
            reveal_strlit("/media");
            reveal_strlit("/run/media");
            assert(all.subrange(0, i + 1).drop_last() =~= all.subrange(0, i as int));
        }
        if has_prefix(m.as_str(), "/media") || has_prefix(m.as_str(), "/run/media") {
            out.push(m.clone());
            assert(out@.map_values(|s: String| s@) =~= removable_only(all.subrange(0, i + 1)));
        } else {
            assert(out@.map_values(|s: String| s@) =~= removable_only(all.subrange(0, i + 1)));
        }
        i = i + 1;
    }
    assert(all.subrange(0, mounts@.len() as int) =~= all);
    out
}

/// The removable-media mount points present now. Which ones these are
/// depends on the machine; each of them lies under `/media` or `/run/media`.
pub fn get_mount_points() -> (r: Vec<String>)
    ensures
        forall|k: int| 0 <= k < r@.len() ==> is_removable_mount(#[trigger] r@[k]@),
{
    let all = mounted_volume_paths();
    let r = removable_mount_points(&all);
    proof {
        let v = all@.map_values(|s: String| s@);
        lemma_removable_only_sound(v);
        assert forall|k: int| 0 <= k < r@.len() implies is_removable_mount(#[trigger] r@[k]@) by {
            assert(r@.map_values(|s: String| s@)[k] == r@[k]@);
        }
    }
    r
}

} // verus!
