//! User-namespace UID mappings.
//!
//! A mapping is three ranges. Each range pairs `length` consecutive ids that
//! start at `container_start` with as many that start at `host_start`.

use crate::error::{ErrorModel, ToolboxError};
use crate::text::{decimal, push_decimal, texts};
use vstd::prelude::*;
use vstd::string::*;

verus! {

/// Number of ids below which every container id must be mapped.
pub const MAX_UID_COUNT: u32 = 65536;

/// One contiguous range of a user-namespace mapping.
#[derive(Clone, Copy, Debug, PartialEq, Eq, Structural)]
pub struct UidRange {
    pub container_start: u32,
    pub host_start: u32,
    pub length: u32,
}

impl UidRange {
    /// Whether the container id `c` lies in this range.
    pub open spec fn covers(self, c: int) -> bool {
        self.container_start <= c < self.container_start + self.length
    }

    /// Whether the host-side id `h` lies in this range.
    pub open spec fn reaches(self, h: int) -> bool {
        self.host_start <= h < self.host_start + self.length
    }

    /// The host-side id that the container id `c` of this range stands for.
    pub open spec fn host_of(self, c: int) -> int {
        c - self.container_start + self.host_start
    }

    /// Whether two ranges share no id on either side.
    pub open spec fn disjoint_from(self, other: UidRange) -> bool {
        &&& forall|c: int| !(self.covers(c) && other.covers(c))
        &&& forall|h: int| !(self.reaches(h) && other.reaches(h))
    }

    /// The runtime's argument for this range.
    pub open spec fn arg(self) -> Seq<char> {
        "--uidmap="@ + decimal(self.container_start as nat) + ":"@ + decimal(
            self.host_start as nat,
        ) + ":"@ + decimal(self.length as nat)
    }

    /// Renders the range as the runtime's `--uidmap=` argument.
    pub fn to_arg(&self) -> (a: String)
        ensures
            a@ == self.arg(),
    {
        let mut a = String::from_str("--uidmap=");
        push_decimal(&mut a, self.container_start);
        a.append(":");
        push_decimal(&mut a, self.host_start);
        a.append(":");
        push_decimal(&mut a, self.length);
        a
    }
}

/// The three ranges computed for one real UID.
#[derive(Clone, Copy, Debug, PartialEq, Eq, Structural)]
pub struct UidMapping {
    /// The real UID itself, paired with host-side id 0.
    pub own: UidRange,
    /// The container ids below the real UID, each paired with the id one above it.
    pub below: UidRange,
    /// The container ids above the real UID, each paired with itself.
    pub above: UidRange,
}

impl UidMapping {
    /// The host-side id that container id `c` stands for, if `c` is mapped.
    pub open spec fn host_of(self, c: int) -> Option<int> {
        if self.own.covers(c) {
            Some(self.own.host_of(c))
        } else if self.below.covers(c) {
            Some(self.below.host_of(c))
        } else if self.above.covers(c) {
            Some(self.above.host_of(c))
        } else {
            None
        }
    }

    /// In how many of the three ranges the container id `c` lies.
    pub open spec fn times_covered(self, c: int) -> int {
        (if self.own.covers(c) { 1int } else { 0 }) + (if self.below.covers(c) { 1int } else { 0 })
            + (if self.above.covers(c) { 1int } else { 0 })
    }

    /// The runtime's arguments for the mapping, in the order own, below, above.
    pub open spec fn args(self) -> Seq<Seq<char>> {
        seq![self.own.arg(), self.below.arg(), self.above.arg()]
    }

    /// Renders the mapping as the runtime's three `--uidmap=` arguments.
    pub fn to_args(&self) -> (a: Vec<String>)
        ensures
            texts(a@) == self.args(),
    {
        let mut a: Vec<String> = Vec::new();
        a.push(self.own.to_arg());
        a.push(self.below.to_arg());
        a.push(self.above.to_arg());
        assert(texts(a@) =~= self.args());
        a
    }
}

/// Whether a real UID can be given a mapping.
pub open spec fn mappable(real_uid: u32) -> bool {
    1 <= real_uid < MAX_UID_COUNT
}

/// The mapping of a mappable real UID.
pub open spec fn mapping_of(real_uid: u32) -> UidMapping
    recommends
        mappable(real_uid),
{
    UidMapping {
        own: UidRange { container_start: real_uid, host_start: 0, length: 1 },
        below: UidRange { container_start: 0, host_start: 1, length: real_uid },
        above: UidRange {
            container_start: (real_uid + 1) as u32,
            host_start: (real_uid + 1) as u32,
            length: (MAX_UID_COUNT - real_uid) as u32,
        },
    }
}

/// Computes the mapping for a real UID, or refuses a UID that has none.
pub fn uid_mapping(real_uid: u32) -> (r: Result<UidMapping, ToolboxError>)
    ensures
        mappable(real_uid) ==> r == Ok::<UidMapping, ToolboxError>(mapping_of(real_uid)),
        !mappable(real_uid) ==> r is Err && r->Err_0@ == ErrorModel::UidOutOfRange(real_uid),
{
    if real_uid == 0 || real_uid >= MAX_UID_COUNT {
        return Err(ToolboxError::UidOutOfRange(real_uid));
    }
    Ok(
        UidMapping {
            own: UidRange { container_start: real_uid, host_start: 0, length: 1 },
            below: UidRange { container_start: 0, host_start: 1, length: real_uid },
            above: UidRange {
                container_start: real_uid + 1,
                host_start: real_uid + 1,
                length: MAX_UID_COUNT - real_uid,
            },
        },
    )
}

/// No two ranges of a mapping share an id, on the container side or on the host side.
pub proof fn mapping_ranges_are_disjoint(real_uid: u32)
    requires
        mappable(real_uid),
    ensures
        mapping_of(real_uid).own.disjoint_from(mapping_of(real_uid).below),
        mapping_of(real_uid).own.disjoint_from(mapping_of(real_uid).above),
        mapping_of(real_uid).below.disjoint_from(mapping_of(real_uid).above),
{
}

/// Every container id below `MAX_UID_COUNT` lies in exactly one range of a mapping.
pub proof fn mapping_covers_each_id_once(real_uid: u32, c: int)
    requires
        mappable(real_uid),
        0 <= c < MAX_UID_COUNT,
    ensures
        mapping_of(real_uid).times_covered(c) == 1,
        mapping_of(real_uid).host_of(c) is Some,
{
}

/// The ranges of a mapping hold the container ids from 0 up to and including
/// `MAX_UID_COUNT`, and nothing else; the host-side ids they reach are the same.
pub proof fn mapping_extent(real_uid: u32, c: int)
    requires
        mappable(real_uid),
    ensures
        mapping_of(real_uid).times_covered(c) == (if 0 <= c <= MAX_UID_COUNT { 1int } else { 0 }),
        (mapping_of(real_uid).own.reaches(c) || mapping_of(real_uid).below.reaches(c)
            || mapping_of(real_uid).above.reaches(c)) == (0 <= c <= MAX_UID_COUNT),
{
}

/// A mapping pairs the real UID with id 0, each id below the real UID with the
/// id one above it, and each id above the real UID with itself.
pub proof fn mapping_pairs(real_uid: u32, c: int)
    requires
        mappable(real_uid),
        0 <= c <= MAX_UID_COUNT,
    ensures
        mapping_of(real_uid).host_of(real_uid as int) == Some(0int),
        c < real_uid ==> mapping_of(real_uid).host_of(c) == Some(c + 1),
        c > real_uid ==> mapping_of(real_uid).host_of(c) == Some(c),
{
}

} // verus!
