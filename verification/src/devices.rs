use vstd::prelude::*;

use crate::document::EvidenceReferenceNormalization;
use crate::quarantine::{
    EvidenceQuarantineMember, LegacyUploadMigrationQuarantineMember, QuarantineRawInput,
    QuarantineRoot,
};

verus! {

/// The number that a device has now, given pairs of the number it had and the number it has.
pub open spec fn renumbered(pairs: Seq<(u64, u64)>, device: u64, from: int) -> Option<u64>
    decreases pairs.len() - from,
{
    if from < 0 || from >= pairs.len() {
        None
    } else if pairs[from].0 == device {
        Some(pairs[from].1)
    } else {
        renumbered(pairs, device, from + 1)
    }
}

/// The device has a known number now.
pub open spec fn known(pairs: Seq<(u64, u64)>, device: u64) -> bool {
    renumbered(pairs, device, 0) is Some
}

/// The number that a known device has now.
pub open spec fn now(pairs: Seq<(u64, u64)>, device: u64) -> u64 {
    renumbered(pairs, device, 0)->0
}

/// No two pairs have the same old number, and none the same new one.
pub open spec fn one_to_one(pairs: Seq<(u64, u64)>) -> bool {
    forall|i: int, j: int|
        #![trigger pairs[i], pairs[j]]
        0 <= i < j < pairs.len() ==> pairs[i].0 != pairs[j].0 && pairs[i].1 != pairs[j].1
}

/// The number that a device has now, if it is known.
pub fn renumber(pairs: &Vec<(u64, u64)>, device: u64) -> (r: Option<u64>)
    ensures
        r == renumbered(pairs@, device, 0),
{
    let mut i: usize = 0;
    while i < pairs.len()
        invariant
            i <= pairs@.len(),
            renumbered(pairs@, device, 0) == renumbered(pairs@, device, i as int),
        decreases pairs@.len() - i,
    {
        if pairs[i].0 == device {
            return Some(pairs[i].1);
        }
        i += 1;
    }
    None
}

/// Every root lies on a known device.
pub open spec fn roots_known(pairs: Seq<(u64, u64)>, roots: Seq<QuarantineRoot>) -> bool {
    forall|i: int| 0 <= i < roots.len() ==> known(pairs, (#[trigger] roots[i]).device)
}

/// The roots with the numbers that their devices have now.
pub open spec fn roots_now(pairs: Seq<(u64, u64)>, roots: Seq<QuarantineRoot>) -> Seq<
    QuarantineRoot,
> {
    roots.map_values(|root: QuarantineRoot| root.on_device(now(pairs, root.device)))
}

pub fn renumber_roots(pairs: &Vec<(u64, u64)>, roots: &Vec<QuarantineRoot>) -> (r: Option<
    Vec<QuarantineRoot>,
>)
    ensures
        r is Some <==> roots_known(pairs@, roots@),
        r matches Some(moved) ==> moved@ == roots_now(pairs@, roots@),
{
    let mut out: Vec<QuarantineRoot> = Vec::new();
    let mut i: usize = 0;
    while i < roots.len()
        invariant
            i <= roots@.len(),
            forall|j: int| 0 <= j < i ==> known(pairs@, (#[trigger] roots@[j]).device),
            out@ =~= roots_now(pairs@, roots@).take(i as int),
        decreases roots@.len() - i,
    {
        match renumber(pairs, roots[i].device) {
            Some(device) => {
                let mut root = roots[i].clone();
                root.device = device;
                out.push(root);
            },
            None => {
                assert(!known(pairs@, roots@[i as int].device));
                return None;
            },
        }
        i += 1;
    }
    Some(out)
}

/// Every member and its root lie on a known device.
pub open spec fn members_known(
    pairs: Seq<(u64, u64)>,
    members: Seq<EvidenceQuarantineMember>,
) -> bool {
    forall|i: int|
        0 <= i < members.len() ==> known(pairs, (#[trigger] members[i]).source.device) && known(
            pairs,
            members[i].root_device,
        )
}

/// The members with the numbers that their devices have now.
pub open spec fn members_now(
    pairs: Seq<(u64, u64)>,
    members: Seq<EvidenceQuarantineMember>,
) -> Seq<EvidenceQuarantineMember> {
    members.map_values(
        |member: EvidenceQuarantineMember|
            member.on_devices(now(pairs, member.source.device), now(pairs, member.root_device)),
    )
}

pub fn renumber_members(
    pairs: &Vec<(u64, u64)>,
    members: &Vec<EvidenceQuarantineMember>,
) -> (r: Option<Vec<EvidenceQuarantineMember>>)
    ensures
        r is Some <==> members_known(pairs@, members@),
        r matches Some(moved) ==> moved@ == members_now(pairs@, members@),
{
    let mut out: Vec<EvidenceQuarantineMember> = Vec::new();
    let mut i: usize = 0;
    while i < members.len()
        invariant
            i <= members@.len(),
            forall|j: int|
                0 <= j < i ==> known(pairs@, (#[trigger] members@[j]).source.device) && known(
                    pairs@,
                    members@[j].root_device,
                ),
            out@ =~= members_now(pairs@, members@).take(i as int),
        decreases members@.len() - i,
    {
        match (renumber(pairs, members[i].source.device), renumber(pairs, members[i].root_device)) {
            (Some(source_device), Some(root_device)) => {
                let mut member = members[i].clone();
                member.source.device = source_device;
                member.root_device = root_device;
                out.push(member);
            },
            _ => {
                assert(!(known(pairs@, members@[i as int].source.device) && known(
                    pairs@,
                    members@[i as int].root_device,
                )));
                return None;
            },
        }
        i += 1;
    }
    Some(out)
}

/// Every member of a plan and its root lie on a known device.
pub open spec fn planned_known(
    pairs: Seq<(u64, u64)>,
    members: Seq<LegacyUploadMigrationQuarantineMember>,
) -> bool {
    forall|i: int|
        0 <= i < members.len() ==> known(pairs, (#[trigger] members[i]).source.device) && known(
            pairs,
            members[i].root_device,
        )
}

/// The members of a plan with the numbers that their devices have now.
pub open spec fn planned_now(
    pairs: Seq<(u64, u64)>,
    members: Seq<LegacyUploadMigrationQuarantineMember>,
) -> Seq<LegacyUploadMigrationQuarantineMember> {
    members.map_values(
        |member: LegacyUploadMigrationQuarantineMember|
            member.on_devices(now(pairs, member.source.device), now(pairs, member.root_device)),
    )
}

pub fn renumber_planned(
    pairs: &Vec<(u64, u64)>,
    members: &Vec<LegacyUploadMigrationQuarantineMember>,
) -> (r: Option<Vec<LegacyUploadMigrationQuarantineMember>>)
    ensures
        r is Some <==> planned_known(pairs@, members@),
        r matches Some(moved) ==> moved@ == planned_now(pairs@, members@),
{
    let mut out: Vec<LegacyUploadMigrationQuarantineMember> = Vec::new();
    let mut i: usize = 0;
    while i < members.len()
        invariant
            i <= members@.len(),
            forall|j: int|
                0 <= j < i ==> known(pairs@, (#[trigger] members@[j]).source.device) && known(
                    pairs@,
                    members@[j].root_device,
                ),
            out@ =~= planned_now(pairs@, members@).take(i as int),
        decreases members@.len() - i,
    {
        match (renumber(pairs, members[i].source.device), renumber(pairs, members[i].root_device)) {
            (Some(source_device), Some(root_device)) => {
                let mut member = members[i].clone();
                member.source.device = source_device;
                member.root_device = root_device;
                out.push(member);
            },
            _ => {
                assert(!(known(pairs@, members@[i as int].source.device) && known(
                    pairs@,
                    members@[i as int].root_device,
                )));
                return None;
            },
        }
        i += 1;
    }
    Some(out)
}

/// Every original lies on a known device.
pub open spec fn raws_known(pairs: Seq<(u64, u64)>, raws: Seq<QuarantineRawInput>) -> bool {
    forall|i: int| 0 <= i < raws.len() ==> known(pairs, (#[trigger] raws[i]).source.device)
}

/// The originals with the numbers that their devices have now.
pub open spec fn raws_now(pairs: Seq<(u64, u64)>, raws: Seq<QuarantineRawInput>) -> Seq<
    QuarantineRawInput,
> {
    raws.map_values(|raw: QuarantineRawInput| raw.on_device(now(pairs, raw.source.device)))
}

pub fn renumber_raws(pairs: &Vec<(u64, u64)>, raws: &Vec<QuarantineRawInput>) -> (r: Option<
    Vec<QuarantineRawInput>,
>)
    ensures
        r is Some <==> raws_known(pairs@, raws@),
        r matches Some(moved) ==> moved@ == raws_now(pairs@, raws@),
{
    let mut out: Vec<QuarantineRawInput> = Vec::new();
    let mut i: usize = 0;
    while i < raws.len()
        invariant
            i <= raws@.len(),
            forall|j: int| 0 <= j < i ==> known(pairs@, (#[trigger] raws@[j]).source.device),
            out@ =~= raws_now(pairs@, raws@).take(i as int),
        decreases raws@.len() - i,
    {
        match renumber(pairs, raws[i].source.device) {
            Some(device) => {
                let mut raw = raws[i].clone();
                raw.source.device = device;
                out.push(raw);
            },
            None => {
                assert(!known(pairs@, raws@[i as int].source.device));
                return None;
            },
        }
        i += 1;
    }
    Some(out)
}

/// Every reference lies on a known device.
pub open spec fn references_known(
    pairs: Seq<(u64, u64)>,
    references: Seq<EvidenceReferenceNormalization>,
) -> bool {
    forall|i: int| 0 <= i < references.len() ==> known(pairs, (#[trigger] references[i]).device)
}

/// The references with the numbers that their devices have now.
pub open spec fn references_now(
    pairs: Seq<(u64, u64)>,
    references: Seq<EvidenceReferenceNormalization>,
) -> Seq<EvidenceReferenceNormalization> {
    references.map_values(
        |reference: EvidenceReferenceNormalization|
            reference.on_device(now(pairs, reference.device)),
    )
}

pub fn renumber_references(
    pairs: &Vec<(u64, u64)>,
    references: &Vec<EvidenceReferenceNormalization>,
) -> (r: Option<Vec<EvidenceReferenceNormalization>>)
    ensures
        r is Some <==> references_known(pairs@, references@),
        r matches Some(moved) ==> moved@ == references_now(pairs@, references@),
{
    let mut out: Vec<EvidenceReferenceNormalization> = Vec::new();
    let mut i: usize = 0;
    while i < references.len()
        invariant
            i <= references@.len(),
            forall|j: int| 0 <= j < i ==> known(pairs@, (#[trigger] references@[j]).device),
            out@ =~= references_now(pairs@, references@).take(i as int),
        decreases references@.len() - i,
    {
        match renumber(pairs, references[i].device) {
            Some(device) => {
                let mut reference = references[i].clone();
                reference.device = device;
                out.push(reference);
            },
            None => {
                assert(!known(pairs@, references@[i as int].device));
                return None;
            },
        }
        i += 1;
    }
    Some(out)
}

/// A device that has a number now has it from a pair.
pub proof fn renumbered_from_a_pair(pairs: Seq<(u64, u64)>, device: u64, from: int)
    requires
        0 <= from,
        renumbered(pairs, device, from) is Some,
    ensures
        exists|k: int|
            from <= k < pairs.len() && #[trigger] pairs[k] == (
                device,
                renumbered(pairs, device, from)->0,
            ),
    decreases pairs.len() - from,
{
    if pairs[from].0 != device {
        renumbered_from_a_pair(pairs, device, from + 1);
    } else {
        assert(pairs[from] == (device, pairs[from].1));
    }
}

/// Devices that were different are different still, whatever numbers they have now.
pub proof fn renumbering_keeps_devices_apart(pairs: Seq<(u64, u64)>, a: u64, b: u64)
    requires
        one_to_one(pairs),
        known(pairs, a),
        known(pairs, b),
    ensures
        now(pairs, a) == now(pairs, b) <==> a == b,
{
    renumbered_from_a_pair(pairs, a, 0);
    renumbered_from_a_pair(pairs, b, 0);
    let i = choose|i: int| 0 <= i < pairs.len() && #[trigger] pairs[i] == (a, now(pairs, a));
    let j = choose|j: int| 0 <= j < pairs.len() && #[trigger] pairs[j] == (b, now(pairs, b));
    if now(pairs, a) == now(pairs, b) && i != j {
        if i < j {
            assert(pairs[i].1 != pairs[j].1);
        } else {
            assert(pairs[j].1 != pairs[i].1);
        }
    }
}

/// A device that some pair names is known.
pub proof fn pair_is_found(pairs: Seq<(u64, u64)>, device: u64, from: int, at: int)
    requires
        0 <= from <= at < pairs.len(),
        pairs[at].0 == device,
    ensures
        renumbered(pairs, device, from) is Some,
    decreases at - from,
{
    if pairs[from].0 != device {
        pair_is_found(pairs, device, from + 1, at);
    }
}

/// Where no two pairs share a number, each pair says what its old number is now; a device is known
/// exactly if some pair has its number.
pub proof fn every_pair_renumbers_its_device(pairs: Seq<(u64, u64)>, device: u64, k: int)
    requires
        one_to_one(pairs),
    ensures
        0 <= k < pairs.len() ==> known(pairs, pairs[k].0) && now(pairs, pairs[k].0) == pairs[k].1,
        known(pairs, device) <==> exists|i: int|
            0 <= i < pairs.len() && (#[trigger] pairs[i]).0 == device,
{
    if 0 <= k < pairs.len() {
        pair_is_found(pairs, pairs[k].0, 0, k);
        renumbered_from_a_pair(pairs, pairs[k].0, 0);
        let m = choose|m: int|
            0 <= m < pairs.len() && #[trigger] pairs[m] == (pairs[k].0, now(pairs, pairs[k].0));
        if m < k {
            assert(pairs[m].0 != pairs[k].0);
        } else if k < m {
            assert(pairs[k].0 != pairs[m].0);
        }
    }
    if known(pairs, device) {
        renumbered_from_a_pair(pairs, device, 0);
        let m = choose|m: int|
            0 <= m < pairs.len() && #[trigger] pairs[m] == (device, now(pairs, device));
        assert(pairs[m].0 == device);
    }
    if exists|i: int| 0 <= i < pairs.len() && (#[trigger] pairs[i]).0 == device {
        let m = choose|m: int| 0 <= m < pairs.len() && (#[trigger] pairs[m]).0 == device;
        pair_is_found(pairs, device, 0, m);
    }
}

/// Pairs are one to one if neither their old numbers nor their new numbers repeat, in whatever
/// order they come.
pub proof fn pairs_without_repeats_are_one_to_one(pairs: Seq<(u64, u64)>)
    ensures
        one_to_one(pairs) <==> pairs.map_values(|pair: (u64, u64)| pair.0).no_duplicates()
            && pairs.map_values(|pair: (u64, u64)| pair.1).no_duplicates(),
{
    let old_numbers = pairs.map_values(|pair: (u64, u64)| pair.0);
    let new_numbers = pairs.map_values(|pair: (u64, u64)| pair.1);
    if one_to_one(pairs) {
        assert forall|i: int, j: int|
            0 <= i < pairs.len() && 0 <= j < pairs.len() && i != j implies old_numbers[i]
            != old_numbers[j] && new_numbers[i] != new_numbers[j] by {
            if i < j {
                assert(pairs[i].0 != pairs[j].0 && pairs[i].1 != pairs[j].1);
            } else {
                assert(pairs[j].0 != pairs[i].0 && pairs[j].1 != pairs[i].1);
            }
        }
    }
    if old_numbers.no_duplicates() && new_numbers.no_duplicates() {
        assert forall|i: int, j: int|
            #![trigger pairs[i], pairs[j]]
            0 <= i < j < pairs.len() implies pairs[i].0 != pairs[j].0 && pairs[i].1
            != pairs[j].1 by {
            assert(old_numbers[i] != old_numbers[j]);
            assert(new_numbers[i] != new_numbers[j]);
        }
    }
}

} // verus!
