//! The canonical snapshot encoding can be read back: equal bytes come only
//! from snapshots that agree on every encoded field, so a change to any of
//! them changes what the state hash is computed from.

use crate::sim_snapshot::{
    combat_bytes, destination_bytes, kinematics_bytes, le_u32, le_u64, owner_bytes, pair_bytes, pairs_bytes,
    snapshot_bytes, structure_bytes, structures_bytes, target_bytes, unit_bytes, units_bytes,
    HomeObjectivePairSnapshot, StaticStructureSnapshot, UnitSnapshot,
};
use crate::tick::Tick;
use vstd::prelude::*;
use vstd::seq_lib::lemma_concat_associative;

verus! {

/// Splitting equal concatenations at equal lengths gives equal parts.
proof fn lemma_cancel<A>(a: Seq<A>, b: Seq<A>, c: Seq<A>, d: Seq<A>)
    requires
        a + b == c + d,
        a.len() == c.len(),
    ensures
        a == c,
        b == d,
{
    assert(a =~= (a + b).subrange(0, a.len() as int));
    assert(c =~= (c + d).subrange(0, c.len() as int));
    assert(b =~= (a + b).subrange(a.len() as int, (a + b).len() as int));
    assert(d =~= (c + d).subrange(c.len() as int, (c + d).len() as int));
}

proof fn lemma_le_u32_injective(x: u32, y: u32)
    requires
        le_u32(x) == le_u32(y),
    ensures
        x == y,
{
    assert(le_u32(x)[0] == le_u32(y)[0]);
    assert(le_u32(x)[1] == le_u32(y)[1]);
    assert(le_u32(x)[2] == le_u32(y)[2]);
    assert(le_u32(x)[3] == le_u32(y)[3]);
    assert(x / 16777216 < 256 && y / 16777216 < 256) by (bit_vector);
    assert(x == y) by (bit_vector)
        requires
            x % 256 == y % 256,
            (x / 256) % 256 == (y / 256) % 256,
            (x / 65536) % 256 == (y / 65536) % 256,
            x / 16777216 == y / 16777216,
    ;
}

proof fn lemma_le_u64_injective(x: u64, y: u64)
    requires
        le_u64(x) == le_u64(y),
    ensures
        x == y,
{
    lemma_cancel(
        le_u32((x % 4294967296) as u32),
        le_u32((x / 4294967296) as u32),
        le_u32((y % 4294967296) as u32),
        le_u32((y / 4294967296) as u32),
    );
    lemma_le_u32_injective((x % 4294967296) as u32, (y % 4294967296) as u32);
    lemma_le_u32_injective((x / 4294967296) as u32, (y / 4294967296) as u32);
    assert(x == y) by (bit_vector)
        requires
            (x % 4294967296) as u32 == (y % 4294967296) as u32,
            (x / 4294967296) as u32 == (y / 4294967296) as u32,
    ;
}

/// Peels a little-endian word off the front of two equal byte strings.
proof fn lemma_peel_u32(x: u32, r1: Seq<u8>, y: u32, r2: Seq<u8>)
    requires
        le_u32(x) + r1 == le_u32(y) + r2,
    ensures
        x == y,
        r1 == r2,
{
    lemma_cancel(le_u32(x), r1, le_u32(y), r2);
    lemma_le_u32_injective(x, y);
}

proof fn lemma_structure_injective(a: StaticStructureSnapshot, r1: Seq<u8>, b: StaticStructureSnapshot, r2: Seq<u8>)
    requires
        structure_bytes(a) + r1 == structure_bytes(b) + r2,
    ensures
        a == b,
        r1 == r2,
{
    let s1 = structure_bytes(a);
    let s2 = structure_bytes(b);
    assert(s1.len() == 23 && s2.len() == 23);
    lemma_cancel(s1, r1, s2, r2);
    let t1 = seq![a.owner, a.kind_tag] + le_u32(a.position_bits[0]) + le_u32(a.position_bits[1]) + le_u32(
        a.visual_radius_bits,
    ) + seq![a.hitbox_shape_tag] + le_u32(a.hitbox_radius_bits);
    let t2 = seq![b.owner, b.kind_tag] + le_u32(b.position_bits[0]) + le_u32(b.position_bits[1]) + le_u32(
        b.visual_radius_bits,
    ) + seq![b.hitbox_shape_tag] + le_u32(b.hitbox_radius_bits);
    assert(s1 =~= le_u32(a.id) + t1);
    assert(s2 =~= le_u32(b.id) + t2);
    lemma_peel_u32(a.id, t1, b.id, t2);
    assert(t1[0] == t2[0] && t1[1] == t2[1]);
    let u1 = le_u32(a.position_bits[1]) + le_u32(a.visual_radius_bits) + seq![a.hitbox_shape_tag] + le_u32(
        a.hitbox_radius_bits,
    );
    let u2 = le_u32(b.position_bits[1]) + le_u32(b.visual_radius_bits) + seq![b.hitbox_shape_tag] + le_u32(
        b.hitbox_radius_bits,
    );
    assert(t1.skip(2) =~= le_u32(a.position_bits[0]) + u1);
    assert(t2.skip(2) =~= le_u32(b.position_bits[0]) + u2);
    lemma_peel_u32(a.position_bits[0], u1, b.position_bits[0], u2);
    let v1 = le_u32(a.visual_radius_bits) + seq![a.hitbox_shape_tag] + le_u32(a.hitbox_radius_bits);
    let v2 = le_u32(b.visual_radius_bits) + seq![b.hitbox_shape_tag] + le_u32(b.hitbox_radius_bits);
    assert(u1 =~= le_u32(a.position_bits[1]) + v1);
    assert(u2 =~= le_u32(b.position_bits[1]) + v2);
    lemma_peel_u32(a.position_bits[1], v1, b.position_bits[1], v2);
    let w1 = seq![a.hitbox_shape_tag] + le_u32(a.hitbox_radius_bits);
    let w2 = seq![b.hitbox_shape_tag] + le_u32(b.hitbox_radius_bits);
    assert(v1 =~= le_u32(a.visual_radius_bits) + w1);
    assert(v2 =~= le_u32(b.visual_radius_bits) + w2);
    lemma_peel_u32(a.visual_radius_bits, w1, b.visual_radius_bits, w2);
    assert(w1[0] == w2[0]);
    assert(w1.skip(1) =~= le_u32(a.hitbox_radius_bits));
    assert(w2.skip(1) =~= le_u32(b.hitbox_radius_bits));
    lemma_le_u32_injective(a.hitbox_radius_bits, b.hitbox_radius_bits);
    assert(a.position_bits =~= b.position_bits);
}

/// A pair as the encoding sees it: whether its core is targetable is derived
/// from its state and is left out.
pub open spec fn pair_key(p: HomeObjectivePairSnapshot) -> HomeObjectivePairSnapshot {
    HomeObjectivePairSnapshot { core_targetable: false, ..p }
}

proof fn lemma_pair_injective(a: HomeObjectivePairSnapshot, r1: Seq<u8>, b: HomeObjectivePairSnapshot, r2: Seq<u8>)
    requires
        pair_bytes(a) + r1 == pair_bytes(b) + r2,
    ensures
        pair_key(a) == pair_key(b),
        r1 == r2,
{
    let s1 = pair_bytes(a);
    let s2 = pair_bytes(b);
    assert(s1.len() == 26 && s2.len() == 26);
    lemma_cancel(s1, r1, s2, r2);
    assert(s1[0] == s2[0]);
    let t1 = le_u32(a.relay_id) + seq![a.state_tag] + le_u32(a.breach_progress_ticks) + le_u32(
        a.exposure_ticks_remaining,
    ) + le_u32(a.core_health_current) + le_u32(a.core_health_maximum);
    let t2 = le_u32(b.relay_id) + seq![b.state_tag] + le_u32(b.breach_progress_ticks) + le_u32(
        b.exposure_ticks_remaining,
    ) + le_u32(b.core_health_current) + le_u32(b.core_health_maximum);
    assert(s1.skip(1) =~= le_u32(a.core_id) + t1);
    assert(s2.skip(1) =~= le_u32(b.core_id) + t2);
    lemma_peel_u32(a.core_id, t1, b.core_id, t2);
    let u1 = seq![a.state_tag] + le_u32(a.breach_progress_ticks) + le_u32(a.exposure_ticks_remaining) + le_u32(
        a.core_health_current,
    ) + le_u32(a.core_health_maximum);
    let u2 = seq![b.state_tag] + le_u32(b.breach_progress_ticks) + le_u32(b.exposure_ticks_remaining) + le_u32(
        b.core_health_current,
    ) + le_u32(b.core_health_maximum);
    assert(t1 =~= le_u32(a.relay_id) + u1);
    assert(t2 =~= le_u32(b.relay_id) + u2);
    lemma_peel_u32(a.relay_id, u1, b.relay_id, u2);
    assert(u1[0] == u2[0]);
    let v1 = le_u32(a.exposure_ticks_remaining) + le_u32(a.core_health_current) + le_u32(a.core_health_maximum);
    let v2 = le_u32(b.exposure_ticks_remaining) + le_u32(b.core_health_current) + le_u32(b.core_health_maximum);
    assert(u1.skip(1) =~= le_u32(a.breach_progress_ticks) + v1);
    assert(u2.skip(1) =~= le_u32(b.breach_progress_ticks) + v2);
    lemma_peel_u32(a.breach_progress_ticks, v1, b.breach_progress_ticks, v2);
    let w1 = le_u32(a.core_health_current) + le_u32(a.core_health_maximum);
    let w2 = le_u32(b.core_health_current) + le_u32(b.core_health_maximum);
    assert(v1 =~= le_u32(a.exposure_ticks_remaining) + w1);
    assert(v2 =~= le_u32(b.exposure_ticks_remaining) + w2);
    lemma_peel_u32(a.exposure_ticks_remaining, w1, b.exposure_ticks_remaining, w2);
    lemma_peel_u32(a.core_health_current, le_u32(a.core_health_maximum), b.core_health_current, le_u32(b.core_health_maximum));
    lemma_le_u32_injective(a.core_health_maximum, b.core_health_maximum);
}

proof fn lemma_structures_len(ss: Seq<StaticStructureSnapshot>)
    ensures
        structures_bytes(ss).len() == 23 * ss.len(),
    decreases ss.len(),
{
    if ss.len() > 0 {
        lemma_structures_len(ss.drop_last());
    }
}

proof fn lemma_pairs_len(ps: Seq<HomeObjectivePairSnapshot>)
    ensures
        pairs_bytes(ps).len() == 26 * ps.len(),
    decreases ps.len(),
{
    if ps.len() > 0 {
        lemma_pairs_len(ps.drop_last());
    }
}

proof fn lemma_structures_injective(s1: Seq<StaticStructureSnapshot>, s2: Seq<StaticStructureSnapshot>)
    requires
        s1.len() == s2.len(),
        structures_bytes(s1) == structures_bytes(s2),
    ensures
        s1 == s2,
    decreases s1.len(),
{
    if s1.len() > 0 {
        lemma_structures_len(s1.drop_last());
        lemma_structures_len(s2.drop_last());
        lemma_cancel(
            structures_bytes(s1.drop_last()),
            structure_bytes(s1.last()),
            structures_bytes(s2.drop_last()),
            structure_bytes(s2.last()),
        );
        lemma_structures_injective(s1.drop_last(), s2.drop_last());
        assert(structure_bytes(s1.last()) + Seq::<u8>::empty() =~= structure_bytes(s1.last()));
        assert(structure_bytes(s2.last()) + Seq::<u8>::empty() =~= structure_bytes(s2.last()));
        lemma_structure_injective(s1.last(), Seq::empty(), s2.last(), Seq::empty());
        assert(s1 =~= s1.drop_last().push(s1.last()));
        assert(s2 =~= s2.drop_last().push(s2.last()));
    } else {
        assert(s1 =~= s2);
    }
}

proof fn lemma_pairs_injective(p1: Seq<HomeObjectivePairSnapshot>, p2: Seq<HomeObjectivePairSnapshot>)
    requires
        p1.len() == p2.len(),
        pairs_bytes(p1) == pairs_bytes(p2),
    ensures
        forall|i: int| 0 <= i < p1.len() ==> #[trigger] pair_key(p1[i]) == pair_key(p2[i]),
    decreases p1.len(),
{
    if p1.len() > 0 {
        lemma_pairs_len(p1.drop_last());
        lemma_pairs_len(p2.drop_last());
        lemma_cancel(
            pairs_bytes(p1.drop_last()),
            pair_bytes(p1.last()),
            pairs_bytes(p2.drop_last()),
            pair_bytes(p2.last()),
        );
        lemma_pairs_injective(p1.drop_last(), p2.drop_last());
        assert(pair_bytes(p1.last()) + Seq::<u8>::empty() =~= pair_bytes(p1.last()));
        assert(pair_bytes(p2.last()) + Seq::<u8>::empty() =~= pair_bytes(p2.last()));
        lemma_pair_injective(p1.last(), Seq::empty(), p2.last(), Seq::empty());
        assert forall|i: int| 0 <= i < p1.len() implies #[trigger] pair_key(p1[i]) == pair_key(p2[i]) by {
            if i < p1.len() - 1 {
                assert(p1[i] == p1.drop_last()[i]);
                assert(p2[i] == p2.drop_last()[i]);
            }
        }
    }
}

/// Whether two units agree on every field that the encoding records (the
/// controller kind and the arrival thresholds are shared and left out).
pub open spec fn same_encoded_unit(a: UnitSnapshot, b: UnitSnapshot) -> bool {
    &&& a.id == b.id
    &&& a.owner == b.owner
    &&& a.position_bits == b.position_bits
    &&& a.velocity_bits == b.velocity_bits
    &&& a.heading_bits == b.heading_bits
    &&& a.angular_velocity_bits == b.angular_velocity_bits
    &&& a.active == b.active
    &&& a.hull_current == b.hull_current
    &&& a.hull_maximum == b.hull_maximum
    &&& a.turret_local_heading_bits == b.turret_local_heading_bits
    &&& a.turret_target == b.turret_target
    &&& a.turret_cooldown_ticks_remaining == b.turret_cooldown_ticks_remaining
    &&& a.destination_bits == b.destination_bits
}

proof fn lemma_owner(o1: Option<u8>, r1: Seq<u8>, o2: Option<u8>, r2: Seq<u8>)
    requires
        owner_bytes(o1) + r1 == owner_bytes(o2) + r2,
    ensures
        o1 == o2,
        r1 == r2,
{
    lemma_cancel(owner_bytes(o1), r1, owner_bytes(o2), r2);
    assert(owner_bytes(o1)[0] == owner_bytes(o2)[0]);
    assert(owner_bytes(o1)[1] == owner_bytes(o2)[1]);
}

proof fn lemma_target(t1: Option<(u8, u32)>, r1: Seq<u8>, t2: Option<(u8, u32)>, r2: Seq<u8>)
    requires
        target_bytes(t1) + r1 == target_bytes(t2) + r2,
    ensures
        t1 == t2,
        r1 == r2,
{
    assert((target_bytes(t1) + r1)[0] == target_bytes(t1)[0]);
    assert((target_bytes(t2) + r2)[0] == target_bytes(t2)[0]);
    assert(t1 is Some <==> t2 is Some);
    lemma_cancel(target_bytes(t1), r1, target_bytes(t2), r2);
    if let Some((tag1, id1)) = t1 {
        let (tag2, id2) = t2->0;
        assert(target_bytes(t1)[1] == target_bytes(t2)[1]);
        assert(target_bytes(t1) =~= seq![1u8, tag1] + le_u32(id1));
        assert(target_bytes(t2) =~= seq![1u8, tag2] + le_u32(id2));
        lemma_cancel(seq![1u8, tag1], le_u32(id1), seq![1u8, tag2], le_u32(id2));
        lemma_le_u32_injective(id1, id2);
    }
}

proof fn lemma_destination(d1: Option<[u32; 2]>, r1: Seq<u8>, d2: Option<[u32; 2]>, r2: Seq<u8>)
    requires
        destination_bytes(d1) + r1 == destination_bytes(d2) + r2,
    ensures
        d1 == d2,
        r1 == r2,
{
    assert((destination_bytes(d1) + r1)[0] == destination_bytes(d1)[0]);
    assert((destination_bytes(d2) + r2)[0] == destination_bytes(d2)[0]);
    assert(d1 is Some <==> d2 is Some);
    lemma_cancel(destination_bytes(d1), r1, destination_bytes(d2), r2);
    if let Some(a) = d1 {
        let b = d2->0;
        assert(destination_bytes(d1).skip(1) =~= le_u32(a[0]) + le_u32(a[1]));
        assert(destination_bytes(d2).skip(1) =~= le_u32(b[0]) + le_u32(b[1]));
        lemma_peel_u32(a[0], le_u32(a[1]), b[0], le_u32(b[1]));
        lemma_le_u32_injective(a[1], b[1]);
        assert(a =~= b);
    }
}

proof fn lemma_kinematics(a: UnitSnapshot, r1: Seq<u8>, b: UnitSnapshot, r2: Seq<u8>)
    requires
        kinematics_bytes(a) + r1 == kinematics_bytes(b) + r2,
    ensures
        a.position_bits == b.position_bits,
        a.velocity_bits == b.velocity_bits,
        a.heading_bits == b.heading_bits,
        a.angular_velocity_bits == b.angular_velocity_bits,
        r1 == r2,
{
    let k1 = kinematics_bytes(a);
    let k2 = kinematics_bytes(b);
    assert(k1.len() == 24 && k2.len() == 24);
    lemma_cancel(k1, r1, k2, r2);
    let f1 = seq![a.position_bits[0], a.position_bits[1], a.velocity_bits[0], a.velocity_bits[1], a.heading_bits, a.angular_velocity_bits];
    let f2 = seq![b.position_bits[0], b.position_bits[1], b.velocity_bits[0], b.velocity_bits[1], b.heading_bits, b.angular_velocity_bits];
    assert forall|i: int| 0 <= i < 6 implies #[trigger] f1[i] == f2[i] by {
        assert(k1.subrange(4 * i, 4 * i + 4) =~= le_u32(f1[i]));
        assert(k2.subrange(4 * i, 4 * i + 4) =~= le_u32(f2[i]));
        lemma_le_u32_injective(f1[i], f2[i]);
    }
    assert(f1[0] == f2[0] && f1[1] == f2[1] && f1[2] == f2[2] && f1[3] == f2[3]);
    assert(f1[4] == f2[4] && f1[5] == f2[5]);
    assert(a.position_bits =~= b.position_bits);
    assert(a.velocity_bits =~= b.velocity_bits);
}

proof fn lemma_combat(a: UnitSnapshot, r1: Seq<u8>, b: UnitSnapshot, r2: Seq<u8>)
    requires
        combat_bytes(a) + r1 == combat_bytes(b) + r2,
    ensures
        a.active == b.active,
        a.hull_current == b.hull_current,
        a.hull_maximum == b.hull_maximum,
        a.turret_local_heading_bits == b.turret_local_heading_bits,
        a.turret_target == b.turret_target,
        a.turret_cooldown_ticks_remaining == b.turret_cooldown_ticks_remaining,
        r1 == r2,
{
    let act1 = seq![if a.active { 1u8 } else { 0u8 }];
    let act2 = seq![if b.active { 1u8 } else { 0u8 }];
    let e1 = le_u32(a.turret_cooldown_ticks_remaining) + r1;
    let e2 = le_u32(b.turret_cooldown_ticks_remaining) + r2;
    let d1 = target_bytes(a.turret_target) + e1;
    let d2 = target_bytes(b.turret_target) + e2;
    let c1 = le_u32(a.turret_local_heading_bits) + d1;
    let c2 = le_u32(b.turret_local_heading_bits) + d2;
    let m1 = le_u32(a.hull_maximum) + c1;
    let m2 = le_u32(b.hull_maximum) + c2;
    let h1 = le_u32(a.hull_current) + m1;
    let h2 = le_u32(b.hull_current) + m2;
    lemma_combat_shape(a, r1);
    lemma_combat_shape(b, r2);
    lemma_cancel(act1, h1, act2, h2);
    assert(act1[0] == act2[0]);
    lemma_peel_u32(a.hull_current, m1, b.hull_current, m2);
    lemma_peel_u32(a.hull_maximum, c1, b.hull_maximum, c2);
    lemma_peel_u32(a.turret_local_heading_bits, d1, b.turret_local_heading_bits, d2);
    lemma_target(a.turret_target, e1, b.turret_target, e2);
    lemma_peel_u32(a.turret_cooldown_ticks_remaining, r1, b.turret_cooldown_ticks_remaining, r2);
}

/// The combat bytes followed by `r`, regrouped from the front.
proof fn lemma_combat_shape(a: UnitSnapshot, r: Seq<u8>)
    ensures
        combat_bytes(a) + r == seq![if a.active { 1u8 } else { 0u8 }] + (le_u32(a.hull_current) + (le_u32(
            a.hull_maximum,
        ) + (le_u32(a.turret_local_heading_bits) + (target_bytes(a.turret_target) + (le_u32(
            a.turret_cooldown_ticks_remaining,
        ) + r))))),
{
    let p0 = seq![if a.active { 1u8 } else { 0u8 }];
    let p1 = le_u32(a.hull_current);
    let p2 = le_u32(a.hull_maximum);
    let p3 = le_u32(a.turret_local_heading_bits);
    let p4 = target_bytes(a.turret_target);
    let p5 = le_u32(a.turret_cooldown_ticks_remaining);
    lemma_concat_associative(p0 + p1 + p2 + p3 + p4, p5, r);
    lemma_concat_associative(p0 + p1 + p2 + p3, p4, p5 + r);
    lemma_concat_associative(p0 + p1 + p2, p3, p4 + (p5 + r));
    lemma_concat_associative(p0 + p1, p2, p3 + (p4 + (p5 + r)));
    lemma_concat_associative(p0, p1, p2 + (p3 + (p4 + (p5 + r))));
}

/// The unit bytes followed by `r`, regrouped from the front.
proof fn lemma_unit_shape(a: UnitSnapshot, r: Seq<u8>)
    ensures
        unit_bytes(a) + r == le_u32(a.id) + (owner_bytes(a.owner) + (kinematics_bytes(a) + (combat_bytes(a) + (
        destination_bytes(a.destination_bits) + r)))),
{
    let p0 = le_u32(a.id);
    let p1 = owner_bytes(a.owner);
    let p2 = kinematics_bytes(a);
    let p3 = combat_bytes(a);
    let p4 = destination_bytes(a.destination_bits);
    lemma_concat_associative(p0 + p1 + p2 + p3, p4, r);
    lemma_concat_associative(p0 + p1 + p2, p3, p4 + r);
    lemma_concat_associative(p0 + p1, p2, p3 + (p4 + r));
    lemma_concat_associative(p0, p1, p2 + (p3 + (p4 + r)));
}

proof fn lemma_unit(a: UnitSnapshot, r1: Seq<u8>, b: UnitSnapshot, r2: Seq<u8>)
    requires
        unit_bytes(a) + r1 == unit_bytes(b) + r2,
    ensures
        same_encoded_unit(a, b),
        r1 == r2,
{
    let e1 = destination_bytes(a.destination_bits) + r1;
    let e2 = destination_bytes(b.destination_bits) + r2;
    let c1 = combat_bytes(a) + e1;
    let c2 = combat_bytes(b) + e2;
    let k1 = kinematics_bytes(a) + c1;
    let k2 = kinematics_bytes(b) + c2;
    let o1 = owner_bytes(a.owner) + k1;
    let o2 = owner_bytes(b.owner) + k2;
    lemma_unit_shape(a, r1);
    lemma_unit_shape(b, r2);
    lemma_peel_u32(a.id, o1, b.id, o2);
    lemma_owner(a.owner, k1, b.owner, k2);
    lemma_kinematics(a, c1, b, c2);
    lemma_combat(a, e1, b, e2);
    lemma_destination(a.destination_bits, r1, b.destination_bits, r2);
}

proof fn lemma_empty_sides<A>(x: Seq<A>)
    ensures
        Seq::<A>::empty() + x == x,
        x + Seq::<A>::empty() == x,
{
    assert(Seq::<A>::empty() + x =~= x);
    assert(x + Seq::<A>::empty() =~= x);
}

proof fn lemma_drop_both_ends<A>(s: Seq<A>)
    requires
        s.len() > 1,
    ensures
        s.drop_last().drop_first() == s.drop_first().drop_last(),
        s.drop_last()[0] == s[0],
        s.drop_first().last() == s.last(),
{
    assert(s.drop_last().drop_first() =~= s.drop_first().drop_last());
}

proof fn lemma_units_front(us: Seq<UnitSnapshot>)
    requires
        us.len() > 0,
    ensures
        units_bytes(us) == unit_bytes(us[0]) + units_bytes(us.drop_first()),
    decreases us.len(),
{
    let l = unit_bytes(us.last());
    if us.len() == 1 {
        assert(us.drop_last().len() == 0);
        assert(us.drop_first().len() == 0);
        assert(us.last() == us[0]);
        assert(units_bytes(us.drop_last()) == Seq::<u8>::empty());
        assert(units_bytes(us.drop_first()) == Seq::<u8>::empty());
        assert(units_bytes(us) == units_bytes(us.drop_last()) + l);
        lemma_empty_sides(l);
    } else {
        lemma_units_front(us.drop_last());
        lemma_drop_both_ends(us);
        let r = units_bytes(us.drop_first().drop_last());
        assert(units_bytes(us) == units_bytes(us.drop_last()) + l);
        assert(units_bytes(us.drop_last()) == unit_bytes(us[0]) + r);
        assert(units_bytes(us.drop_first()) == r + l);
        lemma_concat_associative(unit_bytes(us[0]), r, l);
    }
}

proof fn lemma_units_injective(u1: Seq<UnitSnapshot>, r1: Seq<u8>, u2: Seq<UnitSnapshot>, r2: Seq<u8>)
    requires
        u1.len() == u2.len(),
        units_bytes(u1) + r1 == units_bytes(u2) + r2,
    ensures
        forall|i: int| 0 <= i < u1.len() ==> #[trigger] same_encoded_unit(u1[i], u2[i]),
        r1 == r2,
    decreases u1.len(),
{
    if u1.len() == 0 {
        lemma_empty_sides(r1);
        lemma_empty_sides(r2);
    } else {
        lemma_units_front(u1);
        lemma_units_front(u2);
        let t1 = units_bytes(u1.drop_first()) + r1;
        let t2 = units_bytes(u2.drop_first()) + r2;
        lemma_concat_associative(unit_bytes(u1[0]), units_bytes(u1.drop_first()), r1);
        lemma_concat_associative(unit_bytes(u2[0]), units_bytes(u2.drop_first()), r2);
        lemma_unit(u1[0], t1, u2[0], t2);
        lemma_units_injective(u1.drop_first(), r1, u2.drop_first(), r2);
        assert forall|i: int| 0 <= i < u1.len() implies #[trigger] same_encoded_unit(u1[i], u2[i]) by {
            if i > 0 {
                assert(u1[i] == u1.drop_first()[i - 1]);
                assert(u2[i] == u2.drop_first()[i - 1]);
            }
        }
    }
}

/// The snapshot bytes regrouped from the front.
proof fn lemma_snapshot_shape(
    r: u32,
    t: Tick,
    ss: Seq<StaticStructureSnapshot>,
    ps: Seq<HomeObjectivePairSnapshot>,
    us: Seq<UnitSnapshot>,
)
    ensures
        snapshot_bytes(r, t, ss, ps, us) == le_u32(r) + (le_u64(t.0) + (le_u32(ss.len() as u32) + (structures_bytes(
            ss,
        ) + (le_u32(ps.len() as u32) + (pairs_bytes(ps) + (le_u32(us.len() as u32) + units_bytes(us))))))),
{
    let p0 = le_u32(r);
    let p1 = le_u64(t.0);
    let p2 = le_u32(ss.len() as u32);
    let p3 = structures_bytes(ss);
    let p4 = le_u32(ps.len() as u32);
    let p5 = pairs_bytes(ps);
    let p6 = le_u32(us.len() as u32);
    let p7 = units_bytes(us);
    lemma_concat_associative(p0 + p1 + p2 + p3 + p4 + p5, p6, p7);
    lemma_concat_associative(p0 + p1 + p2 + p3 + p4, p5, p6 + p7);
    lemma_concat_associative(p0 + p1 + p2 + p3, p4, p5 + (p6 + p7));
    lemma_concat_associative(p0 + p1 + p2, p3, p4 + (p5 + (p6 + p7)));
    lemma_concat_associative(p0 + p1, p2, p3 + (p4 + (p5 + (p6 + p7))));
    lemma_concat_associative(p0, p1, p2 + (p3 + (p4 + (p5 + (p6 + p7)))));
}

/// Snapshots with equal canonical bytes agree on the world radius, the
/// tick, every structure, every home pair (apart from the derived
/// targetability of its core) and every encoded field of every unit, in
/// order.
pub proof fn lemma_snapshot_bytes_injective(
    r1: u32,
    t1: Tick,
    s1: Seq<StaticStructureSnapshot>,
    p1: Seq<HomeObjectivePairSnapshot>,
    u1: Seq<UnitSnapshot>,
    r2: u32,
    t2: Tick,
    s2: Seq<StaticStructureSnapshot>,
    p2: Seq<HomeObjectivePairSnapshot>,
    u2: Seq<UnitSnapshot>,
)
    requires
        s1.len() <= u32::MAX && p1.len() <= u32::MAX && u1.len() <= u32::MAX,
        s2.len() <= u32::MAX && p2.len() <= u32::MAX && u2.len() <= u32::MAX,
        snapshot_bytes(r1, t1, s1, p1, u1) == snapshot_bytes(r2, t2, s2, p2, u2),
    ensures
        r1 == r2,
        t1 == t2,
        s1 == s2,
        p1.len() == p2.len(),
        forall|i: int| 0 <= i < p1.len() ==> #[trigger] pair_key(p1[i]) == pair_key(p2[i]),
        u1.len() == u2.len(),
        forall|i: int| 0 <= i < u1.len() ==> #[trigger] same_encoded_unit(u1[i], u2[i]),
{
    let g1 = le_u32(u1.len() as u32) + units_bytes(u1);
    let g2 = le_u32(u2.len() as u32) + units_bytes(u2);
    let f1 = pairs_bytes(p1) + g1;
    let f2 = pairs_bytes(p2) + g2;
    let e1 = le_u32(p1.len() as u32) + f1;
    let e2 = le_u32(p2.len() as u32) + f2;
    let d1 = structures_bytes(s1) + e1;
    let d2 = structures_bytes(s2) + e2;
    let c1 = le_u32(s1.len() as u32) + d1;
    let c2 = le_u32(s2.len() as u32) + d2;
    let b1 = le_u64(t1.0) + c1;
    let b2 = le_u64(t2.0) + c2;
    lemma_snapshot_shape(r1, t1, s1, p1, u1);
    lemma_snapshot_shape(r2, t2, s2, p2, u2);
    lemma_peel_u32(r1, b1, r2, b2);
    assert(le_u64(t1.0).len() == 8 && le_u64(t2.0).len() == 8);
    lemma_cancel(le_u64(t1.0), c1, le_u64(t2.0), c2);
    lemma_le_u64_injective(t1.0, t2.0);
    assert(t1 == t2);
    lemma_peel_u32(s1.len() as u32, d1, s2.len() as u32, d2);
    lemma_structures_len(s1);
    lemma_structures_len(s2);
    lemma_cancel(structures_bytes(s1), e1, structures_bytes(s2), e2);
    lemma_structures_injective(s1, s2);
    lemma_peel_u32(p1.len() as u32, f1, p2.len() as u32, f2);
    lemma_pairs_len(p1);
    lemma_pairs_len(p2);
    lemma_cancel(pairs_bytes(p1), g1, pairs_bytes(p2), g2);
    lemma_pairs_injective(p1, p2);
    lemma_peel_u32(u1.len() as u32, units_bytes(u1), u2.len() as u32, units_bytes(u2));
    lemma_empty_sides(units_bytes(u1));
    lemma_empty_sides(units_bytes(u2));
    lemma_units_injective(u1, Seq::empty(), u2, Seq::empty());
}

} // verus!



