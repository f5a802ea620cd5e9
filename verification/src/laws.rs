//! The laws of generation: what holds of every synthesized unit.  Each
//! public proof function states one guarantee of the policy over the
//! contract of [`crate::synth::build_enum_from`].

use vstd::prelude::*;
use crate::decl::{EnumVariant, v_single, v_multi, v_text_payload};
use crate::policy::{v_skipped, v_skip_from, v_desc, v_cause, v_conversion};
use crate::synth::{ArmPlan, DisplayArm, DescriptionArm, GeneratedUnit, arm_indices, conversion_indices, cause_count, arm_matches, unit_matches, all_supported};

verus! {

/// The arm indices point into the variant list and are strictly increasing.
pub proof fn lemma_arm_indices_bounds(vs: Seq<EnumVariant>)
    ensures
        forall|j: int|
            0 <= j < arm_indices(vs).len() ==> 0 <= #[trigger] arm_indices(vs)[j] < vs.len(),
        forall|j: int, k: int|
            0 <= j < k < arm_indices(vs).len() ==> arm_indices(vs)[j] < arm_indices(vs)[k],
    decreases vs.len(),
{
    if vs.len() > 0 {
        lemma_arm_indices_bounds(vs.drop_last());
        let pre = arm_indices(vs.drop_last());
        let s = arm_indices(vs);
        assert(vs.drop_last().len() == vs.len() - 1);
        if !v_skipped(vs.last()) {
            assert(s == pre.push(vs.len() - 1));
            assert forall|j: int| 0 <= j < s.len() implies 0 <= #[trigger] s[j] < vs.len() by {
                if j < pre.len() {
                    assert(s[j] == pre[j]);
                } else {
                    assert(s[j] == vs.len() - 1);
                }
            }
            assert forall|j: int, k: int| 0 <= j < k < s.len() implies s[j] < s[k] by {
                assert(s[j] == pre[j]);
                if k < pre.len() {
                    assert(s[k] == pre[k]);
                } else {
                    assert(s[k] == vs.len() - 1);
                }
            }
        }
    }
}

/// The conversion indices point into the variant list and are strictly
/// increasing.
pub proof fn lemma_conversion_indices_bounds(vs: Seq<EnumVariant>)
    ensures
        forall|j: int|
            0 <= j < conversion_indices(vs).len() ==> 0 <= #[trigger] conversion_indices(vs)[j]
                < vs.len(),
        forall|j: int, k: int|
            0 <= j < k < conversion_indices(vs).len() ==> conversion_indices(vs)[j]
                < conversion_indices(vs)[k],
    decreases vs.len(),
{
    if vs.len() > 0 {
        lemma_conversion_indices_bounds(vs.drop_last());
        let pre = conversion_indices(vs.drop_last());
        let s = conversion_indices(vs);
        assert(vs.drop_last().len() == vs.len() - 1);
        if v_conversion(vs.last()) {
            assert(s == pre.push(vs.len() - 1));
            assert forall|j: int| 0 <= j < s.len() implies 0 <= #[trigger] s[j] < vs.len() by {
                if j < pre.len() {
                    assert(s[j] == pre[j]);
                } else {
                    assert(s[j] == vs.len() - 1);
                }
            }
            assert forall|j: int, k: int| 0 <= j < k < s.len() implies s[j] < s[k] by {
                assert(s[j] == pre[j]);
                if k < pre.len() {
                    assert(s[k] == pre[k]);
                } else {
                    assert(s[k] == vs.len() - 1);
                }
            }
        }
    }
}

/// A variant index appears among the arm indices exactly when the variant is
/// not skipped.
pub proof fn lemma_arm_indices_membership(vs: Seq<EnumVariant>, i: int)
    requires
        0 <= i < vs.len(),
    ensures
        arm_indices(vs).contains(i) <==> !v_skipped(vs[i]),
    decreases vs.len(),
{
    let pre = arm_indices(vs.drop_last());
    if i == vs.len() - 1 {
        lemma_arm_indices_bounds(vs.drop_last());
        if !v_skipped(vs[i]) {
            assert(arm_indices(vs)[arm_indices(vs).len() - 1] == i);
        } else {
            if arm_indices(vs).contains(i) {
                let j = choose|j: int| 0 <= j < pre.len() && pre[j] == i;
                assert(0 <= j < vs.drop_last().len());
                assert(false);
            }
        }
    } else {
        lemma_arm_indices_membership(vs.drop_last(), i);
        assert(vs.drop_last()[i] == vs[i]);
        if v_skipped(vs.last()) {
            assert(arm_indices(vs) == pre);
        } else {
            if pre.contains(i) {
                let j = choose|j: int| 0 <= j < pre.len() && pre[j] == i;
                assert(arm_indices(vs)[j] == i);
            }
            if arm_indices(vs).contains(i) {
                let j = choose|j: int|
                    0 <= j < arm_indices(vs).len() && arm_indices(vs)[j] == i;
                if j < pre.len() {
                    assert(pre[j] == i);
                }
            }
        }
    }
}

/// A variant index appears among the conversion indices exactly when the
/// variant qualifies for a conversion.
pub proof fn lemma_conversion_indices_membership(vs: Seq<EnumVariant>, i: int)
    requires
        0 <= i < vs.len(),
    ensures
        conversion_indices(vs).contains(i) <==> v_conversion(vs[i]),
    decreases vs.len(),
{
    let pre = conversion_indices(vs.drop_last());
    if i == vs.len() - 1 {
        lemma_conversion_indices_bounds(vs.drop_last());
        if v_conversion(vs[i]) {
            assert(conversion_indices(vs)[conversion_indices(vs).len() - 1] == i);
        } else {
            if conversion_indices(vs).contains(i) {
                let j = choose|j: int| 0 <= j < pre.len() && pre[j] == i;
                assert(0 <= j < vs.drop_last().len());
                assert(false);
            }
        }
    } else {
        lemma_conversion_indices_membership(vs.drop_last(), i);
        assert(vs.drop_last()[i] == vs[i]);
        if !v_conversion(vs.last()) {
            assert(conversion_indices(vs) == pre);
        } else {
            if pre.contains(i) {
                let j = choose|j: int| 0 <= j < pre.len() && pre[j] == i;
                assert(conversion_indices(vs)[j] == i);
            }
            if conversion_indices(vs).contains(i) {
                let j = choose|j: int|
                    0 <= j < conversion_indices(vs).len() && conversion_indices(vs)[j] == i;
                if j < pre.len() {
                    assert(pre[j] == i);
                }
            }
        }
    }
}

/// Every non-skipped variant owns exactly one generated arm, and that arm
/// follows the per-variant policy.
pub proof fn lemma_arm_of_variant(vs: Seq<EnumVariant>, u: GeneratedUnit, i: int) -> (j: int)
    requires
        unit_matches(vs, u),
        0 <= i < vs.len(),
        !v_skipped(vs[i]),
    ensures
        0 <= j < u.arms@.len(),
        u.arms@[j].variant as int == i,
        arm_matches(vs[i], u.arms@[j]),
        forall|k: int|
            0 <= k < u.arms@.len() && (#[trigger] u.arms@[k]).variant as int == i ==> k == j,
{
    lemma_arm_indices_membership(vs, i);
    lemma_arm_indices_bounds(vs);
    let j = choose|j: int| 0 <= j < arm_indices(vs).len() && arm_indices(vs)[j] == i;
    assert(u.arms@[j].variant as int == i);
    assert forall|k: int|
        0 <= k < u.arms@.len() && (#[trigger] u.arms@[k]).variant as int == i implies k == j by {
        assert(arm_indices(vs)[k] == i);
        if k < j {
            assert(arm_indices(vs)[k] < arm_indices(vs)[j]);
        }
        if j < k {
            assert(arm_indices(vs)[j] < arm_indices(vs)[k]);
        }
    }
    j
}

/// Law: an enum whose variants carry no markers at all generates an arm for
/// every variant in order, a conversion for exactly the single-payload
/// variants, and the default display and description forms: the payload's
/// display and description (or the payload itself, for a text payload) for
/// single-payload variants, the bare variant name for unit variants.
pub proof fn lemma_unmarked_generation(vs: Seq<EnumVariant>, u: GeneratedUnit, i: int)
    requires
        unit_matches(vs, u),
        all_supported(vs),
        forall|k: int| 0 <= k < vs.len() ==> (#[trigger] vs[k]).markers@.len() == 0,
        0 <= i < vs.len(),
    ensures
        u.arms@.len() == vs.len(),
        u.arms@[i].variant as int == i,
        v_single(vs[i]) ==> conversion_indices(vs).contains(i),
        !v_single(vs[i]) ==> forall|c: int|
            0 <= c < u.conversions@.len() ==> (#[trigger] u.conversions@[c]) as int != i,
        v_single(vs[i]) ==> u.arms@[i].display is Payload,
        !v_single(vs[i]) ==> u.arms@[i].display is BareName,
        v_single(vs[i]) && v_text_payload(vs[i]) ==> u.arms@[i].description is PayloadText,
        v_single(vs[i]) && !v_text_payload(vs[i]) ==> u.arms@[i].description
            is PayloadDescription,
        !v_single(vs[i]) ==> u.arms@[i].description is BareName,
{
    lemma_arm_indices_identity(vs);
    lemma_conversion_indices_membership(vs, i);
    assert(u.arms@[i].variant as int == arm_indices(vs)[i]);
    assert(arm_matches(vs[i], u.arms@[i]));
    if !v_single(vs[i]) {
        assert forall|c: int|
            0 <= c < u.conversions@.len() implies (#[trigger] u.conversions@[c]) as int != i by {
            if u.conversions@[c] as int == i {
                assert(conversion_indices(vs)[c] == i);
                assert(conversion_indices(vs).contains(i));
            }
        }
    }
}

/// With no variant skipped, the arm indices are the identity over the
/// variant list.
pub proof fn lemma_arm_indices_identity(vs: Seq<EnumVariant>)
    requires
        forall|k: int| 0 <= k < vs.len() ==> !v_skipped(#[trigger] vs[k]),
    ensures
        arm_indices(vs).len() == vs.len(),
        forall|j: int| 0 <= j < vs.len() ==> #[trigger] arm_indices(vs)[j] == j,
    decreases vs.len(),
{
    if vs.len() > 0 {
        assert forall|k: int|
            0 <= k < vs.drop_last().len() implies !v_skipped(#[trigger] vs.drop_last()[k]) by {
            assert(vs.drop_last()[k] == vs[k]);
        }
        lemma_arm_indices_identity(vs.drop_last());
    }
}

/// Law: a variant marked `skip` contributes nothing — no conversion and no
/// arm in any of the display, description and cause fragments.
pub proof fn lemma_skip_excluded(vs: Seq<EnumVariant>, u: GeneratedUnit, i: int)
    requires
        unit_matches(vs, u),
        0 <= i < vs.len(),
        v_skipped(vs[i]),
    ensures
        forall|j: int| 0 <= j < u.arms@.len() ==> (#[trigger] u.arms@[j]).variant as int != i,
        forall|j: int|
            0 <= j < u.conversions@.len() ==> (#[trigger] u.conversions@[j]) as int != i,
{
    lemma_arm_indices_membership(vs, i);
    lemma_conversion_indices_membership(vs, i);
    assert forall|j: int|
        0 <= j < u.arms@.len() implies (#[trigger] u.arms@[j]).variant as int != i by {
        if u.arms@[j].variant as int == i {
            assert(arm_indices(vs)[j] == i);
            assert(arm_indices(vs).contains(i));
        }
    }
    assert forall|j: int|
        0 <= j < u.conversions@.len() implies (#[trigger] u.conversions@[j]) as int != i by {
        if u.conversions@[j] as int == i {
            assert(conversion_indices(vs)[j] == i);
            assert(conversion_indices(vs).contains(i));
        }
    }
}

/// Law: the arm policy reads only a variant's shape, its desc literal and
/// its skip status.  Two variants that agree on those receive interchangeable
/// arms, whatever their other markers — `skip_from` included — say.
pub proof fn lemma_arm_policy_independent(v1: EnumVariant, v2: EnumVariant, a: ArmPlan)
    requires
        v_single(v1) == v_single(v2),
        v_text_payload(v1) == v_text_payload(v2),
        v_desc(v1) == v_desc(v2),
        v_skipped(v1) == v_skipped(v2),
    ensures
        arm_matches(v1, a) == arm_matches(v2, a),
{
}

/// Law: `skip_from` on a single-payload variant suppresses exactly the
/// conversion; the variant still owns its one arm, and that arm follows the
/// ordinary policy.
pub proof fn lemma_skip_from_only_conversion(vs: Seq<EnumVariant>, u: GeneratedUnit, i: int)
    requires
        unit_matches(vs, u),
        0 <= i < vs.len(),
        !v_skipped(vs[i]),
        v_skip_from(vs[i]),
        v_single(vs[i]),
    ensures
        forall|j: int|
            0 <= j < u.conversions@.len() ==> (#[trigger] u.conversions@[j]) as int != i,
        exists|j: int|
            0 <= j < u.arms@.len() && (#[trigger] u.arms@[j]).variant as int == i && arm_matches(
                vs[i],
                u.arms@[j],
            ),
{
    lemma_conversion_indices_membership(vs, i);
    assert forall|j: int|
        0 <= j < u.conversions@.len() implies (#[trigger] u.conversions@[j]) as int != i by {
        if u.conversions@[j] as int == i {
            assert(conversion_indices(vs)[j] == i);
            assert(conversion_indices(vs).contains(i));
        }
    }
    let j = lemma_arm_of_variant(vs, u, i);
    assert(u.arms@[j].variant as int == i && arm_matches(vs[i], u.arms@[j]));
}

/// Law: a `desc = "X"` marker fixes the variant's description to exactly X,
/// and its display to X for a unit variant, to "X: payload" for a
/// single-payload variant.
pub proof fn lemma_desc_marker(vs: Seq<EnumVariant>, u: GeneratedUnit, i: int, d: Seq<char>)
    requires
        unit_matches(vs, u),
        0 <= i < vs.len(),
        !v_skipped(vs[i]),
        !v_multi(vs[i]),
        v_desc(vs[i]) == Some(d),
    ensures
        exists|j: int|
            {
                &&& 0 <= j < u.arms@.len()
                &&& (#[trigger] u.arms@[j]).variant as int == i
                &&& u.arms@[j].description matches DescriptionArm::Literal(s) && s@ == d
                &&& (v_single(vs[i]) ==> (u.arms@[j].display matches DisplayArm::DescAndPayload(
                    t,
                ) && t@ == d))
                &&& (!v_single(vs[i]) ==> (u.arms@[j].display matches DisplayArm::DescOnly(t)
                    && t@ == d))
            },
{
    let j = lemma_arm_of_variant(vs, u, i);
    assert(0 <= j < u.arms@.len() && u.arms@[j].variant as int == i);
}

/// Law: a generated arm carries an explicit cause exactly when its variant
/// has a single, non-text payload.
pub proof fn lemma_cause_arm(vs: Seq<EnumVariant>, u: GeneratedUnit, i: int)
    requires
        unit_matches(vs, u),
        0 <= i < vs.len(),
        !v_skipped(vs[i]),
    ensures
        exists|j: int|
            0 <= j < u.arms@.len() && (#[trigger] u.arms@[j]).variant as int == i
                && u.arms@[j].cause == (v_single(vs[i]) && !v_text_payload(vs[i])),
{
    let j = lemma_arm_of_variant(vs, u, i);
    assert(0 <= j < u.arms@.len() && u.arms@[j].variant as int == i && u.arms@[j].cause == v_cause(
        vs[i],
    ));
}

/// The explicit cause arms never outnumber the generated arms, and they
/// reach that number exactly when every non-skipped variant contributes one.
pub proof fn lemma_cause_count_vs_arms(vs: Seq<EnumVariant>)
    ensures
        cause_count(vs) <= arm_indices(vs).len(),
        (cause_count(vs) == arm_indices(vs).len()) <==> (forall|i: int|
            0 <= i < vs.len() ==> (v_skipped(#[trigger] vs[i]) || v_cause(vs[i]))),
    decreases vs.len(),
{
    if vs.len() > 0 {
        lemma_cause_count_vs_arms(vs.drop_last());
        assert forall|k: int| 0 <= k < vs.len() - 1 implies vs.drop_last()[k] == vs[k] by {}
        assert(vs.last() == vs[vs.len() - 1]);
    }
}

/// Law: the cause catch-all is present exactly when some generated arm
/// carries no explicit cause.
pub proof fn lemma_cause_catchall(vs: Seq<EnumVariant>, u: GeneratedUnit)
    requires
        unit_matches(vs, u),
    ensures
        u.cause_catchall <==> exists|j: int|
            0 <= j < u.arms@.len() && !(#[trigger] u.arms@[j]).cause,
{
    lemma_cause_count_vs_arms(vs);
    if u.cause_catchall {
        let i = choose|i: int|
            0 <= i < vs.len() && !(v_skipped(#[trigger] vs[i]) || v_cause(vs[i]));
        let j = lemma_arm_of_variant(vs, u, i);
        assert(!u.arms@[j].cause);
    } else {
        if exists|j: int| 0 <= j < u.arms@.len() && !(#[trigger] u.arms@[j]).cause {
            let j = choose|j: int| 0 <= j < u.arms@.len() && !(#[trigger] u.arms@[j]).cause;
            let i = u.arms@[j].variant as int;
            assert(!v_skipped(vs[i]) && u.arms@[j].cause == v_cause(vs[i]));
            assert(false);
        }
    }
}

/// Law: every non-skipped, non-skip_from single-payload variant receives
/// exactly one conversion, and it targets that variant itself.  Together
/// with the contract of [`GeneratedUnit::convert`], converting a payload and
/// matching it back out rebuilds exactly the directly constructed value.
pub proof fn lemma_conversion_round_trip(vs: Seq<EnumVariant>, u: GeneratedUnit, i: int) -> (j:
    int)
    requires
        unit_matches(vs, u),
        0 <= i < vs.len(),
        v_conversion(vs[i]),
    ensures
        0 <= j < u.conversions@.len(),
        u.conversions@[j] as int == i,
        forall|k: int|
            0 <= k < u.conversions@.len() && (#[trigger] u.conversions@[k]) as int == i ==> k == j,
{
    lemma_conversion_indices_membership(vs, i);
    lemma_conversion_indices_bounds(vs);
    let j = choose|j: int|
        0 <= j < conversion_indices(vs).len() && conversion_indices(vs)[j] == i;
    assert(u.conversions@[j] as int == i);
    assert forall|k: int|
        0 <= k < u.conversions@.len() && (#[trigger] u.conversions@[k]) as int == i implies k
        == j by {
        assert(conversion_indices(vs)[k] == i);
        if k < j {
            assert(conversion_indices(vs)[k] < conversion_indices(vs)[j]);
        }
        if j < k {
            assert(conversion_indices(vs)[j] < conversion_indices(vs)[k]);
        }
    }
    j
}

} // verus!
