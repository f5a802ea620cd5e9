//! The core of the crate: the classifier and code synthesizer.  It walks the
//! declaration's variants in order and accumulates a plan of the four
//! generated fragments — the conversions, and the display, description and
//! cause match arms — exactly as the per-variant policy dictates.

use vstd::prelude::*;
use crate::decl::{Declaration, DeclBody, EnumVariant, VariantShape, is_string_type, v_single, v_multi, v_text_payload};
use crate::policy::{scan_markers, v_skipped, v_skip_from, v_desc, v_cause, v_conversion};

verus! {

/// How the display arm of one variant renders.
#[derive(Debug)]
pub enum DisplayArm {
    /// `"<desc>: <payload>"` — a payload together with a desc literal.
    DescAndPayload(String),
    /// The payload's own display form, verbatim.
    Payload,
    /// The desc literal alone — a unit variant with a desc.
    DescOnly(String),
    /// The variant's bare name — a unit variant without a desc.
    BareName,
}

/// What the description arm of one variant returns.
#[derive(Debug)]
pub enum DescriptionArm {
    /// The desc literal.
    Literal(String),
    /// The text payload itself.
    PayloadText,
    /// The payload's own description accessor.
    PayloadDescription,
    /// The variant's bare name.
    BareName,
}

/// The match arm generated for one non-skipped variant: one entry in each of
/// the display, description and cause fragments.
#[derive(Debug)]
pub struct ArmPlan {
    /// Index of the variant in the declaration's variant list.
    pub variant: usize,
    pub display: DisplayArm,
    pub description: DescriptionArm,
    /// Whether the cause match holds an explicit arm returning the payload.
    pub cause: bool,
}

/// The synthesized unit: which variants receive a conversion, the arm of
/// every non-skipped variant in declaration order, and whether the cause
/// match ends in a catch-all returning no cause.
#[derive(Debug)]
pub struct GeneratedUnit {
    /// Indices of the variants that receive a conversion from their payload.
    pub conversions: Vec<usize>,
    pub arms: Vec<ArmPlan>,
    pub cause_catchall: bool,
}

/// The two fatal configuration errors.
#[derive(Debug)]
pub enum GenError {
    /// The declaration is not an enum; carries the declaration's name.
    NotAnEnum(String),
    /// A variant carries two or more payload fields; carries that variant's
    /// name.
    UnsupportedVariant(String),
}

/// Indices of the variants that receive an arm in the display, description
/// and cause fragments: every non-skipped variant, in declaration order.
pub open spec fn arm_indices(vs: Seq<EnumVariant>) -> Seq<int>
    decreases vs.len(),
{
    if vs.len() == 0 {
        Seq::empty()
    } else if v_skipped(vs.last()) {
        arm_indices(vs.drop_last())
    } else {
        arm_indices(vs.drop_last()).push(vs.len() - 1)
    }
}

/// Indices of the variants that receive a conversion: every non-skipped,
/// non-skip_from variant with a single payload, in declaration order.
pub open spec fn conversion_indices(vs: Seq<EnumVariant>) -> Seq<int>
    decreases vs.len(),
{
    if vs.len() == 0 {
        Seq::empty()
    } else if v_conversion(vs.last()) {
        conversion_indices(vs.drop_last()).push(vs.len() - 1)
    } else {
        conversion_indices(vs.drop_last())
    }
}

/// How many variants contribute an explicit cause arm.
pub open spec fn cause_count(vs: Seq<EnumVariant>) -> int
    decreases vs.len(),
{
    if vs.len() == 0 {
        0
    } else {
        cause_count(vs.drop_last()) + if v_cause(vs.last()) {
            1int
        } else {
            0int
        }
    }
}

/// Every variant has a supported shape: no two-or-more-field variant.
pub open spec fn all_supported(vs: Seq<EnumVariant>) -> bool {
    forall|i: int| 0 <= i < vs.len() ==> !v_multi(#[trigger] vs[i])
}

/// The display policy for one non-skipped variant.
pub open spec fn display_matches(v: EnumVariant, a: DisplayArm) -> bool {
    if v_single(v) {
        match v_desc(v) {
            Some(d) => a matches DisplayArm::DescAndPayload(s) && s@ == d,
            None => a is Payload,
        }
    } else {
        match v_desc(v) {
            Some(d) => a matches DisplayArm::DescOnly(s) && s@ == d,
            None => a is BareName,
        }
    }
}

/// The description policy for one non-skipped variant.
pub open spec fn description_matches(v: EnumVariant, a: DescriptionArm) -> bool {
    match v_desc(v) {
        Some(d) => a matches DescriptionArm::Literal(s) && s@ == d,
        None => if v_single(v) {
            if v_text_payload(v) {
                a is PayloadText
            } else {
                a is PayloadDescription
            }
        } else {
            a is BareName
        },
    }
}

/// The whole arm policy for one non-skipped variant.
pub open spec fn arm_matches(v: EnumVariant, a: ArmPlan) -> bool {
    &&& display_matches(v, a.display)
    &&& description_matches(v, a.description)
    &&& a.cause == v_cause(v)
}

/// The synthesized unit is exactly what the policy dictates for the variant
/// list: the arms cover the non-skipped variants in order and each follows
/// the per-variant policy, the conversions cover exactly the qualifying
/// variants in order, and the catch-all is present exactly when fewer cause
/// arms than generated arms exist.
pub open spec fn unit_matches(vs: Seq<EnumVariant>, u: GeneratedUnit) -> bool {
    &&& u.arms@.len() == arm_indices(vs).len()
    &&& forall|j: int|
        0 <= j < u.arms@.len() ==> (#[trigger] u.arms@[j]).variant as int == arm_indices(vs)[j]
    &&& forall|j: int|
        0 <= j < u.arms@.len() ==> {
            let i = (#[trigger] u.arms@[j]).variant as int;
            &&& 0 <= i < vs.len()
            &&& !v_skipped(vs[i])
            &&& arm_matches(vs[i], u.arms@[j])
        }
    &&& u.conversions@.len() == conversion_indices(vs).len()
    &&& forall|j: int|
        0 <= j < u.conversions@.len() ==> (#[trigger] u.conversions@[j]) as int
            == conversion_indices(vs)[j]
    &&& u.cause_catchall == (cause_count(vs) < arm_indices(vs).len())
}

/// Applies the per-variant policy: nothing for a skipped variant, otherwise
/// whether the variant receives a conversion, together with its arm.
fn plan_variant(v: &EnumVariant, idx: usize) -> (r: Option<(bool, ArmPlan)>)
    requires
        !v_multi(*v),
    ensures
        r is Some <==> !v_skipped(*v),
        r matches Some(pair) ==> {
            &&& pair.0 == v_conversion(*v)
            &&& pair.1.variant == idx
            &&& arm_matches(*v, pair.1)
        },
{
    let pol = scan_markers(&v.markers);
    if pol.skip {
        return None;
    }
    match &v.shape {
        VariantShape::Single(t) => {
            let text = is_string_type(t);
            let display = match &pol.desc {
                Some(d) => DisplayArm::DescAndPayload(d.clone()),
                None => DisplayArm::Payload,
            };
            let description = match &pol.desc {
                Some(d) => DescriptionArm::Literal(d.clone()),
                None => if text {
                    DescriptionArm::PayloadText
                } else {
                    DescriptionArm::PayloadDescription
                },
            };
            Some((!pol.skip_from, ArmPlan { variant: idx, display, description, cause: !text }))
        },
        VariantShape::Unit => {
            let display = match &pol.desc {
                Some(d) => DisplayArm::DescOnly(d.clone()),
                None => DisplayArm::BareName,
            };
            let description = match &pol.desc {
                Some(d) => DescriptionArm::Literal(d.clone()),
                None => DescriptionArm::BareName,
            };
            Some((false, ArmPlan { variant: idx, display, description, cause: false }))
        },
        VariantShape::Multi => {
            proof {
                assert(false);
            }
            None
        },
    }
}

/// Walks the declaration's variants in order and builds the generated unit.
///
/// A declaration that is not an enum, or a variant with two or more payload
/// fields, aborts generation with the corresponding diagnostic; the
/// diagnostic for an unsupported shape names the first such variant.
/// Otherwise the returned unit follows the policy exactly.
pub fn build_enum_from(d: &Declaration) -> (r: Result<GeneratedUnit, GenError>)
    ensures
        match r {
            Ok(u) => {
                &&& d.body matches DeclBody::Enumeration(vs)
                &&& all_supported(vs@)
                &&& unit_matches(vs@, u)
            },
            Err(e) => match e {
                GenError::NotAnEnum(n) => d.body is NotEnum && n@ == d.name@,
                GenError::UnsupportedVariant(n) => {
                    &&& d.body matches DeclBody::Enumeration(vs)
                    &&& exists|i: int|
                        {
                            &&& 0 <= i < vs@.len()
                            &&& v_multi(#[trigger] vs@[i])
                            &&& n@ == vs@[i].name@
                            &&& forall|k: int| 0 <= k < i ==> !v_multi(#[trigger] vs@[k])
                        }
                },
            },
        },
{
    let vs: &Vec<EnumVariant> = match &d.body {
        DeclBody::Enumeration(list) => list,
        DeclBody::NotEnum => {
            return Err(GenError::NotAnEnum(d.name.clone()));
        },
    };
    let mut conversions: Vec<usize> = Vec::new();
    let mut arms: Vec<ArmPlan> = Vec::new();
    let mut cause_n: usize = 0;
    let n = vs.len();
    for i in 0..n
        invariant
            d.body matches DeclBody::Enumeration(list) && list@ == vs@,
            n == vs@.len(),
            forall|k: int| 0 <= k < i ==> !v_multi(#[trigger] vs@[k]),
            arms@.len() == arm_indices(vs@.take(i as int)).len(),
            forall|j: int|
                0 <= j < arms@.len() ==> (#[trigger] arms@[j]).variant as int
                    == arm_indices(vs@.take(i as int))[j],
            forall|j: int|
                0 <= j < arms@.len() ==> {
                    let vi = (#[trigger] arms@[j]).variant as int;
                    &&& 0 <= vi < vs@.len()
                    &&& !v_skipped(vs@[vi])
                    &&& arm_matches(vs@[vi], arms@[j])
                },
            conversions@.len() == conversion_indices(vs@.take(i as int)).len(),
            forall|j: int|
                0 <= j < conversions@.len() ==> (#[trigger] conversions@[j]) as int
                    == conversion_indices(vs@.take(i as int))[j],
            cause_n == cause_count(vs@.take(i as int)),
            cause_n <= i,
    {
        let variant = &vs[i];
        let multi = match &variant.shape {
            VariantShape::Multi => true,
            _ => false,
        };
        if multi {
            return Err(GenError::UnsupportedVariant(variant.name.clone()));
        }
        match plan_variant(variant, i) {
            Some((emit_from, arm)) => {
                if emit_from {
                    conversions.push(i);
                }
                if arm.cause {
                    cause_n = cause_n + 1;
                }
                arms.push(arm);
            },
            None => {},
        }
        proof {
            assert(vs@.take(i + 1).drop_last() =~= vs@.take(i as int));
            assert(vs@.take(i + 1).last() == vs@[i as int]);
        }
    }
    proof {
        assert(vs@.take(n as int) =~= vs@);
    }
    let cause_catchall = cause_n < arms.len();
    Ok(GeneratedUnit { conversions, arms, cause_catchall })
}

/// A value of the generated enum type, reduced to what generation decides:
/// which variant holds the payload.
#[derive(Debug, PartialEq, Eq)]
pub struct ErrorValue<P> {
    pub variant: usize,
    pub payload: P,
}

impl GeneratedUnit {
    /// The value that the conversion at index `c` produces from a payload:
    /// the payload wrapped in the target variant's constructor — the same
    /// value that constructing the variant directly yields.
    pub fn convert<P>(&self, c: usize, payload: P) -> (r: ErrorValue<P>)
        requires
            c < self.conversions@.len(),
        ensures
            r.variant == self.conversions@[c as int],
            r.payload == payload,
    {
        ErrorValue { variant: self.conversions[c], payload }
    }
}

} // verus!
