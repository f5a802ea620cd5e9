//! The marker scan: which of a variant's attribute items are recognized, and
//! what they resolve to.  `skip` excludes the variant from all fragments,
//! `skip_from` suppresses only its conversion, `desc = "..."` fixes its
//! description; every other item is ignored.

use vstd::prelude::*;
use crate::decl::{EnumVariant, MarkerItem, str_eq, v_single, v_text_payload};

verus! {

/// A recognized `skip` item.
pub open spec fn is_skip_item(m: MarkerItem) -> bool {
    m matches MarkerItem::Word(w) && w@ == "skip"@
}

/// A recognized `skip_from` item.
pub open spec fn is_skip_from_item(m: MarkerItem) -> bool {
    m matches MarkerItem::Word(w) && w@ == "skip_from"@
}

/// A recognized `desc = "..."` item.
pub open spec fn is_desc_item(m: MarkerItem) -> bool {
    m matches MarkerItem::Text(k, _v) && k@ == "desc"@
}

/// Some item of the list is `skip`.
pub open spec fn has_skip(ms: Seq<MarkerItem>) -> bool {
    exists|i: int| 0 <= i < ms.len() && is_skip_item(#[trigger] ms[i])
}

/// Some item of the list is `skip_from`.
pub open spec fn has_skip_from(ms: Seq<MarkerItem>) -> bool {
    exists|i: int| 0 <= i < ms.len() && is_skip_from_item(#[trigger] ms[i])
}

/// The literal of the last `desc = "..."` item, if any: a later desc
/// overrides an earlier one.
pub open spec fn desc_value(ms: Seq<MarkerItem>) -> Option<Seq<char>>
    decreases ms.len(),
{
    if ms.len() == 0 {
        None
    } else if is_desc_item(ms.last()) {
        Some(ms.last()->Text_1@)
    } else {
        desc_value(ms.drop_last())
    }
}

/// The variant is excluded from every fragment.
pub open spec fn v_skipped(v: EnumVariant) -> bool {
    has_skip(v.markers@)
}

/// The variant's conversion, and only it, is suppressed.
pub open spec fn v_skip_from(v: EnumVariant) -> bool {
    has_skip_from(v.markers@)
}

/// The variant's fixed description literal, if one was given.
pub open spec fn v_desc(v: EnumVariant) -> Option<Seq<char>> {
    desc_value(v.markers@)
}

/// The variant contributes an explicit cause arm: it is generated, carries a
/// single payload, and that payload is not the designated text type.
pub open spec fn v_cause(v: EnumVariant) -> bool {
    !v_skipped(v) && v_single(v) && !v_text_payload(v)
}

/// The variant receives a conversion from its payload type.
pub open spec fn v_conversion(v: EnumVariant) -> bool {
    !v_skipped(v) && !v_skip_from(v) && v_single(v)
}

/// What one variant's marker list resolves to.
pub struct MarkerPolicy {
    pub skip: bool,
    pub skip_from: bool,
    pub desc: Option<String>,
}

/// The view of an optional owned string.
pub open spec fn opt_text_view(o: Option<String>) -> Option<Seq<char>> {
    match o {
        Some(s) => Some(s@),
        None => None,
    }
}

/// Scans a marker list in order: notes `skip` and `skip_from`, keeps the
/// last `desc` literal, and ignores every unrecognized item.
pub fn scan_markers(ms: &Vec<MarkerItem>) -> (p: MarkerPolicy)
    ensures
        p.skip == has_skip(ms@),
        p.skip_from == has_skip_from(ms@),
        opt_text_view(p.desc) == desc_value(ms@),
{
    let mut skip = false;
    let mut skip_from = false;
    let mut desc: Option<String> = None;
    let n = ms.len();
    for i in 0..n
        invariant
            n == ms@.len(),
            skip == has_skip(ms@.take(i as int)),
            skip_from == has_skip_from(ms@.take(i as int)),
            opt_text_view(desc) == desc_value(ms@.take(i as int)),
    {
        match &ms[i] {
            MarkerItem::Word(w) => {
                let word_skip = str_eq(w, "skip");
                let word_skip_from = str_eq(w, "skip_from");
                if word_skip {
                    skip = true;
                }
                if word_skip_from {
                    skip_from = true;
                }
            },
            MarkerItem::Text(k, v) => {
                if str_eq(k, "desc") {
                    desc = Some(v.clone());
                }
            },
            MarkerItem::Ignored => {},
        }
        proof {
            assert(ms@.take(i + 1).drop_last() =~= ms@.take(i as int));
            assert(ms@.take(i + 1).last() == ms@[i as int]);
            assert forall|j: int| 0 <= j < i + 1 implies ms@.take(i + 1)[j] == ms@[j] by {}
            assert forall|j: int| 0 <= j < i implies ms@.take(i as int)[j] == ms@[j] by {}
        }
    }
    proof {
        assert(ms@.take(n as int) =~= ms@);
    }
    MarkerPolicy { skip, skip_from, desc }
}

} // verus!
