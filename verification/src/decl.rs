//! The model of the annotated declaration: what the generation policy reads
//! of an enum, its variants, their shapes and their attribute items.

use vstd::prelude::*;

verus! {

/// One item found inside a variant's generation attribute.
#[derive(Debug)]
pub enum MarkerItem {
    /// A bare word, such as `skip` or `skip_from`.
    Word(String),
    /// A `key = "value"` pair with a string-literal value, such as
    /// `desc = "out of disk"`.
    Text(String, String),
    /// Any other item; the marker scan ignores it.
    Ignored,
}

/// The payload type of a single-payload variant, as far as the policy reads
/// it: a plain path is kept as its segment identifiers, anything else (a
/// reference, a tuple, a qualified path) is opaque.
#[derive(Debug)]
pub enum PayloadType {
    Path(Vec<String>),
    Opaque,
}

/// The shape of one variant: no payload, exactly one payload field, or two
/// or more fields, which generation does not support.
#[derive(Debug)]
pub enum VariantShape {
    Unit,
    Single(PayloadType),
    Multi,
}

/// One variant of the declaration, with its marker items in source order.
#[derive(Debug)]
pub struct EnumVariant {
    pub name: String,
    pub shape: VariantShape,
    pub markers: Vec<MarkerItem>,
}

/// The body of the annotated declaration: an enum's variant list, or the
/// mark that the declaration is not an enum at all.
#[derive(Debug)]
pub enum DeclBody {
    Enumeration(Vec<EnumVariant>),
    NotEnum,
}

/// The declaration handed to generation.  The generic parameters are carried
/// through to the emitted impls verbatim; the policy never consults them.
#[derive(Debug)]
pub struct Declaration {
    pub name: String,
    pub generics: Vec<String>,
    pub body: DeclBody,
}

/// The one designated text type: a bare single-segment path spelled
/// `String`.  The check is nominal, nothing structural.
pub open spec fn is_text_type(t: PayloadType) -> bool {
    t matches PayloadType::Path(segs) && segs@.len() == 1 && segs@[0]@ == "String"@
}

/// The variant carries exactly one payload field.
pub open spec fn v_single(v: EnumVariant) -> bool {
    v.shape matches VariantShape::Single(_)
}

/// The variant carries two or more payload fields.
pub open spec fn v_multi(v: EnumVariant) -> bool {
    v.shape is Multi
}

/// The variant's single payload is the designated text type.
pub open spec fn v_text_payload(v: EnumVariant) -> bool {
    v.shape matches VariantShape::Single(t) && is_text_type(t)
}

/// Compares an owned string against a borrowed one.
pub(crate) fn str_eq(a: &String, b: &str) -> (r: bool)
    ensures
        r == (a@ == b@),
{
    let o: String = b.to_owned();
    *a == o
}

/// Decides whether a payload type is the designated text type: the exact
/// nominal check for a bare single-segment path spelled `String`.
pub fn is_string_type(t: &PayloadType) -> (r: bool)
    ensures
        r == is_text_type(*t),
{
    match t {
        PayloadType::Path(segs) => {
            if segs.len() == 1 {
                str_eq(&segs[0], "String")
            } else {
                false
            }
        },
        PayloadType::Opaque => false,
    }
}

} // verus!
