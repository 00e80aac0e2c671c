use vstd::prelude::*;

verus! {

/// The closed set of wire-level value kinds shared by every backend.
///
/// Exactly one kind is active per canonical value; no backend may add a
/// private kind visible to generic code.
#[derive(Debug, Clone, Copy, PartialEq, Eq, Structural)]
pub enum AnyTypeInfoKind {
    Blob,
    Text,
    Uuid,
}

/// The compatibility descriptor for a logical type: the canonical kind a
/// column or parameter carries.
#[derive(Debug, Clone, Copy, PartialEq, Eq, Structural)]
pub struct AnyTypeInfo {
    pub kind: AnyTypeInfoKind,
}

/// The static side of the conversion contract: which canonical kind a
/// logical type produces on encode, and which kinds it accepts when its
/// compatibility with a column is checked.
///
/// Compatibility is advisory: the decode operation does not consult it,
/// and the accept-set need not contain the produce-kind.
pub trait Type {
    /// The canonical kind this type produces when encoded.
    spec fn produced_kind() -> AnyTypeInfoKind;

    /// The advisory accept-set used by `compatible`.
    spec fn accepted_kind(kind: AnyTypeInfoKind) -> bool;

    /// Returns the immutable compatibility descriptor for this type.
    fn type_info() -> (r: AnyTypeInfo)
        ensures
            r.kind == Self::produced_kind(),
    ;

    /// Returns true iff the descriptor's kind is in this type's accept-set.
    fn compatible(ty: &AnyTypeInfo) -> (r: bool)
        ensures
            r == Self::accepted_kind(ty.kind),
    ;
}

} // verus!
