use vstd::prelude::*;

use crate::error::Error;
use crate::type_info::AnyTypeInfoKind;
use crate::value::{model_kind, AnyValueKind, ValueModel};

verus! {

/// The decode side of the conversion contract: turn one borrowed
/// canonical value reference back into an application value, or fail.
///
/// Decoding is an exact-kind runtime check, independent of the advisory
/// compatibility accept-set: a reference whose kind the representation
/// does not decode is a hard `UnexpectedKindError`, never a silent
/// coercion, and a decodable kind whose payload is malformed is a
/// `ConversionError`.
pub trait Decode: Sized + View<V = Seq<u8>> {
    /// The kind reported as expected when a mismatched reference is
    /// rejected.
    spec fn expected_kind() -> AnyTypeInfoKind;

    /// The exact kinds this representation knows how to decode.
    spec fn decodes_kind(kind: AnyTypeInfoKind) -> bool;

    /// Whether the payload of a decodable reference is a well-formed
    /// instance of this representation.
    spec fn payload_ok(v: ValueModel) -> bool;

    /// The identifier bytes a well-formed reference decodes to.
    spec fn decoded_bytes(v: ValueModel) -> Seq<u8>;

    /// Decodes one canonical value reference.  Succeeds exactly on a
    /// decodable kind with a well-formed payload; never mutates the
    /// source.
    fn decode(value: &AnyValueKind) -> (r: Result<Self, Error>)
        ensures
            r is Ok <==> Self::decodes_kind(model_kind(value@)) && Self::payload_ok(value@),
            r is Ok ==> r->Ok_0@ == Self::decoded_bytes(value@),
            !Self::decodes_kind(model_kind(value@)) ==> r == Err::<Self, Error>(
                Error::UnexpectedKindError {
                    expected: Self::expected_kind(),
                    actual: model_kind(value@),
                },
            ),
            Self::decodes_kind(model_kind(value@)) && !Self::payload_ok(value@) ==> r is Err
                && r->Err_0 is ConversionError,
    ;
}

} // verus!
