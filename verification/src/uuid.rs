use vstd::prelude::*;

use crate::decode::Decode;
use crate::encode::{Encode, IsNull};
use crate::error::Error;
use crate::text::{format_hyphenated, format_simple, hyphenated_text_of, parse_uuid_text,
    simple_text_of, uuid_text_bytes, valid_uuid_text};
use crate::type_info::{AnyTypeInfo, AnyTypeInfoKind, Type};
use crate::value::{model_kind, AnyArgumentBuffer, AnyValueKind, ValueModel};

verus! {

/// A 128-bit identifier in its primary, binary representation: sixteen
/// bytes in wire order.
#[derive(Debug)]
pub struct Uuid {
    bytes: Vec<u8>,
}

impl Uuid {
    /// The invariant of the binary representation; established by every
    /// constructor and assumed, through `use_type_invariant`, of every
    /// identifier value.
    #[verifier::type_invariant]
    pub closed spec fn wf(self) -> bool {
        self.bytes@.len() == 16
    }
}

/// A well-formed identifier carries exactly sixteen bytes.
pub proof fn lemma_uuid_bytes_len(u: Uuid)
    requires
        u.wf(),
    ensures
        u@.len() == 16,
{
}

impl View for Uuid {
    type V = Seq<u8>;

    closed spec fn view(&self) -> Seq<u8> {
        self.bytes@
    }
}

impl Uuid {
    /// Builds an identifier from raw bytes; exactly sixteen are
    /// required.
    pub fn from_slice(b: &[u8]) -> (r: Result<Uuid, Error>)
        ensures
            r is Ok <==> b@.len() == 16,
            r is Ok ==> r->Ok_0@ == b@,
            r is Err ==> r->Err_0 is ConversionError,
    {
        if b.len() == 16 {
            Ok(Uuid { bytes: vstd::slice::slice_to_vec(b) })
        } else {
            Err(Error::ConversionError { reason: "an identifier is exactly 16 bytes".to_owned() })
        }
    }

    /// An owned copy of the identifier's bytes, in wire order.
    pub fn as_bytes_vec(&self) -> (r: Vec<u8>)
        ensures
            r@ == self@,
    {
        proof {
            use_type_invariant(self);
        }
        let r = self.bytes.clone();
        proof {
            assert(r@ =~= self.bytes@);
        }
        r
    }

    /// An identical identifier value.
    fn duplicate(&self) -> (r: Uuid)
        ensures
            r@ == self@,
    {
        proof {
            use_type_invariant(self);
        }
        Uuid { bytes: self.as_bytes_vec() }
    }

    /// The identifier itself; the binary form is the primary
    /// representation.
    pub fn into_uuid(self) -> (r: Uuid)
        ensures
            r@ == self@,
    {
        self
    }

    /// This identifier under its hyphenated text representation.
    pub fn hyphenated(self) -> (r: Hyphenated)
        ensures
            r@ == self@,
    {
        Hyphenated { uuid: self }
    }

    /// This identifier under its compact text representation.
    pub fn simple(self) -> (r: Simple)
        ensures
            r@ == self@,
    {
        Simple { uuid: self }
    }
}

/// The hyphenated text representation of a 128-bit identifier:
/// five lower-case hexadecimal groups of 8, 4, 4, 4 and 12 digits,
/// separated by hyphens.
#[derive(Debug)]
pub struct Hyphenated {
    uuid: Uuid,
}

impl View for Hyphenated {
    type V = Seq<u8>;

    closed spec fn view(&self) -> Seq<u8> {
        self.uuid@
    }
}

impl Hyphenated {
    /// The underlying identifier.
    pub fn into_uuid(self) -> (r: Uuid)
        ensures
            r@ == self@,
    {
        self.uuid
    }

    /// Renders the identifier in the hyphenated form.
    pub fn to_text(&self) -> (r: String)
        ensures
            r@ == hyphenated_text_of(self@),
    {
        proof {
            use_type_invariant(&self.uuid);
        }
        format_hyphenated(&self.uuid.bytes)
    }
}

/// The compact text representation of a 128-bit identifier: thirty-two
/// lower-case hexadecimal digits with no separators.
#[derive(Debug)]
pub struct Simple {
    uuid: Uuid,
}

impl View for Simple {
    type V = Seq<u8>;

    closed spec fn view(&self) -> Seq<u8> {
        self.uuid@
    }
}

impl Simple {
    /// The underlying identifier.
    pub fn into_uuid(self) -> (r: Uuid)
        ensures
            r@ == self@,
    {
        self.uuid
    }

    /// Renders the identifier in the compact form.
    pub fn to_text(&self) -> (r: String)
        ensures
            r@ == simple_text_of(self@),
    {
        proof {
            use_type_invariant(&self.uuid);
        }
        format_simple(&self.uuid.bytes)
    }
}

impl Type for Uuid {
    open spec fn produced_kind() -> AnyTypeInfoKind {
        AnyTypeInfoKind::Uuid
    }

    open spec fn accepted_kind(kind: AnyTypeInfoKind) -> bool {
        kind is Blob || kind is Text
    }

    fn type_info() -> (r: AnyTypeInfo) {
        AnyTypeInfo { kind: AnyTypeInfoKind::Uuid }
    }

    fn compatible(ty: &AnyTypeInfo) -> (r: bool) {
        matches!(ty.kind, AnyTypeInfoKind::Blob | AnyTypeInfoKind::Text)
    }
}

impl Type for Hyphenated {
    open spec fn produced_kind() -> AnyTypeInfoKind {
        AnyTypeInfoKind::Uuid
    }

    open spec fn accepted_kind(kind: AnyTypeInfoKind) -> bool {
        kind == <Hyphenated as Type>::produced_kind()
    }

    fn type_info() -> (r: AnyTypeInfo) {
        AnyTypeInfo { kind: AnyTypeInfoKind::Uuid }
    }

    fn compatible(ty: &AnyTypeInfo) -> (r: bool) {
        ty.kind == AnyTypeInfoKind::Uuid
    }
}

impl Type for Simple {
    open spec fn produced_kind() -> AnyTypeInfoKind {
        AnyTypeInfoKind::Uuid
    }

    open spec fn accepted_kind(kind: AnyTypeInfoKind) -> bool {
        kind == <Simple as Type>::produced_kind()
    }

    fn type_info() -> (r: AnyTypeInfo) {
        <Uuid as Type>::type_info()
    }

    fn compatible(ty: &AnyTypeInfo) -> (r: bool) {
        ty.kind == AnyTypeInfoKind::Uuid
    }
}

impl Encode for Uuid {
    open spec fn encoded(&self) -> ValueModel {
        ValueModel::Uuid(self@)
    }

    open spec fn is_null_value(&self) -> bool {
        false
    }

    fn encode_by_ref(&self, buf: &mut AnyArgumentBuffer) -> (r: Result<IsNull, Error>) {
        buf.push(AnyValueKind::Uuid(self.duplicate()));
        Ok(IsNull::No)
    }
}

impl Encode for Hyphenated {
    open spec fn encoded(&self) -> ValueModel {
        ValueModel::Uuid(self@)
    }

    open spec fn is_null_value(&self) -> bool {
        false
    }

    fn encode_by_ref(&self, buf: &mut AnyArgumentBuffer) -> (r: Result<IsNull, Error>) {
        buf.push(AnyValueKind::Uuid(self.uuid.duplicate()));
        Ok(IsNull::No)
    }
}

impl Encode for Simple {
    open spec fn encoded(&self) -> ValueModel {
        ValueModel::Uuid(self@)
    }

    open spec fn is_null_value(&self) -> bool {
        false
    }

    fn encode_by_ref(&self, buf: &mut AnyArgumentBuffer) -> (r: Result<IsNull, Error>) {
        buf.push(AnyValueKind::Uuid(self.uuid.duplicate()));
        Ok(IsNull::No)
    }
}

impl Decode for Uuid {
    open spec fn expected_kind() -> AnyTypeInfoKind {
        AnyTypeInfoKind::Uuid
    }

    open spec fn decodes_kind(kind: AnyTypeInfoKind) -> bool {
        kind is Uuid || kind is Text
    }

    open spec fn payload_ok(v: ValueModel) -> bool {
        match v {
            ValueModel::Uuid(b) => b.len() == 16,
            ValueModel::Text(s) => valid_uuid_text(s),
            ValueModel::Blob(_) => false,
        }
    }

    open spec fn decoded_bytes(v: ValueModel) -> Seq<u8> {
        match v {
            ValueModel::Uuid(b) => b,
            ValueModel::Text(s) => uuid_text_bytes(s),
            ValueModel::Blob(_) => Seq::empty(),
        }
    }

    fn decode(value: &AnyValueKind) -> (r: Result<Self, Error>) {
        match value {
            AnyValueKind::Uuid(u) => {
                proof {
                    use_type_invariant(u);
                }
                Ok(u.duplicate())
            },
            AnyValueKind::Text(s) => {
                match parse_uuid_text(s.as_str()) {
                    Some(bytes) => Ok(Uuid { bytes }),
                    None => Err(
                        Error::ConversionError {
                            reason: "text is not a valid identifier".to_owned(),
                        },
                    ),
                }
            },
            AnyValueKind::Blob(_) => Err(
                Error::UnexpectedKindError {
                    expected: AnyTypeInfoKind::Uuid,
                    actual: AnyTypeInfoKind::Blob,
                },
            ),
        }
    }
}

impl Decode for Hyphenated {
    open spec fn expected_kind() -> AnyTypeInfoKind {
        AnyTypeInfoKind::Uuid
    }

    open spec fn decodes_kind(kind: AnyTypeInfoKind) -> bool {
        kind is Uuid || kind is Text
    }

    open spec fn payload_ok(v: ValueModel) -> bool {
        <Uuid as Decode>::payload_ok(v)
    }

    open spec fn decoded_bytes(v: ValueModel) -> Seq<u8> {
        <Uuid as Decode>::decoded_bytes(v)
    }

    fn decode(value: &AnyValueKind) -> (r: Result<Self, Error>) {
        match <Uuid as Decode>::decode(value) {
            Ok(u) => Ok(u.hyphenated()),
            Err(e) => Err(e),
        }
    }
}

impl Decode for Simple {
    open spec fn expected_kind() -> AnyTypeInfoKind {
        AnyTypeInfoKind::Uuid
    }

    open spec fn decodes_kind(kind: AnyTypeInfoKind) -> bool {
        kind is Uuid || kind is Text
    }

    open spec fn payload_ok(v: ValueModel) -> bool {
        <Uuid as Decode>::payload_ok(v)
    }

    open spec fn decoded_bytes(v: ValueModel) -> Seq<u8> {
        <Uuid as Decode>::decoded_bytes(v)
    }

    fn decode(value: &AnyValueKind) -> (r: Result<Self, Error>) {
        match <Uuid as Decode>::decode(value) {
            Ok(u) => Ok(u.simple()),
            Err(e) => Err(e),
        }
    }
}

/// Law (round trip): the canonical entry that encoding a binary
/// identifier appends decodes back, under the binary representation, to
/// exactly the identifier's bytes.
pub proof fn lemma_uuid_round_trip(u: Uuid)
    requires
        u@.len() == 16,
    ensures
        <Uuid as Decode>::decodes_kind(model_kind(u.encoded())),
        <Uuid as Decode>::payload_ok(u.encoded()),
        <Uuid as Decode>::decoded_bytes(u.encoded()) == u@,
{
}

/// Law (round trip): the canonical entry that encoding a hyphenated
/// identifier appends decodes back, under the hyphenated
/// representation, to exactly the identifier's bytes.
pub proof fn lemma_hyphenated_round_trip(h: Hyphenated)
    requires
        h@.len() == 16,
    ensures
        <Hyphenated as Decode>::decodes_kind(model_kind(h.encoded())),
        <Hyphenated as Decode>::payload_ok(h.encoded()),
        <Hyphenated as Decode>::decoded_bytes(h.encoded()) == h@,
{
}

/// Law (round trip): the canonical entry that encoding a compact
/// identifier appends decodes back, under the compact representation,
/// to exactly the identifier's bytes.
pub proof fn lemma_simple_round_trip(s: Simple)
    requires
        s@.len() == 16,
    ensures
        <Simple as Decode>::decodes_kind(model_kind(s.encoded())),
        <Simple as Decode>::payload_ok(s.encoded()),
        <Simple as Decode>::decoded_bytes(s.encoded()) == s@,
{
}

/// Law (text round trip): an identifier's rendered text, wrapped as a
/// Text-kind canonical value, decodes back to exactly the identifier's
/// bytes — in the compact and in the hyphenated form alike.
pub proof fn lemma_text_value_round_trip(b: Seq<u8>)
    requires
        b.len() == 16,
    ensures
        <Uuid as Decode>::payload_ok(ValueModel::Text(simple_text_of(b))),
        <Uuid as Decode>::decoded_bytes(ValueModel::Text(simple_text_of(b))) == b,
        <Uuid as Decode>::payload_ok(ValueModel::Text(hyphenated_text_of(b))),
        <Uuid as Decode>::decoded_bytes(ValueModel::Text(hyphenated_text_of(b))) == b,
{
    crate::text::lemma_simple_text_round_trip(b);
    crate::text::lemma_hyphenated_text_round_trip(b);
}

/// Law (declared kind): encoding any of the three representations
/// appends an entry of exactly the kind its descriptor declares.
pub proof fn lemma_encoded_kind(u: Uuid, h: Hyphenated, s: Simple)
    ensures
        model_kind(u.encoded()) == <Uuid as Type>::produced_kind(),
        model_kind(h.encoded()) == <Hyphenated as Type>::produced_kind(),
        model_kind(s.encoded()) == <Simple as Type>::produced_kind(),
{
}

/// Law (compatibility asymmetry): the binary representation's advisory
/// accept-set is exactly {Blob, Text} while its produce-kind is Uuid;
/// the accept-set and the produce-kind are checked independently, and
/// the produce-kind is not a member of the accept-set here.
pub proof fn lemma_uuid_compatibility_asymmetry()
    ensures
        <Uuid as Type>::accepted_kind(AnyTypeInfoKind::Blob),
        <Uuid as Type>::accepted_kind(AnyTypeInfoKind::Text),
        !<Uuid as Type>::accepted_kind(AnyTypeInfoKind::Uuid),
        <Uuid as Type>::produced_kind() == AnyTypeInfoKind::Uuid,
{
}

/// Law (default compatibility): a representation that declares no
/// accept-set override accepts exactly its own produce-kind.
pub proof fn lemma_text_representation_compatibility()
    ensures
        forall|k: AnyTypeInfoKind|
            <Hyphenated as Type>::accepted_kind(k) <==> k == <Hyphenated as Type>::produced_kind(),
        forall|k: AnyTypeInfoKind|
            <Simple as Type>::accepted_kind(k) <==> k == <Simple as Type>::produced_kind(),
{
}

} // verus!
