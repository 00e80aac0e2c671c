use vstd::prelude::*;

use crate::type_info::AnyTypeInfoKind;
use crate::uuid::Uuid;

verus! {

/// One canonical wire-level value: exactly one kind is active.
pub enum AnyValueKind {
    Blob(Vec<u8>),
    Text(String),
    Uuid(Uuid),
}

/// The mathematical model of a canonical value: its kind tag together
/// with the plain contents it carries.
pub enum ValueModel {
    Blob(Seq<u8>),
    Text(Seq<char>),
    Uuid(Seq<u8>),
}

/// The kind tag of a modelled canonical value.
pub open spec fn model_kind(v: ValueModel) -> AnyTypeInfoKind {
    match v {
        ValueModel::Blob(_) => AnyTypeInfoKind::Blob,
        ValueModel::Text(_) => AnyTypeInfoKind::Text,
        ValueModel::Uuid(_) => AnyTypeInfoKind::Uuid,
    }
}

impl View for AnyValueKind {
    type V = ValueModel;

    open spec fn view(&self) -> ValueModel {
        match self {
            AnyValueKind::Blob(b) => ValueModel::Blob(b@),
            AnyValueKind::Text(s) => ValueModel::Text(s@),
            AnyValueKind::Uuid(u) => ValueModel::Uuid(u@),
        }
    }
}

impl AnyValueKind {
    /// The kind tag this value carries.
    pub fn kind(&self) -> (r: AnyTypeInfoKind)
        ensures
            r == model_kind(self@),
    {
        match self {
            AnyValueKind::Blob(_) => AnyTypeInfoKind::Blob,
            AnyValueKind::Text(_) => AnyTypeInfoKind::Text,
            AnyValueKind::Uuid(_) => AnyTypeInfoKind::Uuid,
        }
    }
}

/// The append-only, ordered parameter list of a single query invocation.
///
/// Entries are appended during encoding and read back, in the exact
/// order of the encode calls, by the backend driver.
pub struct AnyArgumentBuffer {
    values: Vec<AnyValueKind>,
}

impl View for AnyArgumentBuffer {
    type V = Seq<ValueModel>;

    closed spec fn view(&self) -> Seq<ValueModel> {
        self.values@.map(|i: int, v: AnyValueKind| v@)
    }
}

impl AnyArgumentBuffer {
    /// An empty buffer for a fresh invocation.
    pub fn new() -> (r: Self)
        ensures
            r@ == Seq::<ValueModel>::empty(),
    {
        let r = AnyArgumentBuffer { values: Vec::new() };
        proof {
            assert(r@ =~= Seq::<ValueModel>::empty());
        }
        r
    }

    /// Appends one canonical value; all earlier entries keep their
    /// places.
    pub fn push(&mut self, value: AnyValueKind)
        ensures
            final(self)@ == old(self)@.push(value@),
    {
        let ghost entry = value@;
        self.values.push(value);
        proof {
            assert(self@ =~= old(self)@.push(entry));
        }
    }

    /// How many values have been appended.
    pub fn len(&self) -> (n: usize)
        ensures
            n == self@.len(),
    {
        self.values.len()
    }

    /// Reads back the value at position `i`.
    pub fn get(&self, i: usize) -> (r: &AnyValueKind)
        requires
            i < self@.len(),
        ensures
            r@ == self@[i as int],
    {
        &self.values[i]
    }
}

} // verus!
