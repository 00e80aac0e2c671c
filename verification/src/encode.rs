use vstd::prelude::*;

use crate::error::Error;
use crate::value::{AnyArgumentBuffer, ValueModel};

verus! {

/// Whether an encoded value represents SQL NULL.
///
/// The indicator, not the presence of a buffer entry, is the
/// authoritative null signal consumed by the backend driver.
#[derive(Debug, Clone, Copy, PartialEq, Eq, Structural)]
pub enum IsNull {
    Yes,
    No,
}

/// The encode side of the conversion contract: turn one application
/// value into exactly one canonical entry appended to the argument
/// buffer of the invocation.
pub trait Encode {
    /// The canonical entry this value encodes to.
    spec fn encoded(&self) -> ValueModel;

    /// Whether this value represents SQL NULL.
    spec fn is_null_value(&self) -> bool;

    /// Appends exactly one canonical entry for `self`; every earlier
    /// entry keeps its place, so the caller's parameter order is the
    /// buffer's order.  Encoding itself cannot fail.
    fn encode_by_ref(&self, buf: &mut AnyArgumentBuffer) -> (r: Result<IsNull, Error>)
        ensures
            final(buf)@ == old(buf)@.push(self.encoded()),
            r is Ok,
            r == Ok::<IsNull, Error>(if self.is_null_value() { IsNull::Yes } else { IsNull::No }),
    ;
}

/// Law: appending entries one after the other extends the buffer by
/// exactly those entries, in call order.  Together with the `ensures`
/// of `encode_by_ref` this pins the order of a whole parameter list:
/// encoding `a`, `b`, `c` into one buffer leaves `[a, b, c]` behind
/// whatever was already there.
pub proof fn lemma_encode_order(prefix: Seq<ValueModel>, a: ValueModel, b: ValueModel, c: ValueModel)
    ensures
        prefix.push(a).push(b).push(c) == prefix + seq![a, b, c],
{
    assert(prefix.push(a).push(b).push(c) =~= prefix + seq![a, b, c]);
}

} // verus!
