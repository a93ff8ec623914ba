//! The wire codec for the outcome payload.
//!
//! Exactly one message flows from child to parent, so the encoding is a
//! self-describing frame: one tag byte that names the variant, followed by the
//! bytes the variant carries. Encoding and decoding are exact inverses, which
//! is what lets the parent reconstruct the child's outcome byte for byte.

use vstd::prelude::*;

use crate::outcome::{Outcome, OutcomeModel};

verus! {

/// Tag byte that opens the frame of a successful outcome.
pub const SUCCESS_TAG: u8 = 0;

/// Tag byte that opens the frame of a failed outcome.
pub const FAILURE_TAG: u8 = 1;

/// The encoding of an outcome: its tag byte followed by the bytes it carries.
pub open spec fn encoded(m: OutcomeModel) -> Seq<u8> {
    match m {
        OutcomeModel::Success(payload) => seq![SUCCESS_TAG] + payload,
        OutcomeModel::Failure(description) => seq![FAILURE_TAG] + description,
    }
}

/// The decoding of a byte sequence: `None` if the sequence is empty or opens
/// with an unknown tag, otherwise the outcome whose encoding the sequence is.
pub open spec fn decoded(bytes: Seq<u8>) -> Option<OutcomeModel> {
    if bytes.len() == 0 {
        None
    } else if bytes[0] == SUCCESS_TAG {
        Some(OutcomeModel::Success(bytes.drop_first()))
    } else if bytes[0] == FAILURE_TAG {
        Some(OutcomeModel::Failure(bytes.drop_first()))
    } else {
        None
    }
}

/// Decoding inverts encoding: every outcome survives the trip onto the wire
/// and back unchanged.
pub proof fn lemma_codec_round_trip(m: OutcomeModel)
    ensures
        decoded(encoded(m)) == Some(m),
{
    match m {
        OutcomeModel::Success(payload) => {
            assert(encoded(m).drop_first() =~= payload);
        },
        OutcomeModel::Failure(description) => {
            assert(encoded(m).drop_first() =~= description);
        },
    }
}

/// Encoding inverts decoding: a byte sequence that decodes at all is exactly
/// the encoding of what it decodes to, so no information beside the outcome
/// rides on the wire.
pub proof fn lemma_decoded_is_encoding(bytes: Seq<u8>)
    requires
        decoded(bytes) is Some,
    ensures
        encoded(decoded(bytes)->Some_0) == bytes,
{
    assert(encoded(decoded(bytes)->Some_0) =~= bytes);
}

/// Encode an outcome into its wire frame.
pub fn encode_outcome(o: &Outcome) -> (r: Vec<u8>)
    ensures
        r@ == encoded(o@),
{
    let mut out: Vec<u8> = Vec::new();
    let (tag, body): (u8, &Vec<u8>) = match o {
        Outcome::Success(payload) => (SUCCESS_TAG, payload),
        Outcome::Failure(description) => (FAILURE_TAG, description),
    };
    out.push(tag);
    let mut i: usize = 0;
    while i < body.len()
        invariant
            i <= body@.len(),
            out@ == seq![tag] + body@.subrange(0, i as int),
        decreases body@.len() - i,
    {
        out.push(body[i]);
        proof {
            assert(seq![tag] + body@.subrange(0, i + 1) =~= (seq![tag] + body@.subrange(
                0,
                i as int,
            )).push(body@[i as int]));
        }
        i = i + 1;
    }
    proof {
        assert(body@.subrange(0, body@.len() as int) =~= body@);
        assert(out@ =~= seq![tag] + body@.subrange(0, i as int));
        assert(seq![tag] + Seq::<u8>::empty() =~= seq![tag]);
    }
    out
}

/// Decode a wire frame back into an outcome; `None` on an empty or
/// unrecognized frame.
pub fn decode_outcome(bytes: &Vec<u8>) -> (r: Option<Outcome>)
    ensures
        r is Some <==> decoded(bytes@) is Some,
        r matches Some(o) ==> decoded(bytes@) == Some(o@),
{
    if bytes.len() == 0 {
        return None;
    }
    let tag = bytes[0];
    if tag != SUCCESS_TAG && tag != FAILURE_TAG {
        return None;
    }
    let mut body: Vec<u8> = Vec::new();
    let mut i: usize = 1;
    while i < bytes.len()
        invariant
            1 <= i <= bytes@.len(),
            body@ == bytes@.subrange(1, i as int),
        decreases bytes@.len() - i,
    {
        body.push(bytes[i]);
        proof {
            assert(bytes@.subrange(1, i + 1) =~= bytes@.subrange(1, i as int).push(
                bytes@[i as int],
            ));
        }
        i = i + 1;
    }
    proof {
        assert(body@ =~= bytes@.drop_first());
    }
    if tag == SUCCESS_TAG {
        Some(Outcome::Success(body))
    } else {
        Some(Outcome::Failure(body))
    }
}

/// Mathematical model of what the child has to report once its computation
/// and the serialization of the computation's value have run.
pub ghost enum ReportModel {
    /// The computation succeeded and its value serialized to these bytes.
    Value(Seq<u8>),
    /// The computation succeeded but its value could not be serialized.
    Unserializable,
    /// The computation failed; the bytes are the UTF-8 text of its error
    /// description.
    Failed(Seq<u8>),
}

/// What the child has to report once its computation and the serialization of
/// the computation's value have run.
pub enum ComputationReport {
    /// The computation succeeded and its value serialized to these bytes.
    Value(Vec<u8>),
    /// The computation succeeded but its value could not be serialized.
    Unserializable,
    /// The computation failed; the bytes are the UTF-8 text of its error
    /// description.
    Failed(Vec<u8>),
}

impl View for ComputationReport {
    type V = ReportModel;

    open spec fn view(&self) -> ReportModel {
        match self {
            ComputationReport::Value(payload) => ReportModel::Value(payload@),
            ComputationReport::Unserializable => ReportModel::Unserializable,
            ComputationReport::Failed(description) => ReportModel::Failed(description@),
        }
    }
}

/// The bytes the child writes into the channel for a given report: the
/// encoding of the corresponding outcome — or nothing at all for a value that
/// would not serialize, which the parent then reports as a corrupted payload.
pub open spec fn report_encoding(report: ReportModel) -> Seq<u8> {
    match report {
        ReportModel::Value(payload) => encoded(OutcomeModel::Success(payload)),
        ReportModel::Unserializable => Seq::empty(),
        ReportModel::Failed(description) => encoded(OutcomeModel::Failure(description)),
    }
}

/// The child-side stage after the computation has run: turn its report — the
/// serialized value, an unserializable value, or an error description — into
/// the one byte sequence that is written to the channel.
pub fn child_payload(report: ComputationReport) -> (r: Vec<u8>)
    ensures
        r@ == report_encoding(report@),
{
    match report {
        ComputationReport::Value(payload) => encode_outcome(&Outcome::Success(payload)),
        ComputationReport::Unserializable => Vec::new(),
        ComputationReport::Failed(description) => encode_outcome(&Outcome::Failure(description)),
    }
}

} // verus!
