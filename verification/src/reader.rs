//! The streaming XML reader, seen as a finite stream of pulls.
//!
//! The reader itself is `quick_xml::NsReader`; nothing of its parsing is
//! proved here. What this module proves is the loop that drives it.

use quick_xml::events::Event;
use quick_xml::NsReader;
use vstd::prelude::*;

use crate::outcome::ObservedResult;

verus! {

/// The reader type of `quick_xml`, opaque to the verifier.
#[verifier::external_type_specification]
#[verifier::external_body]
#[verifier::reject_recursive_types(R)]
pub struct ExNsReader<R>(NsReader<R>);

/// What one pull on the reader gave.
#[derive(Debug)]
pub enum Pull {
    /// An event other than the end of the document; its content is not needed.
    Event,
    /// The end of the document.
    End,
    /// The reader failed; the text describes the failure.
    Failure(String),
}

impl Pull {
    /// A terminal pull ends the run over a document.
    pub open spec fn is_terminal(self) -> bool {
        !(self is Event)
    }

    /// What a terminal pull says of the document.
    pub open spec fn observation(self) -> Option<Seq<char>> {
        match self {
            Pull::Failure(detail) => Some(detail@),
            _ => None,
        }
    }
}

/// A stream of pulls is complete when it ends with its only terminal pull.
pub open spec fn is_complete(pulls: Seq<Pull>) -> bool {
    &&& pulls.len() > 0
    &&& pulls.last().is_terminal()
    &&& forall|i: int| 0 <= i < pulls.len() - 1 ==> !(#[trigger] pulls[i]).is_terminal()
}

/// What a complete stream of pulls says of the document: the observation
/// of its terminal pull.
pub open spec fn observation_of(pulls: Seq<Pull>) -> Option<Seq<char>> {
    pulls.last().observation()
}

/// The pulls that a fresh reader over `document` gives, up to and including
/// the first end-of-document or failure.
pub uninterp spec fn document_pulls(document: Seq<u8>) -> Seq<Pull>;

/// The pulls that further calls on `reader` give, from the state it is in,
/// up to and including the first end-of-document or failure.
pub uninterp spec fn pending_pulls(reader: NsReader<&[u8]>) -> Seq<Pull>;

/// `NsReader::from_reader` over a byte slice, with the default configuration.
///
/// Trusted: the reader's pending pulls are those of the document, and on a
/// finite input the reader gives finitely many events before it gives the
/// end of the document or fails.
#[verifier::external_body]
fn open_reader<'a>(document: &'a [u8]) -> (reader: NsReader<&'a [u8]>)
    ensures
        pending_pulls(reader) == document_pulls(document@),
        is_complete(pending_pulls(reader)),
{
    NsReader::from_reader(document)
}

/// `NsReader::read_resolved_event_into`, reduced to what the harness reads
/// of its result.
///
/// Trusted: the call gives the first of the pending pulls, and where that
/// one is followed by others, those are what is pending afterwards. Nothing
/// is said of the reader once it has given the end of the document or has
/// failed. A failure carries the `Debug` text of the reader's error.
#[verifier::external_body]
fn pull_next(reader: &mut NsReader<&[u8]>, buffer: &mut Vec<u8>) -> (pull: Pull)
    ensures
        pending_pulls(*old(reader)).len() > 0 ==> pull == pending_pulls(*old(reader))[0],
        pending_pulls(*old(reader)).len() > 1 ==> pending_pulls(*final(reader))
            == pending_pulls(*old(reader)).skip(1),
{
    match reader.read_resolved_event_into(buffer) {
        Err(error) => Pull::Failure(format!("{:?}", error)),
        Ok((_, Event::Eof)) => Pull::End,
        Ok(_) => Pull::Event,
    }
}

/// Decides what to do after one pull: `None` to pull again, or the
/// observation that ends the run.
pub fn settle(pull: Pull) -> (settled: Option<ObservedResult>)
    ensures
        settled is Some <==> pull.is_terminal(),
        settled is Some ==> settled->0@ == pull.observation(),
{
    match pull {
        Pull::Event => None,
        Pull::End => Some(ObservedResult::ReachedEndWithoutError),
        Pull::Failure(detail) => Some(ObservedResult::FailedWithError(detail)),
    }
}

/// Drives the reader over `document` until it reaches the end of the
/// document or fails, discarding every other event.
pub fn observe_document(document: &[u8]) -> (observed: ObservedResult)
    ensures
        observed@ == observation_of(document_pulls(document@)),
{
    let mut reader = open_reader(document);
    let mut buffer: Vec<u8> = Vec::new();
    loop
        invariant
            is_complete(pending_pulls(reader)),
            observation_of(pending_pulls(reader)) == observation_of(document_pulls(document@)),
        decreases pending_pulls(reader).len(),
    {
        let ghost before = pending_pulls(reader);
        let pull = pull_next(&mut reader, &mut buffer);
        match settle(pull) {
            Some(observed) => {
                proof {
                    assert(before.len() == 1) by {
                        if before.len() > 1 {
                            assert(!before[0].is_terminal());
                        }
                    }
                }
                return observed;
            },
            None => {
                proof {
                    assert(before.len() > 1);
                    let after = before.skip(1);
                    assert(after.last() == before.last());
                    assert forall|i: int| 0 <= i < after.len() - 1 implies !(#[trigger] after[i]).is_terminal() by {
                        assert(after[i] == before[i + 1]);
                    }
                }
            },
        }
    }
}

} // verus!
