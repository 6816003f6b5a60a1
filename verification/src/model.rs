//! The trusted boundary around the external classifier.
//!
//! The classifier library owns tokenization, probability estimation and
//! scoring; this layer treats all of that as a black box. A classifier value
//! is abstracted by [`state_of`], the token statistics it has learned, and
//! every call into the library is a small wrapper whose contract says only
//! that the call's result is a function of that abstract state (and, for the
//! byte codec, that serialization parses back to the state it came from).
//!
//! Build constraint. The classifier keeps its statistics in plain `u32`
//! counters: training increments one counter and one running total per word
//! occurrence, and deserializing a model recomputes the two totals as sums
//! over the whole table. With overflow checks compiled in, those additions
//! abort instead of returning once a total passes `u32::MAX` — that is,
//! after more than four billion trained word occurrences of one label, or on
//! durable bytes whose counts sum past that bound. No condition on a text or
//! on raw bytes can test for this short of redoing the classifier's own
//! work, so the contracts of [`train_spam`], [`train_ham`] and [`load_model`]
//! do not exclude such inputs. They rely instead on builds whose integer
//! arithmetic wraps rather than aborts (the default release profile): under
//! that constraint every call returns on every admitted input, and every
//! clause below holds — wrapped counters are still a function of the
//! arguments alone.

use vstd::prelude::*;
use bayespam::classifier::Classifier;
use crate::errors::StorageError;

verus! {

#[verifier::external_type_specification]
#[verifier::external_body]
pub struct ExClassifier(Classifier);

/// The abstract state of a classifier: each learned token mapped to its
/// (ham, spam) occurrence counts.
pub type ModelState = Map<Seq<char>, (u32, u32)>;

/// The abstract state a classifier value holds.
pub uninterp spec fn state_of(c: Classifier) -> ModelState;

/// The state after the classifier learns a text as spam.
pub uninterp spec fn trained_spam_of(m: ModelState, text: Seq<char>) -> ModelState;

/// The state after the classifier learns a text as ham.
pub uninterp spec fn trained_ham_of(m: ModelState, text: Seq<char>) -> ModelState;

/// The classifier's spam verdict on a text, given its state.
pub uninterp spec fn spam_verdict_of(m: ModelState, text: Seq<char>) -> bool;

/// The bit pattern of the classifier's spam score on a text, given its state.
pub uninterp spec fn score_bits_of(m: ModelState, text: Seq<char>) -> u32;

/// The state that a serialized model parses to, or `None` where the bytes are
/// not a valid model.
pub uninterp spec fn parse_of(bytes: Seq<u8>) -> Option<ModelState>;

/// The state of a model that has learned nothing: no token, no count.
pub open spec fn empty_state() -> ModelState {
    Map::empty()
}

/// Relies on bayespam's `Classifier::new`: builds a classifier with an empty
/// model — a defaulted value, whose token table holds nothing.
#[verifier::external_body]
pub(crate) fn new_classifier() -> (r: Classifier)
    ensures
        state_of(r) == empty_state(),
{
    Classifier::new()
}

/// Relies on `serde_json::to_vec` over bayespam's `Classifier`, whose derived
/// `Serialize`/`Deserialize` round-trip through JSON: a serialized model
/// parses back to the token table it was written from. Success is owed:
/// serializing a string-keyed table of integer counters into memory cannot
/// fail (no writer to error, no non-string key, no fallible impl).
#[verifier::external_body]
pub(crate) fn save_model(c: &Classifier) -> (r: Result<Vec<u8>, StorageError>)
    ensures
        r is Ok,
        r is Ok ==> parse_of(r.unwrap()@) == Some(state_of(*c)),
{
    match serde_json::to_vec(c) {
        Ok(bytes) => Ok(bytes),
        Err(_) => Err(StorageError::WriteFailure),
    }
}

/// Relies on `serde_json::from_slice` over bayespam's `Classifier`:
/// deserialization is a function of the bytes alone, and fails exactly where
/// the bytes are not a valid model. Rebuilding the running totals sums the
/// parsed counts; see the module note on overflow for bytes whose counts sum
/// past `u32::MAX`.
#[verifier::external_body]
pub(crate) fn load_model(bytes: &Vec<u8>) -> (r: Result<Classifier, ()>)
    ensures
        r is Ok <==> parse_of(bytes@) is Some,
        r is Ok ==> state_of(r.unwrap()) == parse_of(bytes@).unwrap(),
{
    match serde_json::from_slice::<Classifier>(bytes.as_slice()) {
        Ok(c) => Ok(c),
        Err(_) => Err(()),
    }
}

/// Relies on bayespam's `Classifier::train_spam`: adds each word of the text
/// to the token table's spam counts; the new state is a function of the old
/// state and the text. The increments are plain `u32` additions; see the
/// module note on overflow.
#[verifier::external_body]
pub(crate) fn train_spam(c: &mut Classifier, text: &str)
    ensures
        state_of(*final(c)) == trained_spam_of(state_of(*old(c)), text@),
{
    c.train_spam(text);
}

/// Relies on bayespam's `Classifier::train_ham`: adds each word of the text
/// to the token table's ham counts; the new state is a function of the old
/// state and the text. The increments are plain `u32` additions; see the
/// module note on overflow.
#[verifier::external_body]
pub(crate) fn train_ham(c: &mut Classifier, text: &str)
    ensures
        state_of(*final(c)) == trained_ham_of(state_of(*old(c)), text@),
{
    c.train_ham(text);
}

/// Relies on bayespam's `Classifier::identify`: the verdict is a function of
/// the classifier's state and the text, and reading it mutates nothing.
#[verifier::external_body]
pub(crate) fn identify(c: &Classifier, text: &str) -> (r: bool)
    ensures
        r == spam_verdict_of(state_of(*c), text@),
{
    c.identify(text)
}

/// Relies on bayespam's `Classifier::score`: the score is a function of the
/// classifier's state and the text, and reading it mutates nothing; it is
/// handed on as its raw bit pattern.
#[verifier::external_body]
pub(crate) fn score_bits(c: &Classifier, text: &str) -> (r: u32)
    ensures
        r == score_bits_of(state_of(*c), text@),
{
    c.score(text).to_bits()
}

} // verus!
