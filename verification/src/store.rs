//! The model store: sole owner of the persisted classifier state.
//!
//! The store keeps the committed in-memory model together with the exact byte
//! image that the durable object holds for it. A train call is split along
//! the durable write, which only the caller can perform: [`ModelStore::prepare_train`]
//! computes the updated model and the fresh byte image to persist, and
//! [`ModelStore::complete_train`] publishes the update — atomically, by one
//! assignment of the committed fields — only where the durable write
//! succeeded. Until that publish, and forever where the write failed, the
//! previously committed model stays the one served, byte for byte.
//!
//! Train calls must be kept mutually exclusive by the caller (single-writer
//! discipline): each `prepare_train` must read the store after every earlier
//! train completed, and no other train may run between a `prepare_train` and
//! its `complete_train`. Check calls take the store by shared reference and
//! may run concurrently with each other.

use vstd::prelude::*;
use bayespam::classifier::Classifier;
use crate::errors::LoadError;
use crate::errors::StorageError;
use crate::model::ModelState;
use crate::model::empty_state;
use crate::model::load_model;
use crate::model::new_classifier;
use crate::model::parse_of;
use crate::model::save_model;
use crate::model::score_bits_of;
use crate::model::spam_verdict_of;
use crate::model::state_of;
use crate::model::trained_ham_of;
use crate::model::trained_spam_of;
use crate::model;

verus! {

/// The result of a check: the classifier's verdict and its score.
///
/// The score is whatever scale the external classifier defines; this layer
/// passes it through unchanged, as its raw bit pattern.
#[derive(Debug, Clone, Copy, PartialEq, Eq)]
pub struct Rating {
    pub spam: bool,
    pub score_bits: u32,
}

/// The state after one training example is applied to a committed model.
pub open spec fn trained_of(m: ModelState, text: Seq<char>, is_spam: bool) -> ModelState {
    if is_spam {
        trained_spam_of(m, text)
    } else {
        trained_ham_of(m, text)
    }
}

/// The state after a batch of training examples is applied in order.
pub open spec fn apply_examples(m: ModelState, examples: Seq<(Seq<char>, bool)>) -> ModelState
    decreases examples.len(),
{
    if examples.len() == 0 {
        m
    } else {
        trained_of(
            apply_examples(m, examples.drop_last()),
            examples.last().0,
            examples.last().1,
        )
    }
}

/// Law: committed training examples accumulate and none is lost. Applying one
/// batch of examples and then another is the same as applying all of them in
/// order, so every committed update carries every earlier example with it.
pub proof fn lemma_apply_examples_concat(
    m: ModelState,
    batch1: Seq<(Seq<char>, bool)>,
    batch2: Seq<(Seq<char>, bool)>,
)
    ensures
        apply_examples(m, batch1 + batch2) == apply_examples(apply_examples(m, batch1), batch2),
    decreases batch2.len(),
{
    if batch2.len() == 0 {
        assert(batch1 + batch2 =~= batch1);
    } else {
        lemma_apply_examples_concat(m, batch1, batch2.drop_last());
        assert((batch1 + batch2).drop_last() =~= batch1 + batch2.drop_last());
    }
}

/// Law: one committed train is one example appended to the batch. Together
/// with [`ModelStore::complete_train`]'s contract — each successful train
/// publishes exactly the committed state plus its one example — the committed
/// state after a run of trains is the initial state with every example of the
/// run applied in commit order.
pub proof fn lemma_apply_examples_push(
    m: ModelState,
    examples: Seq<(Seq<char>, bool)>,
    text: Seq<char>,
    is_spam: bool,
)
    ensures
        apply_examples(m, examples.push((text, is_spam))) == trained_of(
            apply_examples(m, examples),
            text,
            is_spam,
        ),
{
    assert(examples.push((text, is_spam)).drop_last() =~= examples);
}

/// A fully computed but not yet published training update: the updated model
/// and the byte image that must be durable before the update may be
/// committed.
pub struct TrainUpdate {
    model: Classifier,
    image: Vec<u8>,
}

impl TrainUpdate {
    /// The abstract state of the updated model.
    pub closed spec fn state(&self) -> ModelState {
        state_of(self.model)
    }

    /// The byte image to persist for the updated model.
    pub closed spec fn image_spec(&self) -> Seq<u8> {
        self.image@
    }

    /// The byte image parses back to the updated model's state.
    pub closed spec fn wf(&self) -> bool {
        parse_of(self.image@) == Some(self.state())
    }

    /// The bytes the caller must write durably before committing the update.
    pub fn image(&self) -> (r: &Vec<u8>)
        ensures
            r@ == self.image_spec(),
    {
        &self.image
    }
}

/// Sole reader and writer of the persisted classifier state: the committed
/// in-memory model plus the byte image the durable store holds for it.
pub struct ModelStore {
    committed: Classifier,
    committed_image: Vec<u8>,
}

impl ModelStore {
    /// The abstract state of the committed model: what every check reads and
    /// what only a completed train publish replaces.
    pub closed spec fn state(&self) -> ModelState {
        state_of(self.committed)
    }

    /// The byte image of the committed model: what the durable store holds.
    pub closed spec fn durable(&self) -> Seq<u8> {
        self.committed_image@
    }

    /// The committed byte image parses back to the committed state.
    pub closed spec fn wf(&self) -> bool {
        parse_of(self.committed_image@) == Some(self.state())
    }

    /// The committed model's byte image: what the durable object must hold.
    /// The caller persists it at first startup; afterwards every committed
    /// train keeps the durable object equal to it.
    pub fn durable_image(&self) -> (r: &Vec<u8>)
        ensures
            r@ == self.durable(),
    {
        &self.committed_image
    }

    /// Brings the store up from the durable state read at startup, or from
    /// nothing on first startup.
    ///
    /// With durable bytes present, they must parse, else the store refuses to
    /// come up (`CorruptState`). With none, the empty model is constructed —
    /// first startup cannot fail — and the caller must persist its image
    /// before serving (the second component of the result is `true` exactly
    /// then).
    pub fn load(durable: Option<Vec<u8>>) -> (r: Result<(ModelStore, bool), LoadError>)
        ensures
            match r {
                Ok((store, fresh)) => {
                    &&& store.wf()
                    &&& match durable {
                        Some(bytes) => !fresh && parse_of(bytes@) == Some(store.state())
                            && store.durable() == bytes@,
                        None => fresh && store.state() == empty_state(),
                    }
                },
                Err(e) => match durable {
                    Some(bytes) => e == LoadError::CorruptState && parse_of(bytes@) is None,
                    None => false,
                },
            },
    {
        match durable {
            Some(bytes) => {
                match load_model(&bytes) {
                    Ok(c) => Ok((ModelStore { committed: c, committed_image: bytes }, false)),
                    Err(_) => Err(LoadError::CorruptState),
                }
            },
            None => {
                let c = new_classifier();
                match save_model(&c) {
                    Ok(image) => Ok((ModelStore { committed: c, committed_image: image }, true)),
                    Err(_) => vstd::pervasive::unreached(),
                }
            },
        }
    }

    /// Classifies a text against the current committed model, mutating
    /// nothing: the store is taken by shared reference, so neither the
    /// committed model nor its durable image can change.
    pub fn check(&self, text: &str) -> (r: Rating)
        ensures
            r.spam == spam_verdict_of(self.state(), text@),
            r.score_bits == score_bits_of(self.state(), text@),
    {
        Rating {
            spam: model::identify(&self.committed, text),
            score_bits: model::score_bits(&self.committed, text),
        }
    }

    /// Computes a training update from the current committed model and one
    /// labeled example, without touching the committed state.
    ///
    /// The update's model is exactly the committed model plus the example,
    /// and its byte image parses back to that updated state. Success is
    /// owed: the committed image reparses by the store's own invariant, and
    /// serializing the updated model cannot fail. The store is taken by
    /// shared reference, so nothing committed can change.
    pub fn prepare_train(&self, text: &str, is_spam: bool) -> (update: TrainUpdate)
        requires
            self.wf(),
        ensures
            update.wf(),
            update.state() == trained_of(self.state(), text@, is_spam),
    {
        let mut working = match load_model(&self.committed_image) {
            Ok(c) => c,
            Err(_) => {
                return vstd::pervasive::unreached();
            },
        };
        if is_spam {
            model::train_spam(&mut working, text);
        } else {
            model::train_ham(&mut working, text);
        }
        match save_model(&working) {
            Ok(image) => TrainUpdate { model: working, image },
            Err(_) => vstd::pervasive::unreached(),
        }
    }

    /// Publishes a prepared update, given whether its byte image was written
    /// durably.
    ///
    /// Where the write succeeded, the update becomes the committed model in
    /// one atomic publish and the call reports success. Where the write
    /// failed, the update is discarded: the previously committed model and
    /// its durable image are left exactly as they were, fully servable, and
    /// the call reports `WriteFailure`.
    pub fn complete_train(&mut self, update: TrainUpdate, write_committed: bool) -> (r: Result<
        (),
        StorageError,
    >)
        requires
            old(self).wf(),
            update.wf(),
        ensures
            final(self).wf(),
            write_committed ==> r is Ok && final(self).state() == update.state()
                && final(self).durable() == update.image_spec(),
            !write_committed ==> r == Err::<(), StorageError>(StorageError::WriteFailure)
                && *final(self) == *old(self),
    {
        if write_committed {
            let TrainUpdate { model: m, image } = update;
            self.committed = m;
            self.committed_image = image;
            Ok(())
        } else {
            Err(StorageError::WriteFailure)
        }
    }
}

} // verus!
