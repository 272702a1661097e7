//! Assets that are loaded once and shared by everyone who asks for them.
//!
//! A slot starts empty. The first successful load fills it, and every
//! later caller gets what it holds without loading again. A load that
//! fails leaves the slot empty, so that the next caller tries again. The
//! slot is changed through an exclusive reference: whoever shares a slot
//! between threads puts it behind a lock, and so only one load runs at a
//! time. Which of several waiting callers gets to load next after a failed
//! load is left to the lock and is not specified.

use vstd::prelude::*;
use std::sync::Arc;
use crate::backend::share;
use crate::model_config::DeepseekV2Config;
use crate::transformer::decoder::DecoderLayers;
use crate::transformer::model::DeepseekLanguageModel;

verus! {

/// A place for a value that is loaded on first use.
pub struct SharedSlot<T> {
    value: Option<T>,
}

impl<T> View for SharedSlot<T> {
    type V = Option<T>;

    /// What the slot holds, if it was filled.
    closed spec fn view(&self) -> Option<T> {
        self.value
    }
}

impl<T> SharedSlot<T> {
    /// An empty slot.
    pub fn new() -> (r: Self)
        ensures
            r@ is None,
    {
        SharedSlot { value: None }
    }

    /// Whether the slot was filled.
    pub fn is_loaded(&self) -> (b: bool)
        ensures
            b == (self@ is Some),
    {
        self.value.is_some()
    }

    /// What the slot holds.
    pub fn get(&self) -> (r: Option<&T>)
        ensures
            r == (match self@ {
                Some(v) => Some(&v),
                None => None,
            }),
    {
        self.value.as_ref()
    }

    /// What the slot holds, after filling it by `load` if it was empty. A
    /// filled slot is left as it is and `load` is not called; a load that
    /// fails leaves the slot empty and its error is returned.
    pub fn get_or_try_init<E, F: FnOnce() -> Result<T, E>>(&mut self, load: F) -> (r: Result<
        &T,
        E,
    >)
        requires
            old(self)@ is None ==> load.requires(()),
        ensures
            old(self)@ matches Some(v) ==> r == Ok::<&T, E>(&v) && final(self)@ == old(self)@,
            old(self)@ is None ==> match r {
                Ok(v) => final(self)@ == Some(*v) && load.ensures((), Ok(*v)),
                Err(e) => final(self)@ is None && load.ensures((), Err(e)),
            },
    {
        if self.value.is_none() {
            match load() {
                Ok(v) => {
                    self.value = Some(v);
                },
                Err(e) => {
                    return Err(e);
                },
            }
        }
        Ok(self.value.as_ref().unwrap())
    }
}

/// The assets of the language model that are shared: its parameters, the
/// layers of its decoder stack, and the model itself.
///
/// The parameters and the layers are the model's own: `wf` says so, and it
/// holds of every value of this type.
pub struct SharedLanguageAssets<L: DecoderLayers> {
    config: Arc<DeepseekV2Config>,
    transformer: Arc<L>,
    language_model: Arc<DeepseekLanguageModel<L>>,
}

impl<L: DecoderLayers> SharedLanguageAssets<L> {
    /// The shared model.
    pub closed spec fn model(&self) -> Arc<DeepseekLanguageModel<L>> {
        self.language_model
    }

    /// The shared parameters.
    pub closed spec fn parameters(&self) -> Arc<DeepseekV2Config> {
        self.config
    }

    /// The shared layers.
    pub closed spec fn layers(&self) -> Arc<L> {
        self.transformer
    }

    /// The shared parameters and layers are those of the shared model.
    #[verifier::type_invariant]
    pub open spec fn wf(&self) -> bool {
        &&& self.parameters() == self.model().parameters()
        &&& self.layers() == self.model().layers()
    }

    /// The assets of a model that was just built.
    pub fn new(model: DeepseekLanguageModel<L>) -> (r: Self)
        ensures
            r.wf(),
            *r.model() == model,
    {
        let config = model.config_arc();
        let transformer = model.transformer_weights_arc();
        SharedLanguageAssets { config, transformer, language_model: Arc::new(model) }
    }

    /// The parameters of the shared model.
    pub fn config(&self) -> (r: Arc<DeepseekV2Config>)
        ensures
            r == self.parameters(),
            r == self.model().parameters(),
    {
        proof {
            use_type_invariant(self);
        }
        share(&self.config)
    }

    /// The layers of the shared model.
    pub fn transformer(&self) -> (r: Arc<L>)
        ensures
            r == self.layers(),
            r == self.model().layers(),
    {
        proof {
            use_type_invariant(self);
        }
        share(&self.transformer)
    }

    /// The shared model.
    pub fn language_model(&self) -> (r: &DeepseekLanguageModel<L>)
        ensures
            *r == *self.model(),
    {
        &*self.language_model
    }
}

/// What asking a slot for its value gives: what the slot held, or what
/// `load` returned for an empty slot; and the slot holds afterwards what
/// was handed out.
pub open spec fn slot_outcome<T, E, F: FnOnce() -> Result<T, E>>(
    before: Option<T>,
    load: F,
    after: Option<T>,
    r: Result<T, E>,
) -> bool {
    match before {
        Some(held) => r == Ok::<T, E>(held) && after == before,
        None => match r {
            Ok(loaded) => after == Some(loaded) && load.ensures((), Ok(loaded)),
            Err(e) => after is None && load.ensures((), Err(e)),
        },
    }
}

/// The shared model, loaded by `load` if no caller loaded it before.
pub fn shared_ocr_model<M, E, F: FnOnce() -> Result<Arc<M>, E>>(
    slot: &mut SharedSlot<Arc<M>>,
    load: F,
) -> (r: Result<Arc<M>, E>)
    requires
        old(slot)@ is None ==> load.requires(()),
    ensures
        slot_outcome(old(slot)@, load, final(slot)@, r),
{
    match slot.get_or_try_init(load) {
        Ok(model) => Ok(share(model)),
        Err(e) => Err(e),
    }
}

/// Runs `op` on the shared model, loaded by `load` if no caller loaded it
/// before. A load that fails is reported and `op` is not run.
pub fn with_shared_ocr_model<M, T, E, F: FnOnce() -> Result<Arc<M>, E>, Op: FnOnce(&M) -> Result<
    T,
    E,
>>(slot: &mut SharedSlot<Arc<M>>, load: F, op: Op) -> (r: Result<T, E>)
    requires
        old(slot)@ is None ==> load.requires(()),
        forall|model: &M| op.requires((model,)),
    ensures
        match final(slot)@ {
            Some(model) => slot_outcome(old(slot)@, load, final(slot)@, Ok::<Arc<M>, E>(model))
                && op.ensures((&*model,), r),
            None => r matches Err(e) && slot_outcome(
                old(slot)@,
                load,
                final(slot)@,
                Err::<Arc<M>, E>(e),
            ),
        },
{
    let model = match shared_ocr_model(slot, load) {
        Ok(model) => model,
        Err(e) => {
            return Err(e);
        },
    };
    op(&*model)
}

/// Runs `op` on the shared language model, its assets loaded by `load` if
/// no caller loaded them before. A load that fails is reported and `op` is
/// not run.
pub fn with_shared_language_model<
    L: DecoderLayers,
    T,
    E,
    F: FnOnce() -> Result<SharedLanguageAssets<L>, E>,
    Op: FnOnce(&DeepseekLanguageModel<L>) -> Result<T, E>,
>(slot: &mut SharedSlot<SharedLanguageAssets<L>>, load: F, op: Op) -> (r: Result<T, E>)
    requires
        old(slot)@ is None ==> load.requires(()),
        forall|model: &DeepseekLanguageModel<L>| op.requires((model,)),
    ensures
        match final(slot)@ {
            Some(assets) => slot_outcome(
                old(slot)@,
                load,
                final(slot)@,
                Ok::<SharedLanguageAssets<L>, E>(assets),
            ) && op.ensures((&*assets.model(),), r),
            None => r matches Err(e) && slot_outcome(
                old(slot)@,
                load,
                final(slot)@,
                Err::<SharedLanguageAssets<L>, E>(e),
            ),
        },
{
    let assets = match slot.get_or_try_init(load) {
        Ok(assets) => assets,
        Err(e) => {
            return Err(e);
        },
    };
    op(assets.language_model())
}

/// The parameters of the shared language model, its assets loaded by
/// `load` if no caller loaded them before.
pub fn shared_language_config<L: DecoderLayers, E, F: FnOnce() -> Result<
    SharedLanguageAssets<L>,
    E,
>>(slot: &mut SharedSlot<SharedLanguageAssets<L>>, load: F) -> (r: Result<
    Arc<DeepseekV2Config>,
    E,
>)
    requires
        old(slot)@ is None ==> load.requires(()),
    ensures
        match r {
            Ok(config) => final(slot)@ matches Some(assets) && config == assets.parameters()
                && config == assets.model().parameters() && slot_outcome(
                old(slot)@,
                load,
                final(slot)@,
                Ok::<SharedLanguageAssets<L>, E>(assets),
            ),
            Err(e) => slot_outcome(
                old(slot)@,
                load,
                final(slot)@,
                Err::<SharedLanguageAssets<L>, E>(e),
            ),
        },
{
    match slot.get_or_try_init(load) {
        Ok(assets) => Ok(assets.config()),
        Err(e) => Err(e),
    }
}

/// The decoder layers of the shared language model, its assets loaded by
/// `load` if no caller loaded them before.
pub fn shared_transformer_weights<L: DecoderLayers, E, F: FnOnce() -> Result<
    SharedLanguageAssets<L>,
    E,
>>(slot: &mut SharedSlot<SharedLanguageAssets<L>>, load: F) -> (r: Result<Arc<L>, E>)
    requires
        old(slot)@ is None ==> load.requires(()),
    ensures
        match r {
            Ok(layers) => final(slot)@ matches Some(assets) && layers == assets.layers()
                && layers == assets.model().layers() && slot_outcome(
                old(slot)@,
                load,
                final(slot)@,
                Ok::<SharedLanguageAssets<L>, E>(assets),
            ),
            Err(e) => slot_outcome(
                old(slot)@,
                load,
                final(slot)@,
                Err::<SharedLanguageAssets<L>, E>(e),
            ),
        },
{
    match slot.get_or_try_init(load) {
        Ok(assets) => Ok(assets.transformer()),
        Err(e) => Err(e),
    }
}

} // verus!
