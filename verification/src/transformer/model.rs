//! The language model: embeddings in, scores for the next token out.

use vstd::prelude::*;
use std::sync::Arc;
use candle_core::Tensor;
use candle_nn::RmsNorm;
use crate::backend::{device_of, dims_of, share, tensor_dims};
use crate::model_config::DeepseekV2Config;
use crate::transformer::attention::{flash_choice, resolve_flash_attention};
use crate::transformer::cache::{
    guard_result,
    CacheError,
    CacheView,
    DynamicCache,
    GuardRefused,
    PromptCacheGuard,
};
use crate::transformer::decoder::{
    dims_of_opt,
    stack_fault,
    view_of,
    DecoderLayers,
    DecoderOutput,
    TransformerDecoder,
};
use crate::transformer::embedding::{
    check_lookup,
    embed_ids,
    embedded,
    embedded_dims,
    lookup_fault,
};
use crate::transformer::error::ModelError;
use crate::transformer::positions::{
    check_positions,
    positions_chosen,
    positions_fault,
    resolve_positions,
};
use crate::transformer::projection::{
    check_projection,
    logits_dims,
    project_logits,
    projection_fault,
};

verus! {

/// The result of a forward pass: the normalised hidden states of the last
/// layer, the scores of the vocabulary for every position, and the
/// load-balancing loss of architectures that route between experts.
#[derive(Debug)]
pub struct LanguageModelOutput {
    pub hidden_states: Tensor,
    pub logits: Tensor,
    pub aux_loss: Option<Tensor>,
}

/// The learned tensors of a language model.
///
/// `token_embedding` and `lm_head` have one row of hidden size for every
/// entry of the vocabulary; `final_layernorm` holds the weight vector and
/// the epsilon of the last normalisation.
pub struct DeepseekLanguageModelWeights<L> {
    pub transformer: L,
    pub token_embedding: Tensor,
    pub final_layernorm: RmsNorm,
    pub lm_head: Tensor,
}

/// The text decoder: embedding lookup, decoder stack with key/value cache,
/// final normalisation and projection onto the vocabulary.
pub struct DeepseekLanguageModel<L: DecoderLayers> {
    cfg: Arc<DeepseekV2Config>,
    decoder: TransformerDecoder<L>,
    transformer_weights: Arc<L>,
    token_embedding: Tensor,
    final_layernorm: RmsNorm,
    lm_head: Tensor,
}

/// The dimension sizes that a call gives by its tensors.
pub struct CallShape {
    /// The dimension sizes of the token ids, if ids were given.
    pub ids: Option<Seq<usize>>,
    /// The dimension sizes of the embeddings, if embeddings were given.
    pub embeds: Option<Seq<usize>>,
    /// The dimension sizes of the position indices, if any were given.
    pub positions: Option<Seq<usize>>,
}

/// The dimension sizes of the embeddings that the decoder gets: those
/// given, or those of the ids looked up in a table with the dimension
/// sizes `table`.
pub open spec fn input_dims(table: Seq<usize>, call: CallShape) -> Seq<usize> {
    match call.embeds {
        Some(dims) => dims,
        None => embedded_dims(table, call.ids->0),
    }
}

/// The number of positions that a cache holds; zero without a cache.
pub open spec fn past_len(cache: Option<CacheView>) -> usize {
    match cache {
        Some(c) => if c.ends.len() == 0 {
            0
        } else {
            c.ends.last()
        },
        None => 0,
    }
}

/// The fault of a call that can be told from the dimension sizes of its
/// tensors and from the state of the cache, if there is one. The faults are
/// looked for in this order: the input mode, a missing cache, the lookup of
/// the ids, the axes of the embeddings, the positions to synthesise, the
/// projection, and at last what the decoder stack finds.
pub open spec fn call_fault(
    table: Seq<usize>,
    head: Seq<usize>,
    vocab: usize,
    depth: usize,
    call: CallShape,
    cache: Option<CacheView>,
    use_cache: bool,
) -> Option<ModelError> {
    if (call.ids is Some) == (call.embeds is Some) {
        Some(ModelError::AmbiguousInput)
    } else if use_cache && cache is None {
        Some(ModelError::CacheRequired)
    } else if call.ids is Some && lookup_fault(table, call.ids->0) is Some {
        lookup_fault(table, call.ids->0)
    } else {
        let dims = input_dims(table, call);
        if dims.len() != 3 {
            Some(ModelError::EmbeddingsRank(dims.len() as usize))
        } else if call.positions is None && positions_fault(past_len(cache), dims[0], dims[1])
            is Some {
            positions_fault(past_len(cache), dims[0], dims[1])
        } else if projection_fault(dims, head, vocab) is Some {
            projection_fault(dims, head, vocab)
        } else {
            stack_fault(
                depth,
                dims,
                match call.positions {
                    Some(p) => Some(p),
                    None => Some(seq![dims[0], dims[1]]),
                },
                cache,
                use_cache,
            )
        }
    }
}

/// `embeds` are the embeddings of a call: those that the caller gave, as
/// they are, or else those of the ids looked up in `table`.
pub open spec fn embeds_chosen(
    table: Tensor,
    input_ids: Option<&Tensor>,
    inputs_embeds: Option<&Tensor>,
    embeds: Tensor,
) -> bool {
    match inputs_embeds {
        Some(t) => embeds == *t,
        None => input_ids matches Some(ids) && embedded(table, *ids, embeds),
    }
}

impl<L: DecoderLayers> DeepseekLanguageModel<L> {
    /// The decoder stack of the model.
    pub closed spec fn stack(&self) -> TransformerDecoder<L> {
        self.decoder
    }

    /// The decoder stack has the parameters, the layers and the attention
    /// kernel of the model.
    pub proof fn lemma_stack_is_the_models(&self)
        requires
            self.wf(),
        ensures
            self.stack().config() == self.parameters(),
            self.stack().layers() == self.layers(),
            self.stack().flash_attention() == self.flash_attention(),
    {
    }

    /// The steps of a call that succeeded: `embeds` and `positions` were
    /// chosen for the call, the decoder stack ran on them and handed back
    /// `decoded`, with the cache holding `after` afterwards, and `out` is
    /// the projection of `decoded` with its loss.
    pub open spec fn steps(
        &self,
        input_ids: Option<&Tensor>,
        inputs_embeds: Option<&Tensor>,
        attention_mask: Option<&Tensor>,
        position_ids: Option<&Tensor>,
        past: Option<&DynamicCache>,
        use_cache: bool,
        embeds: Tensor,
        positions: Tensor,
        decoded: DecoderOutput,
        out: LanguageModelOutput,
        after: Option<CacheView>,
    ) -> bool {
        &&& embeds_chosen(self.table(), input_ids, inputs_embeds, embeds)
        &&& positions_chosen(
            position_ids,
            past_len(view_of(past)),
            tensor_dims(embeds)[0],
            tensor_dims(embeds)[1],
            positions,
        )
        &&& self.stack().succeeded(
            embeds,
            attention_mask,
            Some(&positions),
            past,
            use_cache,
            decoded,
            after,
        )
        &&& out.aux_loss == decoded.aux_loss
        &&& tensor_dims(out.hidden_states) == tensor_dims(decoded.hidden_states)
        &&& tensor_dims(out.logits) == logits_dims(
            tensor_dims(embeds),
            self.parameters().vocab_size,
        )
    }

    /// A call succeeded with `out`: there are embeddings, positions and an
    /// output of the decoder stack with which the steps of the call hold.
    pub open spec fn ran(
        &self,
        input_ids: Option<&Tensor>,
        inputs_embeds: Option<&Tensor>,
        attention_mask: Option<&Tensor>,
        position_ids: Option<&Tensor>,
        past: Option<&DynamicCache>,
        use_cache: bool,
        out: LanguageModelOutput,
        after: Option<CacheView>,
    ) -> bool {
        exists|embeds: Tensor, positions: Tensor, decoded: DecoderOutput| #[trigger]
            self.steps(
                input_ids,
                inputs_embeds,
                attention_mask,
                position_ids,
                past,
                use_cache,
                embeds,
                positions,
                decoded,
                out,
                after,
            )
    }

    /// Two calls of one model on the same inputs that both succeed give
    /// hidden states of the same dimension sizes and scores of the same
    /// dimension sizes, whatever the caches of the two calls hold.
    pub proof fn lemma_same_inputs_same_shapes(
        &self,
        input_ids: Option<&Tensor>,
        inputs_embeds: Option<&Tensor>,
        attention_mask: Option<&Tensor>,
        position_ids: Option<&Tensor>,
        first: (Option<&DynamicCache>, bool, LanguageModelOutput, Option<CacheView>),
        second: (Option<&DynamicCache>, bool, LanguageModelOutput, Option<CacheView>),
    )
        requires
            self.ran(
                input_ids,
                inputs_embeds,
                attention_mask,
                position_ids,
                first.0,
                first.1,
                first.2,
                first.3,
            ),
            self.ran(
                input_ids,
                inputs_embeds,
                attention_mask,
                position_ids,
                second.0,
                second.1,
                second.2,
                second.3,
            ),
        ensures
            tensor_dims(first.2.logits) == tensor_dims(second.2.logits),
            tensor_dims(first.2.hidden_states) == tensor_dims(second.2.hidden_states),
    {
    }

    /// The parameters of the model.
    pub closed spec fn parameters(&self) -> Arc<DeepseekV2Config> {
        self.cfg
    }

    /// The layers of the decoder stack.
    pub closed spec fn layers(&self) -> Arc<L> {
        self.transformer_weights
    }

    /// The embedding table.
    pub closed spec fn table(&self) -> Tensor {
        self.token_embedding
    }

    /// The projection matrix.
    pub closed spec fn head(&self) -> Tensor {
        self.lm_head
    }

    /// The last normalisation.
    pub closed spec fn norm(&self) -> RmsNorm {
        self.final_layernorm
    }

    /// Whether the model uses the fused attention kernel.
    pub closed spec fn flash_attention(&self) -> bool {
        self.decoder.flash_attention()
    }

    /// The decoder stack belongs to the model: it has the model's
    /// parameters and layers. This holds of every model.
    #[verifier::type_invariant]
    pub closed spec fn wf(&self) -> bool {
        &&& self.decoder.config() == self.cfg
        &&& self.decoder.layers() == self.transformer_weights
    }

    /// Builds the model from its parameters and learned tensors.
    ///
    /// The attention kernel is chosen here, once: `flash_override` is the
    /// setting that overrides the configuration, if one was made.
    pub fn from_weights(
        cfg: Arc<DeepseekV2Config>,
        weights: DeepseekLanguageModelWeights<L>,
        flash_override: Option<&str>,
    ) -> (r: Self)
        ensures
            r.wf(),
            r.parameters() == cfg,
            *r.layers() == weights.transformer,
            r.table() == weights.token_embedding,
            r.head() == weights.lm_head,
            r.norm() == weights.final_layernorm,
            r.flash_attention() == flash_choice(
                match cfg.attn_implementation {
                    Some(s) => Some(s@),
                    None => None,
                },
                match flash_override {
                    Some(s) => Some(s@),
                    None => None,
                },
            ),
    {
        let DeepseekLanguageModelWeights { transformer, token_embedding, final_layernorm, lm_head } =
            weights;
        let transformer = Arc::new(transformer);
        let configured = match &cfg.attn_implementation {
            Some(s) => Some(s.as_str()),
            None => None,
        };
        let use_flash_attention = resolve_flash_attention(configured, flash_override);
        let decoder = TransformerDecoder::new(share(&cfg), share(&transformer), use_flash_attention);
        DeepseekLanguageModel {
            cfg,
            decoder,
            transformer_weights: transformer,
            token_embedding,
            final_layernorm,
            lm_head,
        }
    }

    pub fn config(&self) -> (r: &DeepseekV2Config)
        ensures
            *r == *self.parameters(),
    {
        &*self.cfg
    }

    /// A second handle on the parameters of the model.
    pub fn config_arc(&self) -> (r: Arc<DeepseekV2Config>)
        ensures
            r == self.parameters(),
    {
        share(&self.cfg)
    }

    pub fn transformer_weights(&self) -> (r: &L)
        ensures
            *r == *self.layers(),
    {
        &*self.transformer_weights
    }

    pub fn transformer_weights_arc(&self) -> (r: Arc<L>)
        ensures
            r == self.layers(),
    {
        share(&self.transformer_weights)
    }

    pub fn flash_attention_enabled(&self) -> (b: bool)
        ensures
            b == self.flash_attention(),
    {
        self.decoder.flash_attention_enabled()
    }

    /// The embeddings of the token ids `input_ids`, which have the axes
    /// batch and sequence; the result has the axes batch, sequence and
    /// hidden.
    pub fn embed_tokens(&self, input_ids: &Tensor) -> (r: Result<Tensor, ModelError>)
        ensures
            lookup_fault(tensor_dims(self.table()), tensor_dims(*input_ids)) matches Some(fault)
                ==> r == Err::<Tensor, ModelError>(fault),
            lookup_fault(tensor_dims(self.table()), tensor_dims(*input_ids)) is None ==> match r {
                Ok(out) => embedded(self.table(), *input_ids, out),
                Err(e) => e is Backend,
            },
    {
        embed_ids(&self.token_embedding, input_ids)
    }

    /// Hands `cache` over to a prompt guard, which holds it while the
    /// prompt of a session is run and gives it back on release. A cache
    /// that carries the mark of a guard is refused and handed back.
    pub fn prompt_guard(&self, cache: DynamicCache) -> (r: Result<PromptCacheGuard, GuardRefused>)
        ensures
            guard_result(cache, r),
    {
        self.decoder.prompt_guard(cache)
    }

    /// Checks a call against everything that its dimension sizes and the
    /// state of the cache tell. `ids`, `embeds` and `positions` are the
    /// dimension sizes of the tensors that the call brings.
    pub fn check_call(
        &self,
        ids: Option<&Vec<usize>>,
        embeds: Option<&Vec<usize>>,
        positions: Option<&Vec<usize>>,
        cache: Option<&DynamicCache>,
        use_cache: bool,
    ) -> (r: Result<(), ModelError>)
        ensures
            r == (match call_fault(
                tensor_dims(self.table()),
                tensor_dims(self.head()),
                self.parameters().vocab_size,
                self.parameters().num_hidden_layers,
                CallShape {
                    ids: match ids {
                        Some(d) => Some(d@),
                        None => None,
                    },
                    embeds: match embeds {
                        Some(d) => Some(d@),
                        None => None,
                    },
                    positions: match positions {
                        Some(d) => Some(d@),
                        None => None,
                    },
                },
                match cache {
                    Some(c) => Some(c@),
                    None => None,
                },
                use_cache,
            ) {
                Some(fault) => Err::<(), ModelError>(fault),
                None => Ok::<(), ModelError>(()),
            }),
    {
        proof {
            use_type_invariant(self);
        }
        if ids.is_some() == embeds.is_some() {
            return Err(ModelError::AmbiguousInput);
        }
        if use_cache && cache.is_none() {
            return Err(ModelError::CacheRequired);
        }
        let table = dims_of(&self.token_embedding);
        let head = dims_of(&self.lm_head);
        let dims: Vec<usize> = match embeds {
            Some(d) => {
                if d.len() != 3 {
                    return Err(ModelError::EmbeddingsRank(d.len()));
                }
                let same = vec![d[0], d[1], d[2]];
                assert(same@ =~= d@);
                same
            },
            None => {
                let d = ids.unwrap();
                match check_lookup(&table, d) {
                    Ok((batch, seq_len, hidden)) => vec![batch, seq_len, hidden],
                    Err(e) => {
                        return Err(e);
                    },
                }
            },
        };
        let past = match cache {
            Some(c) => c.len(),
            None => 0,
        };
        if positions.is_none() {
            match check_positions(past, dims[0], dims[1]) {
                Ok(_) => {},
                Err(e) => {
                    return Err(e);
                },
            }
        }
        match check_projection(&dims, &head, self.cfg.vocab_size) {
            Ok(_) => {},
            Err(e) => {
                return Err(e);
            },
        }
        if let Some(p) = positions {
            if !(p.len() == 2 && p[0] == dims[0] && p[1] == dims[1]) {
                return Err(ModelError::PositionShape);
            }
            assert(p@ =~= seq![dims@[0], dims@[1]]);
        }
        if let Some(c) = cache {
            if c.num_layers() != self.cfg.num_hidden_layers {
                return Err(ModelError::Cache(CacheError::LayerCountMismatch));
            }
            if use_cache && c.len().checked_add(dims[1]).is_none() {
                return Err(ModelError::Cache(CacheError::LengthOverflow));
            }
        }
        Ok(())
    }

    /// Runs the model on one call.
    ///
    /// Exactly one of `input_ids` and `inputs_embeds` is given. Token ids
    /// have the axes batch and sequence and are looked up in the embedding
    /// table; embeddings have the axes batch, sequence and hidden. Without
    /// `position_ids`, every batch row gets the positions that continue the
    /// cache: they count from the length of the cache upwards. With
    /// `use_cache`, the keys and values of the new positions go behind
    /// those that the cache holds.
    ///
    /// A fault that the dimension sizes or the cache tell is reported
    /// before anything is computed and leaves the cache as it is. In a call
    /// without such a fault the layers and the backend decide: a call that
    /// succeeds returns scores with the axes batch, sequence and
    /// vocabulary and has grown the cache by the new positions and nothing
    /// else: `ran` tells the steps of such a call, from the embeddings and
    /// the positions that were chosen, over what every layer handed back,
    /// to the chunks that went into the cache. A call that fails has left
    /// the cache as it is, or, where the backend refused the projection
    /// after the layers had run, has grown it in the same way.
    pub fn forward(
        &self,
        input_ids: Option<&Tensor>,
        inputs_embeds: Option<&Tensor>,
        attention_mask: Option<&Tensor>,
        position_ids: Option<&Tensor>,
        cache: Option<&mut DynamicCache>,
        use_cache: bool,
    ) -> (r: Result<LanguageModelOutput, ModelError>)
        requires
            cache matches Some(c) ==> c.wf(),
        ensures
            cache matches Some(c) ==> final(c).wf(),
            (input_ids is Some) == (inputs_embeds is Some) ==> r == Err::<
                LanguageModelOutput,
                ModelError,
            >(ModelError::AmbiguousInput) && (cache matches Some(c) ==> final(c)@ == c@),
            (input_ids is Some) != (inputs_embeds is Some) && use_cache && cache is None ==> r
                == Err::<LanguageModelOutput, ModelError>(ModelError::CacheRequired),
            r matches Ok(out) ==> tensor_dims(out.logits).len() == 3 && tensor_dims(
                out.logits,
            ).last() == self.parameters().vocab_size,
            r matches Err(e) ==> (e.is_validation() ==> (cache matches Some(c) ==> final(c)@
                == c@)),
            self.fault_of(
                input_ids,
                inputs_embeds,
                position_ids,
                match cache {
                    Some(c) => Some(c@),
                    None => None,
                },
                use_cache,
            ) matches Some(fault) ==> r == Err::<LanguageModelOutput, ModelError>(fault) && (
            cache matches Some(c) ==> final(c)@ == c@),
            self.fault_of(
                input_ids,
                inputs_embeds,
                position_ids,
                match cache {
                    Some(c) => Some(c@),
                    None => None,
                },
                use_cache,
            ) is None ==> match r {
                Ok(out) => {
                    let dims = self.embeds_dims(input_ids, inputs_embeds);
                    &&& tensor_dims(out.hidden_states) == dims
                    &&& tensor_dims(out.logits) == logits_dims(dims, self.parameters().vocab_size)
                    &&& cache matches Some(c) ==> (if use_cache {
                        c@.grown_by(final(c)@, dims[1] as nat)
                    } else {
                        final(c)@ == c@
                    })
                    &&& self.ran(
                        input_ids,
                        inputs_embeds,
                        attention_mask,
                        position_ids,
                        match cache {
                            Some(c) => Some(&*c),
                            None => None,
                        },
                        use_cache,
                        out,
                        match cache {
                            Some(c) => Some(final(c)@),
                            None => None,
                        },
                    )
                },
                Err(e) => {
                    let dims = self.embeds_dims(input_ids, inputs_embeds);
                    &&& e is Backend || e is LayerShape || e is SizeOverflow || e is LossType
                    &&& cache matches Some(c) ==> (final(c)@ == c@ || (use_cache && c@.grown_by(
                        final(c)@,
                        dims[1] as nat,
                    )))
                },
            },
    {
        proof {
            use_type_invariant(self);
        }
        let ids_dims = match input_ids {
            Some(t) => Some(dims_of(t)),
            None => None,
        };
        let embeds_dims = match inputs_embeds {
            Some(t) => Some(dims_of(t)),
            None => None,
        };
        let positions_dims = match position_ids {
            Some(t) => Some(dims_of(t)),
            None => None,
        };
        match cache {
            None => {
                match self.check_call(
                    ids_dims.as_ref(),
                    embeds_dims.as_ref(),
                    positions_dims.as_ref(),
                    None,
                    use_cache,
                ) {
                    Ok(()) => {},
                    Err(e) => {
                        return Err(e);
                    },
                }
                self.run(input_ids, inputs_embeds, attention_mask, position_ids, None, use_cache)
            },
            Some(c) => {
                match self.check_call(
                    ids_dims.as_ref(),
                    embeds_dims.as_ref(),
                    positions_dims.as_ref(),
                    Some(&*c),
                    use_cache,
                ) {
                    Ok(()) => {},
                    Err(e) => {
                        return Err(e);
                    },
                }
                self.run(
                    input_ids,
                    inputs_embeds,
                    attention_mask,
                    position_ids,
                    Some(c),
                    use_cache,
                )
            },
        }
    }

    /// The fault of a call, as `call_fault` tells it of the model's tensors
    /// and parameters.
    pub open spec fn fault_of(
        &self,
        input_ids: Option<&Tensor>,
        inputs_embeds: Option<&Tensor>,
        position_ids: Option<&Tensor>,
        cache: Option<CacheView>,
        use_cache: bool,
    ) -> Option<ModelError> {
        call_fault(
            tensor_dims(self.table()),
            tensor_dims(self.head()),
            self.parameters().vocab_size,
            self.parameters().num_hidden_layers,
            CallShape {
                ids: dims_of_opt(input_ids),
                embeds: dims_of_opt(inputs_embeds),
                positions: dims_of_opt(position_ids),
            },
            cache,
            use_cache,
        )
    }

    /// The dimension sizes of the embeddings of a call: batch, sequence,
    /// hidden.
    pub open spec fn embeds_dims(
        &self,
        input_ids: Option<&Tensor>,
        inputs_embeds: Option<&Tensor>,
    ) -> Seq<usize> {
        input_dims(
            tensor_dims(self.table()),
            CallShape {
                ids: dims_of_opt(input_ids),
                embeds: dims_of_opt(inputs_embeds),
                positions: None,
            },
        )
    }

    /// Runs a call that `check_call` found no fault in.
    fn run(
        &self,
        input_ids: Option<&Tensor>,
        inputs_embeds: Option<&Tensor>,
        attention_mask: Option<&Tensor>,
        position_ids: Option<&Tensor>,
        cache: Option<&mut DynamicCache>,
        use_cache: bool,
    ) -> (r: Result<LanguageModelOutput, ModelError>)
        requires
            cache matches Some(c) ==> c.wf(),
            self.fault_of(
                input_ids,
                inputs_embeds,
                position_ids,
                match cache {
                    Some(c) => Some(c@),
                    None => None,
                },
                use_cache,
            ) is None,
        ensures
            cache matches Some(c) ==> final(c).wf(),
            match r {
                Ok(out) => {
                    let dims = self.embeds_dims(input_ids, inputs_embeds);
                    &&& tensor_dims(out.hidden_states) == dims
                    &&& tensor_dims(out.logits) == logits_dims(dims, self.parameters().vocab_size)
                    &&& cache matches Some(c) ==> (if use_cache {
                        c@.grown_by(final(c)@, dims[1] as nat)
                    } else {
                        final(c)@ == c@
                    })
                    &&& self.ran(
                        input_ids,
                        inputs_embeds,
                        attention_mask,
                        position_ids,
                        match cache {
                            Some(c) => Some(&*c),
                            None => None,
                        },
                        use_cache,
                        out,
                        match cache {
                            Some(c) => Some(final(c)@),
                            None => None,
                        },
                    )
                },
                Err(e) => {
                    let dims = self.embeds_dims(input_ids, inputs_embeds);
                    &&& e is Backend || e is LayerShape || e is SizeOverflow || e is LossType
                    &&& cache matches Some(c) ==> (final(c)@ == c@ || (use_cache && c@.grown_by(
                        final(c)@,
                        dims[1] as nat,
                    )))
                },
            },
    {
        proof {
            use_type_invariant(self);
        }
        let embeds = match inputs_embeds {
            Some(t) => t.clone(),
            None => {
                let ids = input_ids.unwrap();
                match embed_ids(&self.token_embedding, ids) {
                    Ok(t) => t,
                    Err(e) => {
                        return Err(e);
                    },
                }
            },
        };
        let dims = dims_of(&embeds);
        let batch = dims[0];
        let seq_len = dims[1];
        let stored = match &cache {
            Some(c) => c.len(),
            None => 0,
        };
        let device = device_of(&embeds);
        let positions = match resolve_positions(position_ids, stored, batch, seq_len, &device) {
            Ok(t) => t,
            Err(e) => {
                return Err(e);
            },
        };
        match cache {
            None => {
                let decoded = match self.decoder.forward(
                    &embeds,
                    attention_mask,
                    Some(&positions),
                    None,
                    use_cache,
                ) {
                    Ok(out) => out,
                    Err(e) => {
                        return Err(e);
                    },
                };
                let ghost stacked = decoded;
                match self.project(decoded) {
                    Ok(out) => {
                        assert(self.steps(
                            input_ids,
                            inputs_embeds,
                            attention_mask,
                            position_ids,
                            None,
                            use_cache,
                            embeds,
                            positions,
                            stacked,
                            out,
                            None,
                        ));
                        Ok(out)
                    },
                    Err(e) => Err(e),
                }
            },
            Some(c) => {
                let ghost before = *c;
                let decoded = match self.decoder.forward(
                    &embeds,
                    attention_mask,
                    Some(&positions),
                    Some(&mut *c),
                    use_cache,
                ) {
                    Ok(out) => out,
                    Err(e) => {
                        return Err(e);
                    },
                };
                let ghost stacked = decoded;
                match self.project(decoded) {
                    Ok(out) => {
                        assert(self.steps(
                            input_ids,
                            inputs_embeds,
                            attention_mask,
                            position_ids,
                            Some(&before),
                            use_cache,
                            embeds,
                            positions,
                            stacked,
                            out,
                            Some(c@),
                        ));
                        Ok(out)
                    },
                    Err(e) => Err(e),
                }
            },
        }
    }

    /// Normalises and projects what the decoder stack handed back, and
    /// hands its loss on.
    fn project(&self, decoded: DecoderOutput) -> (r: Result<LanguageModelOutput, ModelError>)
        requires
            projection_fault(
                tensor_dims(decoded.hidden_states),
                tensor_dims(self.head()),
                self.parameters().vocab_size,
            ) is None,
        ensures
            match r {
                Ok(out) => out.aux_loss == decoded.aux_loss && tensor_dims(out.hidden_states)
                    == tensor_dims(decoded.hidden_states) && tensor_dims(out.logits)
                    == logits_dims(
                    tensor_dims(decoded.hidden_states),
                    self.parameters().vocab_size,
                ),
                Err(e) => e is Backend,
            },
    {
        let DecoderOutput { hidden_states, aux_loss } = decoded;
        match project_logits(
            &self.final_layernorm,
            &self.lm_head,
            self.cfg.vocab_size,
            &hidden_states,
        ) {
            Ok((normed, logits)) => Ok(LanguageModelOutput { hidden_states: normed, logits, aux_loss }),
            Err(e) => Err(e),
        }
    }
}

} // verus!
