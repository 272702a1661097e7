//! The decoder stack: the layers of the model, run one after the other.

use vstd::prelude::*;
use std::sync::Arc;
use candle_core::Tensor;
use crate::backend::{
    dims_of,
    dtype_of,
    is_float,
    sum_of,
    tensor_dims,
    tensor_dtype,
};
use crate::model_config::DeepseekV2Config;
use crate::shape::{checked_span, shape_fits};
use crate::runtime::ElementType;
use crate::transformer::cache::{
    append_outcome,
    guard_result,
    CacheError,
    CacheView,
    DynamicCache,
    GuardRefused,
    KvChunk,
    PromptCacheGuard,
};
use crate::transformer::error::ModelError;

verus! {

/// What one layer hands back: the hidden states for the next layer, the
/// keys and values it computed for the new positions, and its share of the
/// load-balancing loss if it routes between experts.
pub struct LayerOutput {
    pub hidden_states: Tensor,
    pub key: Tensor,
    pub value: Tensor,
    pub aux_loss: Option<Tensor>,
}

/// What the decoder stack hands back: the hidden states of the last layer
/// and the load-balancing loss of the layers that have one, summed up.
pub struct DecoderOutput {
    pub hidden_states: Tensor,
    pub aux_loss: Option<Tensor>,
}

/// The weights of the decoder layers together with the code that applies
/// one layer: self-attention and feed-forward, with the standard or the
/// fused attention kernel.
///
/// Nothing is promised of an implementation. The stack checks what a layer
/// returns, and states its own result over what the layers returned:
/// `layer_returned` is the relation between the inputs of a layer and what
/// it may hand back.
pub trait DecoderLayers {
    /// Applies layer `layer` to `hidden_states`.
    ///
    /// `past` are the keys and values that the layer computed in earlier
    /// calls, oldest first; `prompt` tells that the cache is being
    /// populated with a prompt. The stack only calls a layer with inputs
    /// for which `layer_input_ok` holds.
    fn forward_layer(
        &self,
        layer: usize,
        hidden_states: &Tensor,
        attention_mask: Option<&Tensor>,
        position_ids: Option<&Tensor>,
        past: Option<&Vec<KvChunk>>,
        prompt: bool,
        flash_attention: bool,
    ) -> Result<LayerOutput, candle_core::Error>
        requires
            layer_input_ok(
                tensor_dims(*hidden_states),
                match position_ids {
                    Some(p) => Some(tensor_dims(*p)),
                    None => None,
                },
            ),
    ;
}

/// What the stack sees to before it calls a layer: the hidden states have
/// the axes batch, sequence and hidden, and position indices, where there
/// are any, have the axes batch and sequence of the hidden states.
pub open spec fn layer_input_ok(hidden: Seq<usize>, positions: Option<Seq<usize>>) -> bool {
    &&& hidden.len() == 3
    &&& positions matches Some(p) ==> p == seq![hidden[0], hidden[1]]
}

/// Whether two lists of dimension sizes are the same.
pub fn same_dims(a: &Vec<usize>, b: &Vec<usize>) -> (r: bool)
    ensures
        r == (a@ == b@),
{
    let n = a.len();
    if b.len() != n {
        return false;
    }
    let mut i: usize = 0;
    while i < n
        invariant
            n == a@.len(),
            n == b@.len(),
            i <= n,
            forall|j: int| 0 <= j < i ==> a@[j] == b@[j],
        decreases n - i,
    {
        if a[i] != b[i] {
            return false;
        }
        i = i + 1;
    }
    assert(a@ =~= b@);
    true
}

/// Whether `dims` are the two sizes `batch` and `seq_len`.
pub fn positions_match(dims: &Vec<usize>, batch: usize, seq_len: usize) -> (r: bool)
    ensures
        r == (dims@ == seq![batch, seq_len]),
{
    if dims.len() == 2 && dims[0] == batch && dims[1] == seq_len {
        assert(dims@ =~= seq![batch, seq_len]);
        true
    } else {
        false
    }
}

/// What the stack makes of the output of layer `layer`: it goes on if the
/// hidden states kept their dimension sizes and reports the layer if not.
pub open spec fn layer_verdict(layer: usize, expected: Seq<usize>, out: LayerOutput) -> Result<
    (),
    ModelError,
> {
    if tensor_dims(out.hidden_states) == expected {
        Ok(())
    } else {
        Err(ModelError::LayerShape(layer))
    }
}

/// Checks the output of layer `layer` against the dimension sizes
/// `expected` of the hidden states that went in.
pub fn check_layer_output(layer: usize, expected: &Vec<usize>, out: &LayerOutput) -> (r: Result<
    (),
    ModelError,
>)
    ensures
        r == layer_verdict(layer, expected@, *out),
{
    let got = dims_of(&out.hidden_states);
    if same_dims(&got, expected) {
        Ok(())
    } else {
        Err(ModelError::LayerShape(layer))
    }
}

/// What adding the loss `next` of one more layer to the sum `sum` of the
/// losses before it gives. A layer without a loss leaves the sum as it is,
/// and the first loss starts the sum. Two losses are added by the backend
/// element by element; that is refused for a sum that does not hold
/// floating point numbers or whose shape does not fit, and the backend
/// refuses losses of different dimension sizes.
pub open spec fn loss_added(
    sum: Option<Tensor>,
    next: Option<Tensor>,
    r: Result<Option<Tensor>, ModelError>,
) -> bool {
    match (sum, next) {
        (_, None) => r == Ok::<Option<Tensor>, ModelError>(sum),
        (None, Some(_)) => r == Ok::<Option<Tensor>, ModelError>(next),
        (Some(a), Some(b)) => if !is_float(tensor_dtype(a)) {
            r == Err::<Option<Tensor>, ModelError>(ModelError::LossType)
        } else if !shape_fits(tensor_dims(a)) {
            r == Err::<Option<Tensor>, ModelError>(ModelError::SizeOverflow)
        } else {
            match r {
                Ok(total) => total matches Some(t) && tensor_dims(t) == tensor_dims(a)
                    && tensor_dims(b) == tensor_dims(a) && tensor_dtype(t) == tensor_dtype(a),
                Err(e) => e is Backend,
            }
        },
    }
}

/// Adds the loss of one more layer to the loss of the layers before it.
pub fn accumulate_aux_loss(sum: Option<Tensor>, next: Option<Tensor>) -> (r: Result<
    Option<Tensor>,
    ModelError,
>)
    ensures
        loss_added(sum, next, r),
{
    match (sum, next) {
        (sum, None) => Ok(sum),
        (None, Some(b)) => Ok(Some(b)),
        (Some(a), Some(b)) => {
            let dtype = dtype_of(&a);
            if !(dtype == ElementType::BF16 || dtype == ElementType::F16 || dtype
                == ElementType::F32 || dtype == ElementType::F64) {
                return Err(ModelError::LossType);
            }
            let dims = dims_of(&a);
            if checked_span(&dims).is_none() {
                return Err(ModelError::SizeOverflow);
            }
            match sum_of(&a, &b) {
                Ok(total) => Ok(Some(total)),
                Err(e) => Err(ModelError::Backend(e)),
            }
        },
    }
}

/// How far the stack has come: the hidden states that the next layer gets,
/// the keys and values that the layers so far computed, one chunk per
/// layer, and the sum of their losses.
pub struct StackPoint {
    pub hidden: Tensor,
    pub chunks: Seq<KvChunk>,
    pub aux: Option<Tensor>,
}

/// What the layers produced so far in one call.
pub struct StackRun {
    /// The hidden states of the last layer that ran.
    pub hidden_states: Tensor,
    /// The keys and values of the new positions, one chunk per layer.
    pub chunks: Vec<KvChunk>,
    /// The summed loss of the layers that have one.
    pub aux_loss: Option<Tensor>,
}

impl View for StackRun {
    type V = StackPoint;

    open spec fn view(&self) -> StackPoint {
        StackPoint { hidden: self.hidden_states, chunks: self.chunks@, aux: self.aux_loss }
    }
}

/// The point from which the stack starts on the embeddings `embeds`.
pub open spec fn stack_start(embeds: Tensor) -> StackPoint {
    StackPoint { hidden: embeds, chunks: Seq::empty(), aux: None }
}

/// What the stack makes of the output `out` of layer `layer` at the point
/// `before`: a layer that changed the dimension sizes of the hidden states
/// is reported; else the hidden states are those of the layer, its keys
/// and values go behind the chunks so far, and its loss is added to the
/// sum.
pub open spec fn layer_absorbed(
    layer: usize,
    expected: Seq<usize>,
    before: StackPoint,
    out: LayerOutput,
    r: Result<StackPoint, ModelError>,
) -> bool {
    if tensor_dims(out.hidden_states) != expected {
        r == Err::<StackPoint, ModelError>(ModelError::LayerShape(layer))
    } else {
        match r {
            Ok(after) => after.hidden == out.hidden_states && after.chunks == before.chunks.push(
                KvChunk { key: out.key, value: out.value },
            ) && loss_added(before.aux, out.aux_loss, Ok(after.aux)),
            Err(e) => loss_added(before.aux, out.aux_loss, Err(e)),
        }
    }
}

/// Takes the output of layer `layer` into the run: checks it against the
/// dimension sizes `expected` of the hidden states that went in, and moves
/// on to the point behind the layer.
pub fn absorb_layer(layer: usize, expected: &Vec<usize>, run: StackRun, out: LayerOutput) -> (r:
    Result<StackRun, ModelError>)
    ensures
        layer_absorbed(
            layer,
            expected@,
            run@,
            out,
            match r {
                Ok(next) => Ok(next@),
                Err(e) => Err(e),
            },
        ),
{
    match check_layer_output(layer, expected, &out) {
        Ok(()) => {},
        Err(e) => {
            return Err(e);
        },
    }
    let StackRun { hidden_states: _, chunks, aux_loss } = run;
    let LayerOutput { hidden_states, key, value, aux_loss: layer_loss } = out;
    let aux_loss = match accumulate_aux_loss(aux_loss, layer_loss) {
        Ok(total) => total,
        Err(e) => {
            return Err(e);
        },
    };
    let mut chunks = chunks;
    chunks.push(KvChunk { key, value });
    Ok(StackRun { hidden_states, chunks, aux_loss })
}

/// The decoder stack of a model.
pub struct TransformerDecoder<L: DecoderLayers> {
    cfg: Arc<DeepseekV2Config>,
    layers: Arc<L>,
    use_flash_attention: bool,
}

/// What a call hands to every layer of the stack, besides the hidden
/// states: the mask, the position indices, the cache to read, and the
/// attention kernel.
pub struct StackInputs<'a> {
    pub attention_mask: Option<&'a Tensor>,
    pub position_ids: Option<&'a Tensor>,
    pub past: Option<&'a DynamicCache>,
    pub flash_attention: bool,
}

/// The keys and values that layer `layer` gets from the cache of a call.
pub open spec fn past_of<'a>(past: Option<&'a DynamicCache>, layer: int) -> Option<
    &'a Vec<KvChunk>,
> {
    match past {
        Some(c) => Some(c.stored(layer)),
        None => None,
    }
}

/// Whether the cache of a call is being populated with a prompt.
pub open spec fn prompt_of(past: Option<&DynamicCache>) -> bool {
    match past {
        Some(c) => c@.guarded,
        None => false,
    }
}

/// Layer `layer` of `layers`, called on the hidden states `hidden` with
/// the inputs of the call, handed back `r`.
pub open spec fn layer_returned<L: DecoderLayers>(
    layers: &L,
    inputs: StackInputs,
    layer: usize,
    hidden: Tensor,
    r: Result<LayerOutput, candle_core::Error>,
) -> bool {
    call_ensures(
        L::forward_layer,
        (
            layers,
            layer,
            &hidden,
            inputs.attention_mask,
            inputs.position_ids,
            past_of(inputs.past, layer as int),
            prompt_of(inputs.past),
            inputs.flash_attention,
        ),
        r,
    )
}

/// The first `count` layers ran one after the other from the embeddings
/// `embeds`: layer `i` was called on the hidden states of `points[i]` and
/// handed back `outs[i]`, which kept the dimension sizes of the embeddings,
/// and `points[i + 1]` is what the stack made of it.
pub open spec fn layers_ran<L: DecoderLayers>(
    layers: &L,
    inputs: StackInputs,
    embeds: Tensor,
    count: int,
    outs: Seq<LayerOutput>,
    points: Seq<StackPoint>,
) -> bool {
    &&& 0 <= count
    &&& outs.len() == count
    &&& points.len() == count + 1
    &&& points[0] == stack_start(embeds)
    &&& forall|i: int|
        0 <= i < count ==> layer_returned(
            layers,
            inputs,
            i as usize,
            points[i].hidden,
            Ok(#[trigger] outs[i]),
        ) && layer_absorbed(
            i as usize,
            tensor_dims(embeds),
            points[i],
            outs[i],
            Ok(points[i + 1]),
        )
}

/// All `depth` layers of the stack ran from `embeds` and ended at the
/// point `end`.
pub open spec fn stack_ran<L: DecoderLayers>(
    layers: &L,
    inputs: StackInputs,
    embeds: Tensor,
    depth: usize,
    end: StackPoint,
) -> bool {
    exists|outs: Seq<LayerOutput>, points: Seq<StackPoint>| #[trigger]
        layers_ran(layers, inputs, embeds, depth as int, outs, points) && points[depth as int]
            == end
}

/// The layers before layer `outs.len()` ran, and that layer handed back
/// `r`, which made the stack fail with `e`: the layer failed itself, with
/// the error that `e` carries, or the stack refused its output with `e`.
pub open spec fn failed_at<L: DecoderLayers>(
    layers: &L,
    inputs: StackInputs,
    embeds: Tensor,
    depth: usize,
    outs: Seq<LayerOutput>,
    points: Seq<StackPoint>,
    r: Result<LayerOutput, candle_core::Error>,
    e: ModelError,
) -> bool {
    &&& layers_ran(layers, inputs, embeds, outs.len() as int, outs, points)
    &&& outs.len() < depth
    &&& layer_returned(layers, inputs, outs.len() as usize, points[outs.len() as int].hidden, r)
    &&& match r {
        Ok(out) => layer_absorbed(
            outs.len() as usize,
            tensor_dims(embeds),
            points[outs.len() as int],
            out,
            Err(e),
        ),
        Err(refusal) => e == ModelError::Backend(refusal),
    }
}

/// The stack failed with `e` at one of its layers.
pub open spec fn stack_failed<L: DecoderLayers>(
    layers: &L,
    inputs: StackInputs,
    embeds: Tensor,
    depth: usize,
    e: ModelError,
) -> bool {
    exists|
        outs: Seq<LayerOutput>,
        points: Seq<StackPoint>,
        r: Result<LayerOutput, candle_core::Error>,
    | #[trigger] failed_at(layers, inputs, embeds, depth, outs, points, r, e)
}

/// The fault that a call of the stack has before any layer runs, if any:
/// caching without a cache, embeddings that do not have three axes,
/// position indices of another shape than batch and sequence, a cache for
/// another number of layers, or a cache whose sequence length would no
/// longer fit.
pub open spec fn stack_fault(
    num_layers: usize,
    embeds_dims: Seq<usize>,
    positions: Option<Seq<usize>>,
    cache: Option<CacheView>,
    use_cache: bool,
) -> Option<ModelError> {
    if use_cache && cache is None {
        Some(ModelError::CacheRequired)
    } else if embeds_dims.len() != 3 {
        Some(ModelError::EmbeddingsRank(embeds_dims.len() as usize))
    } else if positions matches Some(p) && p != seq![embeds_dims[0], embeds_dims[1]] {
        Some(ModelError::PositionShape)
    } else if cache matches Some(c) && c.layers.len() != num_layers {
        Some(ModelError::Cache(CacheError::LayerCountMismatch))
    } else if cache matches Some(c) && use_cache && c.len() + embeds_dims[1] > usize::MAX {
        Some(ModelError::Cache(CacheError::LengthOverflow))
    } else {
        None
    }
}

/// The dimension sizes of an optional tensor.
pub open spec fn dims_of_opt(t: Option<&Tensor>) -> Option<Seq<usize>> {
    match t {
        Some(t) => Some(tensor_dims(*t)),
        None => None,
    }
}

/// What a cache holds, if there is one.
pub open spec fn view_of(cache: Option<&DynamicCache>) -> Option<CacheView> {
    match cache {
        Some(c) => Some(c@),
        None => None,
    }
}

impl<L: DecoderLayers> TransformerDecoder<L> {
    /// A stack of `cfg.num_hidden_layers` layers over `layers`.
    pub fn new(cfg: Arc<DeepseekV2Config>, layers: Arc<L>, use_flash_attention: bool) -> (r: Self)
        ensures
            r.config() == cfg,
            r.layers() == layers,
            r.flash_attention() == use_flash_attention,
    {
        TransformerDecoder { cfg, layers, use_flash_attention }
    }

    /// The parameters of the model.
    pub closed spec fn config(&self) -> Arc<DeepseekV2Config> {
        self.cfg
    }

    /// The layers of the stack.
    pub closed spec fn layers(&self) -> Arc<L> {
        self.layers
    }

    /// Whether the stack uses the fused attention kernel.
    pub closed spec fn flash_attention(&self) -> bool {
        self.use_flash_attention
    }

    /// The number of layers of the stack.
    pub open spec fn depth(&self) -> usize {
        self.config().num_hidden_layers
    }

    /// What a call of the stack hands to every layer.
    pub open spec fn inputs<'a>(
        &self,
        attention_mask: Option<&'a Tensor>,
        position_ids: Option<&'a Tensor>,
        past: Option<&'a DynamicCache>,
    ) -> StackInputs<'a> {
        StackInputs { attention_mask, position_ids, past, flash_attention: self.flash_attention() }
    }

    /// What a call of the stack that succeeded has done: the layers ran
    /// from `embeds` to the hidden states and the loss of `out`, and the
    /// chunks that they made went behind what the cache held, where the
    /// call asked for that; else the cache holds what it held.
    pub open spec fn succeeded(
        &self,
        embeds: Tensor,
        attention_mask: Option<&Tensor>,
        position_ids: Option<&Tensor>,
        past: Option<&DynamicCache>,
        use_cache: bool,
        out: DecoderOutput,
        after: Option<CacheView>,
    ) -> bool {
        &&& tensor_dims(out.hidden_states) == tensor_dims(embeds)
        &&& exists|chunks: Seq<KvChunk>| #[trigger]
            stack_ran(
                &*self.layers(),
                self.inputs(attention_mask, position_ids, past),
                embeds,
                self.depth(),
                StackPoint { hidden: out.hidden_states, chunks, aux: out.aux_loss },
            ) && chunks.len() == self.depth() && (past matches Some(c) ==> after == Some(
                if use_cache {
                    c@.appended(chunks, tensor_dims(embeds)[1] as nat)
                } else {
                    c@
                },
            ))
    }

    /// Whether the stack uses the fused attention kernel.
    pub fn flash_attention_enabled(&self) -> (b: bool)
        ensures
            b == self.flash_attention(),
    {
        self.use_flash_attention
    }

    /// The number of layers of the stack.
    pub fn num_layers(&self) -> (n: usize)
        ensures
            n == self.depth(),
    {
        self.cfg.num_hidden_layers
    }

    /// Hands `cache` over to a prompt guard; a cache that carries the mark
    /// of a guard is refused and handed back.
    pub fn prompt_guard(&self, cache: DynamicCache) -> (r: Result<PromptCacheGuard, GuardRefused>)
        ensures
            guard_result(cache, r),
    {
        cache.acquire_prompt_guard()
    }

    /// Runs the layers one after the other on `embeds`, each with the keys
    /// and values that `past` holds for it. The cache is only read.
    ///
    /// A run that succeeds ends at the point that the layers led to; a run
    /// that fails names the layer that failed or that the stack refused.
    fn run_layers(
        &self,
        embeds: &Tensor,
        attention_mask: Option<&Tensor>,
        position_ids: Option<&Tensor>,
        past: Option<&DynamicCache>,
    ) -> (r: Result<StackRun, ModelError>)
        requires
            past matches Some(c) ==> c@.layers.len() == self.depth(),
            layer_input_ok(tensor_dims(*embeds), dims_of_opt(position_ids)),
        ensures
            match r {
                Ok(run) => stack_ran(
                    &*self.layers(),
                    self.inputs(attention_mask, position_ids, past),
                    *embeds,
                    self.depth(),
                    run@,
                ) && tensor_dims(run.hidden_states) == tensor_dims(*embeds) && run.chunks@.len()
                    == self.depth(),
                Err(e) => stack_failed(
                    &*self.layers(),
                    self.inputs(attention_mask, position_ids, past),
                    *embeds,
                    self.depth(),
                    e,
                ) && (e is LayerShape || e is Backend || e is SizeOverflow || e is LossType),
            },
    {
        let expected = dims_of(embeds);
        let n = self.cfg.num_hidden_layers;
        let prompt = match past {
            Some(c) => c.is_guarded(),
            None => false,
        };
        let ghost inputs = self.inputs(attention_mask, position_ids, past);
        let ghost mut outs: Seq<LayerOutput> = Seq::empty();
        let ghost mut points: Seq<StackPoint> = seq![stack_start(*embeds)];
        let mut run = StackRun { hidden_states: embeds.clone(), chunks: Vec::new(), aux_loss: None };
        let mut i: usize = 0;
        while i < n
            invariant
                n == self.depth(),
                i <= n,
                expected@ == tensor_dims(*embeds),
                inputs == self.inputs(attention_mask, position_ids, past),
                prompt == prompt_of(past),
                layers_ran(&*self.layers(), inputs, *embeds, i as int, outs, points),
                run@ == points[i as int],
                tensor_dims(run.hidden_states) == expected@,
                run.chunks@.len() == i,
                past matches Some(c) ==> c@.layers.len() == n,
                layer_input_ok(expected@, dims_of_opt(position_ids)),
            decreases n - i,
        {
            let stored = match past {
                Some(c) => Some(c.layer(i)),
                None => None,
            };
            let returned = self.layers.forward_layer(
                i,
                &run.hidden_states,
                attention_mask,
                position_ids,
                stored,
                prompt,
                self.use_flash_attention,
            );
            let ghost returned_as = returned;
            assert(layer_returned(
                &*self.layers(),
                inputs,
                i,
                points[i as int].hidden,
                returned_as,
            ));
            let out = match returned {
                Ok(out) => out,
                Err(e) => {
                    proof {
                        assert(failed_at(
                            &*self.layers(),
                            inputs,
                            *embeds,
                            n,
                            outs,
                            points,
                            returned_as,
                            ModelError::Backend(e),
                        ));
                    }
                    return Err(ModelError::Backend(e));
                },
            };
            let ghost before = run@;
            let ghost handed = out;
            match absorb_layer(i, &expected, run, out) {
                Ok(next) => {
                    proof {
                        let old_outs = outs;
                        let old_points = points;
                        outs = outs.push(handed);
                        points = points.push(next@);
                        assert forall|k: int| 0 <= k < i + 1 implies layer_returned(
                            &*self.layers(),
                            inputs,
                            k as usize,
                            points[k].hidden,
                            Ok(#[trigger] outs[k]),
                        ) && layer_absorbed(
                            k as usize,
                            tensor_dims(*embeds),
                            points[k],
                            outs[k],
                            Ok(points[k + 1]),
                        ) by {
                            if k < i {
                                assert(outs[k] == old_outs[k]);
                                assert(points[k] == old_points[k]);
                                assert(points[k + 1] == old_points[k + 1]);
                            } else {
                                assert(outs[k] == handed);
                                assert(points[k] == before);
                            }
                        }
                    }
                    run = next;
                },
                Err(e) => {
                    proof {
                        assert(failed_at(
                            &*self.layers(),
                            inputs,
                            *embeds,
                            n,
                            outs,
                            points,
                            Ok(handed),
                            e,
                        ));
                    }
                    return Err(e);
                },
            }
            i = i + 1;
        }
        proof {
            assert(layers_ran(&*self.layers(), inputs, *embeds, n as int, outs, points)
                && points[n as int] == run@);
        }
        Ok(run)
    }

    /// Applies the stack to `embeds`, which has the axes batch, sequence
    /// and hidden.
    ///
    /// With `use_cache`, the keys and values of the new positions go behind
    /// those that `cache` holds, one chunk per layer, once every layer has
    /// run; nothing that the cache holds is touched. Without `use_cache` a
    /// cache is read and left as it is. A call that fails leaves the cache
    /// as it is.
    pub fn forward(
        &self,
        embeds: &Tensor,
        attention_mask: Option<&Tensor>,
        position_ids: Option<&Tensor>,
        cache: Option<&mut DynamicCache>,
        use_cache: bool,
    ) -> (r: Result<DecoderOutput, ModelError>)
        requires
            cache matches Some(c) ==> c.wf(),
        ensures
            cache matches Some(c) ==> final(c).wf(),
            cache matches Some(c) ==> (if r is Ok && use_cache {
                c@.grown_by(final(c)@, tensor_dims(*embeds)[1] as nat)
            } else {
                final(c)@ == c@
            }),
            stack_fault(
                self.depth(),
                tensor_dims(*embeds),
                dims_of_opt(position_ids),
                match cache {
                    Some(c) => Some(c@),
                    None => None,
                },
                use_cache,
            ) matches Some(fault) ==> r == Err::<DecoderOutput, ModelError>(fault),
            stack_fault(
                self.depth(),
                tensor_dims(*embeds),
                dims_of_opt(position_ids),
                match cache {
                    Some(c) => Some(c@),
                    None => None,
                },
                use_cache,
            ) is None ==> match r {
                Ok(out) => tensor_dims(*embeds).len() == 3 && self.succeeded(
                    *embeds,
                    attention_mask,
                    position_ids,
                    match cache {
                        Some(c) => Some(&*c),
                        None => None,
                    },
                    use_cache,
                    out,
                    match cache {
                        Some(c) => Some(final(c)@),
                        None => None,
                    },
                ),
                Err(e) => {
                    let past = match cache {
                        Some(c) => Some(&*c),
                        None => None,
                    };
                    &&& cache matches Some(c) ==> final(c)@ == c@
                    &&& stack_failed(
                        &*self.layers(),
                        self.inputs(
                            attention_mask,
                            position_ids,
                            past,
                        ),
                        *embeds,
                        self.depth(),
                        e,
                    )
                    &&& e is LayerShape || e is Backend || e is SizeOverflow || e is LossType
                },
            },
    {
        let dims = dims_of(embeds);
        let positions_fit = match position_ids {
            Some(p) => dims.len() == 3 && positions_match(&dims_of(p), dims[0], dims[1]),
            None => true,
        };
        match cache {
            None => {
                if use_cache {
                    return Err(ModelError::CacheRequired);
                }
                if dims.len() != 3 {
                    return Err(ModelError::EmbeddingsRank(dims.len()));
                }
                if !positions_fit {
                    return Err(ModelError::PositionShape);
                }
                match self.run_layers(embeds, attention_mask, position_ids, None) {
                    Ok(run) => {
                        assert(stack_ran(
                            &*self.layers(),
                            self.inputs(attention_mask, position_ids, None),
                            *embeds,
                            self.depth(),
                            StackPoint {
                                hidden: run.hidden_states,
                                chunks: run.chunks@,
                                aux: run.aux_loss,
                            },
                        ));
                        let out = DecoderOutput {
                            hidden_states: run.hidden_states,
                            aux_loss: run.aux_loss,
                        };
                        assert(self.succeeded(
                            *embeds,
                            attention_mask,
                            position_ids,
                            None,
                            use_cache,
                            out,
                            None,
                        ));
                        Ok(out)
                    },
                    Err(e) => Err(e),
                }
            },
            Some(c) => {
                if dims.len() != 3 {
                    return Err(ModelError::EmbeddingsRank(dims.len()));
                }
                if !positions_fit {
                    return Err(ModelError::PositionShape);
                }
                if c.num_layers() != self.cfg.num_hidden_layers {
                    return Err(ModelError::Cache(CacheError::LayerCountMismatch));
                }
                let seq_len = dims[1];
                if use_cache && c.len().checked_add(seq_len).is_none() {
                    return Err(ModelError::Cache(CacheError::LengthOverflow));
                }
                let ghost before = *c;
                let run = match self.run_layers(embeds, attention_mask, position_ids, Some(&*c)) {
                    Ok(run) => run,
                    Err(e) => {
                        return Err(e);
                    },
                };
                let StackRun { hidden_states, chunks, aux_loss } = run;
                let ghost made = chunks@;
                assert(stack_ran(
                    &*self.layers(),
                    self.inputs(attention_mask, position_ids, Some(&before)),
                    *embeds,
                    self.depth(),
                    StackPoint { hidden: hidden_states, chunks: made, aux: aux_loss },
                ));
                if use_cache {
                    proof {
                        assert(append_outcome(c@, chunks@.len(), seq_len) is Ok);
                    }
                    let stored = c.append(chunks, seq_len);
                    assert(stored is Ok);
                }
                let out = DecoderOutput { hidden_states, aux_loss };
                assert(self.succeeded(
                    *embeds,
                    attention_mask,
                    position_ids,
                    Some(&before),
                    use_cache,
                    out,
                    Some(c@),
                ));
                Ok(out)
            },
        }
    }
}

} // verus!
