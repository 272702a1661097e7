//! The key/value cache of one generation session.

use vstd::prelude::*;
use candle_core::Tensor;

verus! {

/// The keys and values that one layer computed in one call.
pub struct KvChunk {
    pub key: Tensor,
    pub value: Tensor,
}

/// Why a cache refused an operation.
#[derive(Debug, Clone, Copy, PartialEq, Eq, Structural)]
pub enum CacheError {
    /// The cache carries the mark of a prompt guard.
    AlreadyGuarded,
    /// The chunks handed in are not one per layer.
    LayerCountMismatch,
    /// The sequence length would not fit a machine word.
    LengthOverflow,
}

/// What a cache holds.
///
/// `layers[i]` are the chunks of layer `i` in the order in which they came;
/// `ends[j]` is the sequence length that the cache had reached with the
/// `j`-th chunk of every layer.
pub struct CacheView {
    pub layers: Seq<Seq<KvChunk>>,
    pub ends: Seq<usize>,
    pub guarded: bool,
}

impl CacheView {
    /// Every layer has one chunk for every call that was stored, and the
    /// sequence length never went down.
    pub open spec fn wf(self) -> bool {
        &&& forall|i: int| 0 <= i < self.layers.len() ==> (#[trigger] self.layers[i]).len()
            == self.ends.len()
        &&& forall|j: int, k: int| 0 <= j <= k < self.ends.len() ==> self.ends[j] <= self.ends[k]
    }

    /// The number of positions stored along the sequence axis.
    pub open spec fn len(self) -> nat {
        if self.ends.len() == 0 {
            0
        } else {
            self.ends.last() as nat
        }
    }

    /// The cache with one more chunk for every layer, `tokens` positions
    /// long.
    pub open spec fn appended(self, chunks: Seq<KvChunk>, tokens: nat) -> CacheView {
        CacheView {
            layers: Seq::new(self.layers.len(), |i: int| self.layers[i].push(chunks[i])),
            ends: self.ends.push((self.len() + tokens) as usize),
            guarded: self.guarded,
        }
    }

    /// The cache with the prompt guard handed out.
    pub open spec fn guard_held(self) -> CacheView {
        CacheView { guarded: true, ..self }
    }

    /// The cache with the prompt guard taken back.
    pub open spec fn guard_free(self) -> CacheView {
        CacheView { guarded: false, ..self }
    }

    /// What asking for the prompt guard gives: the guard, if none is held.
    pub open spec fn guard_outcome(self) -> Result<(), CacheError> {
        if self.guarded {
            Err(CacheError::AlreadyGuarded)
        } else {
            Ok(())
        }
    }

    /// Everything that `self` holds, `later` holds too, at the same place:
    /// `later` has the same layers, and the chunks and lengths of `self` are
    /// the first ones of `later`.
    pub open spec fn retained_in(self, later: CacheView) -> bool {
        &&& later.layers.len() == self.layers.len()
        &&& self.ends.is_prefix_of(later.ends)
        &&& forall|i: int| 0 <= i < self.layers.len() ==> (#[trigger] self.layers[i]).is_prefix_of(
            later.layers[i],
        )
    }

    /// `later` is `self` grown by `tokens` positions: nothing that `self`
    /// holds was changed, and the sequence is longer by exactly `tokens`.
    pub open spec fn grown_by(self, later: CacheView, tokens: nat) -> bool {
        &&& self.retained_in(later)
        &&& later.len() == self.len() + tokens
    }
}

/// The sum of `tokens[from]`, ..., `tokens[to - 1]`.
pub open spec fn tokens_between(tokens: Seq<nat>, from: nat, to: nat) -> nat
    decreases to,
{
    if to <= from {
        0
    } else {
        tokens_between(tokens, from, (to - 1) as nat) + tokens[to - 1]
    }
}

/// Appending grows a cache by the number of tokens appended, as long as
/// the new length fits a machine word.
pub proof fn lemma_appended_grows(before: CacheView, chunks: Seq<KvChunk>, tokens: nat)
    requires
        before.wf(),
        chunks.len() == before.layers.len(),
        before.len() + tokens <= usize::MAX,
    ensures
        before.appended(chunks, tokens).wf(),
        before.grown_by(before.appended(chunks, tokens), tokens),
{
    let after = before.appended(chunks, tokens);
    assert forall|j: int, k: int| 0 <= j <= k < after.ends.len() implies after.ends[j]
        <= after.ends[k] by {
        if k < before.ends.len() {
        } else if j < before.ends.len() {
            assert(before.ends[j] <= before.ends[before.ends.len() - 1]);
        }
    }
    assert(before.ends.is_prefix_of(after.ends));
    assert forall|i: int| 0 <= i < before.layers.len() implies (#[trigger] before.layers[i]).is_prefix_of(
        after.layers[i],
    ) by {
        assert(after.layers[i] == before.layers[i].push(chunks[i]));
    }
}

/// Growth composes: a cache that grew by `n` and then by `m` positions has
/// grown by `n + m`, and still holds everything it held at first.
pub proof fn lemma_growth_composes(a: CacheView, b: CacheView, c: CacheView, n: nat, m: nat)
    requires
        a.grown_by(b, n),
        b.grown_by(c, m),
    ensures
        a.grown_by(c, n + m),
{
    assert forall|i: int| 0 <= i < a.layers.len() implies (#[trigger] a.layers[i]).is_prefix_of(
        c.layers[i],
    ) by {
        assert(a.layers[i].is_prefix_of(b.layers[i]));
        assert(b.layers[i].is_prefix_of(c.layers[i]));
    }
}

/// A cache has grown by nothing with respect to itself.
pub proof fn lemma_growth_reflexive(a: CacheView)
    ensures
        a.grown_by(a, 0),
{
    assert forall|i: int| 0 <= i < a.layers.len() implies (#[trigger] a.layers[i]).is_prefix_of(
        a.layers[i],
    ) by {}
}

/// The append-only law of a session. `states` are the states of one cache
/// before and after each call of a session, `tokens[k]` is the number of
/// new tokens of call `k`, and every call grew the cache by its tokens.
/// Then at every point of the session the cache holds, unchanged, all that
/// it held at any earlier point, and has grown by exactly the tokens of the
/// calls in between.
pub proof fn lemma_session_append_only(
    states: Seq<CacheView>,
    tokens: Seq<nat>,
    from: nat,
    to: nat,
)
    requires
        states.len() == tokens.len() + 1,
        forall|k: int|
            0 <= k < tokens.len() ==> (#[trigger] states[k]).grown_by(states[k + 1], tokens[k]),
        from <= to <= tokens.len(),
    ensures
        states[from as int].grown_by(states[to as int], tokens_between(tokens, from, to)),
    decreases to,
{
    if from == to {
        lemma_growth_reflexive(states[from as int]);
    } else {
        let mid = (to - 1) as nat;
        lemma_session_append_only(states, tokens, from, mid);
        assert(states[mid as int].grown_by(states[mid as int + 1], tokens[mid as int]));
        lemma_growth_composes(
            states[from as int],
            states[mid as int],
            states[to as int],
            tokens_between(tokens, from, mid),
            tokens[mid as int],
        );
    }
}

/// The key/value cache of one generation session: for every decoder layer
/// the keys and values of all positions seen so far, in the order in which
/// they came.
///
/// The fields are private; `view` tells what the cache holds, and `wf`
/// holds of every cache that the functions of this module made.
pub struct DynamicCache {
    layers: Vec<Vec<KvChunk>>,
    ends: Vec<usize>,
    guarded: bool,
}

/// A cache for the time in which its prompt is run.
///
/// The guard owns the cache that it was asked for: the cache goes into
/// `DynamicCache::acquire_prompt_guard` and comes back out of
/// `PromptCacheGuard::release`. While the guard lives, the cache can be
/// reached through the guard alone, so that no second guard can be asked
/// for over it, and a guard can give back no cache but its own. A guard
/// that is dropped takes its cache with it.
pub struct PromptCacheGuard {
    cache: DynamicCache,
}

/// A cache that was refused a prompt guard, and why.
pub struct GuardRefused {
    pub error: CacheError,
    pub cache: DynamicCache,
}

impl View for DynamicCache {
    type V = CacheView;

    closed spec fn view(&self) -> CacheView {
        CacheView {
            layers: Seq::new(self.layers@.len(), |i: int| self.layers@[i]@),
            ends: self.ends@,
            guarded: self.guarded,
        }
    }
}

impl DynamicCache {
    /// What every cache satisfies.
    pub open spec fn wf(&self) -> bool {
        self@.wf()
    }

    /// An empty cache for a decoder of `num_layers` layers, with no guard
    /// on it.
    pub fn new(num_layers: usize) -> (r: DynamicCache)
        ensures
            r.wf(),
            r@.layers == Seq::new(num_layers as nat, |i: int| Seq::<KvChunk>::empty()),
            r@.ends == Seq::<usize>::empty(),
            !r@.guarded,
    {
        let mut layers: Vec<Vec<KvChunk>> = Vec::new();
        let mut i: usize = 0;
        while i < num_layers
            invariant
                i <= num_layers,
                layers@.len() == i,
                forall|j: int| 0 <= j < i ==> (#[trigger] layers@[j])@ == Seq::<KvChunk>::empty(),
            decreases num_layers - i,
        {
            layers.push(Vec::new());
            i = i + 1;
        }
        let r = DynamicCache { layers, ends: Vec::new(), guarded: false };
        proof {
            assert(r@.layers =~= Seq::new(num_layers as nat, |i: int| Seq::<KvChunk>::empty()));
        }
        r
    }

    /// The number of layers that the cache serves.
    pub fn num_layers(&self) -> (n: usize)
        ensures
            n == self@.layers.len(),
    {
        self.layers.len()
    }

    /// The number of positions stored, or `None` while nothing was stored.
    pub fn seq_len(&self) -> (r: Option<usize>)
        ensures
            r == (if self@.ends.len() == 0 {
                None
            } else {
                Some(self@.ends.last())
            }),
    {
        let n = self.ends.len();
        if n == 0 {
            None
        } else {
            Some(self.ends[n - 1])
        }
    }

    /// The number of positions stored; zero while nothing was stored.
    pub fn len(&self) -> (n: usize)
        ensures
            n == self@.len(),
    {
        match self.seq_len() {
            Some(n) => n,
            None => 0,
        }
    }

    /// The number of calls whose keys and values are stored.
    pub fn num_chunks(&self) -> (n: usize)
        ensures
            n == self@.ends.len(),
    {
        self.ends.len()
    }

    /// The `j`-th chunk of layer `layer`.
    pub fn chunk(&self, layer: usize, j: usize) -> (r: &KvChunk)
        requires
            layer < self@.layers.len(),
            j < self@.layers[layer as int].len(),
        ensures
            *r == self@.layers[layer as int][j as int],
    {
        &self.layers[layer][j]
    }

    /// The chunks of layer `layer`, oldest first.
    pub fn layer(&self, layer: usize) -> (r: &Vec<KvChunk>)
        requires
            layer < self@.layers.len(),
        ensures
            r == self.stored(layer as int),
            r@ == self@.layers[layer as int],
    {
        &self.layers[layer]
    }

    /// Whether the cache carries the mark of a prompt guard.
    pub fn is_guarded(&self) -> (b: bool)
        ensures
            b == self@.guarded,
    {
        self.guarded
    }

    /// The chunks of layer `layer` as the cache holds them.
    pub closed spec fn stored(&self, layer: int) -> &Vec<KvChunk> {
        &self.layers@[layer]
    }

    /// Hands the cache over to a prompt guard, and marks it as guarded. A
    /// cache that is marked already is refused and comes back as it is.
    pub fn acquire_prompt_guard(self) -> (r: Result<PromptCacheGuard, GuardRefused>)
        ensures
            guard_result(self, r),
    {
        if self.guarded {
            Err(GuardRefused { error: CacheError::AlreadyGuarded, cache: self })
        } else {
            let mut cache = self;
            cache.guarded = true;
            Ok(PromptCacheGuard { cache })
        }
    }

    /// Stores one more chunk for every layer, `tokens` positions long:
    /// `chunks[i]` goes behind the chunks of layer `i`. Nothing that is
    /// stored already is touched.
    ///
    /// The call fails, and leaves the cache as it is, if the chunks are not
    /// one per layer or the new sequence length does not fit a machine word.
    pub fn append(&mut self, chunks: Vec<KvChunk>, tokens: usize) -> (r: Result<(), CacheError>)
        requires
            old(self).wf(),
        ensures
            final(self).wf(),
            r == append_outcome(old(self)@, chunks@.len(), tokens),
            r is Ok ==> final(self)@ == old(self)@.appended(chunks@, tokens as nat),
            r is Ok ==> old(self)@.grown_by(final(self)@, tokens as nat),
            r is Err ==> final(self)@ == old(self)@,
    {
        let n = self.layers.len();
        if chunks.len() != n {
            return Err(CacheError::LayerCountMismatch);
        }
        let new_len = match self.len().checked_add(tokens) {
            Some(v) => v,
            None => {
                return Err(CacheError::LengthOverflow);
            },
        };
        let ghost before = self@;
        let ghost incoming = chunks@;
        let mut chunks = chunks;
        let mut i: usize = n;
        while i > 0
            invariant
                i <= n,
                n == before.layers.len(),
                self.layers@.len() == n,
                chunks@ == incoming.take(i as int),
                incoming.len() == n,
                self.ends@ == before.ends,
                self.guarded == before.guarded,
                forall|j: int| 0 <= j < i ==> (#[trigger] self.layers@[j])@ == before.layers[j],
                forall|j: int|
                    i <= j < n ==> (#[trigger] self.layers@[j])@ == before.layers[j].push(
                        incoming[j],
                    ),
            decreases i,
        {
            i = i - 1;
            let chunk = chunks.pop().unwrap();
            let mut stored = self.layers.remove(i);
            stored.push(chunk);
            self.layers.insert(i, stored);
            proof {
                assert(chunks@ =~= incoming.take(i as int));
            }
        }
        self.ends.push(new_len);
        proof {
            assert(self@.layers =~= before.appended(incoming, tokens as nat).layers);
            assert(self@ == before.appended(incoming, tokens as nat));
            lemma_appended_grows(before, incoming, tokens as nat);
        }
        Ok(())
    }
}

/// Whether an append of `count` chunks of `tokens` positions goes through.
pub open spec fn append_outcome(before: CacheView, count: nat, tokens: usize) -> Result<
    (),
    CacheError,
> {
    if count != before.layers.len() {
        Err(CacheError::LayerCountMismatch)
    } else if before.len() + tokens > usize::MAX {
        Err(CacheError::LengthOverflow)
    } else {
        Ok(())
    }
}

impl PromptCacheGuard {
    /// The cache that the guard owns.
    pub closed spec fn held(&self) -> DynamicCache {
        self.cache
    }

    /// The guarded cache, to run the prompt on.
    pub fn cache(&mut self) -> (r: &mut DynamicCache)
        ensures
            *r == old(self).held(),
            final(self).held() == *final(r),
    {
        &mut self.cache
    }

    /// Ends the guard and gives its cache back, no longer marked. What the
    /// cache stores stays.
    pub fn release(self) -> (c: DynamicCache)
        ensures
            c@ == self.held()@.guard_free(),
    {
        let mut cache = self.cache;
        cache.guarded = false;
        cache
    }
}

/// What asking for a prompt guard over the cache `before` does: an unmarked
/// cache goes into the guard, marked; a marked one is refused and handed
/// back as it is.
pub open spec fn guard_result(
    before: DynamicCache,
    r: Result<PromptCacheGuard, GuardRefused>,
) -> bool {
    match before@.guard_outcome() {
        Ok(()) => r matches Ok(guard) && guard.held()@ == before@.guard_held(),
        Err(e) => r matches Err(refused) && refused.error == e && refused.cache == before,
    }
}

/// The mark of a guard stays for as long as the guard holds the cache. A
/// cache that went into a guard is marked, and a marked cache is refused a
/// guard, also after anything was appended to it; only the cache that a
/// guard gave back on release is unmarked and can be guarded again.
pub proof fn lemma_second_guard_refused(
    before: CacheView,
    chunks: Seq<KvChunk>,
    tokens: nat,
)
    requires
        before.guard_outcome() is Ok,
    ensures
        before.guard_held().guard_outcome() == Err::<(), CacheError>(CacheError::AlreadyGuarded),
        before.guard_held().appended(chunks, tokens).guard_outcome() == Err::<(), CacheError>(
            CacheError::AlreadyGuarded,
        ),
        before.guard_held().guard_free().guard_outcome() is Ok,
{
}

} // verus!
