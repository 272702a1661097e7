//! The model registry: the models an installation knows, keyed by id.

use vstd::prelude::*;
use std::path::PathBuf;
use crate::vfs::{VirtualPath, VirtualPathView};

verus! {

/// Where the files of one model are. A file without a path of its own is
/// looked up under the model's virtual directory.
#[derive(Debug, Clone)]
pub struct ModelEntry {
    pub config: Option<PathBuf>,
    pub tokenizer: Option<PathBuf>,
    pub weights: Option<PathBuf>,
}

impl ModelEntry {
    /// The entry that names no file.
    pub open spec fn empty() -> ModelEntry {
        ModelEntry { config: None, tokenizer: None, weights: None }
    }

    /// The same entry, held a second time.
    pub fn duplicate(&self) -> (r: ModelEntry)
        ensures
            r == *self,
    {
        ModelEntry {
            config: copy_path(&self.config),
            tokenizer: copy_path(&self.tokenizer),
            weights: copy_path(&self.weights),
        }
    }

    /// The locations of the model's three files: the path the entry names,
    /// or else the file's place under the virtual directory of `model_id`.
    pub fn resolved(&self, model_id: &str) -> (r: ModelResources)
        ensures
            r@ == resolved_entry(*self, model_id@),
    {
        let config = match &self.config {
            Some(path) => ResourceLocation::Physical(path.clone()),
            None => ResourceLocation::Virtual(VirtualPath::model_config(model_id.to_owned())),
        };
        let tokenizer = match &self.tokenizer {
            Some(path) => ResourceLocation::Physical(path.clone()),
            None => ResourceLocation::Virtual(VirtualPath::model_tokenizer(model_id.to_owned())),
        };
        let weights = match &self.weights {
            Some(path) => ResourceLocation::Physical(path.clone()),
            None => ResourceLocation::Virtual(VirtualPath::model_weights(model_id.to_owned())),
        };
        ModelResources { config, tokenizer, weights }
    }
}

impl Default for ModelEntry {
    fn default() -> (r: ModelEntry)
        ensures
            r == ModelEntry::empty(),
    {
        ModelEntry { config: None, tokenizer: None, weights: None }
    }
}

/// A second handle on an optional path.
pub fn copy_path(p: &Option<PathBuf>) -> (r: Option<PathBuf>)
    ensures
        r == *p,
{
    match p {
        Some(path) => Some(path.clone()),
        None => None,
    }
}

/// A file either under a virtual path or at a path on disk.
#[derive(Debug, Clone)]
pub enum ResourceLocation {
    Virtual(VirtualPath),
    Physical(PathBuf),
}

/// A resource location with its virtual path as text.
pub enum ResourceLocationView {
    Virtual(VirtualPathView),
    Physical(PathBuf),
}

impl View for ResourceLocation {
    type V = ResourceLocationView;

    open spec fn view(&self) -> ResourceLocationView {
        match self {
            ResourceLocation::Virtual(p) => ResourceLocationView::Virtual(p@),
            ResourceLocation::Physical(p) => ResourceLocationView::Physical(*p),
        }
    }
}

/// The locations of the three files of a model.
#[derive(Debug, Clone)]
pub struct ModelResources {
    pub config: ResourceLocation,
    pub tokenizer: ResourceLocation,
    pub weights: ResourceLocation,
}

/// The locations of the three files of a model, virtual paths as text.
pub struct ModelResourcesView {
    pub config: ResourceLocationView,
    pub tokenizer: ResourceLocationView,
    pub weights: ResourceLocationView,
}

impl View for ModelResources {
    type V = ModelResourcesView;

    open spec fn view(&self) -> ModelResourcesView {
        ModelResourcesView {
            config: self.config@,
            tokenizer: self.tokenizer@,
            weights: self.weights@,
        }
    }
}

/// The location of one file: the path given for it, or else the virtual
/// path that stands for it.
pub open spec fn location_or(path: Option<PathBuf>, fallback: VirtualPathView)
    -> ResourceLocationView {
    match path {
        Some(p) => ResourceLocationView::Physical(p),
        None => ResourceLocationView::Virtual(fallback),
    }
}

/// The locations that an entry stands for under the id `model_id`.
pub open spec fn resolved_entry(entry: ModelEntry, model_id: Seq<char>) -> ModelResourcesView {
    ModelResourcesView {
        config: location_or(entry.config, VirtualPathView::ModelConfig(model_id)),
        tokenizer: location_or(entry.tokenizer, VirtualPathView::ModelTokenizer(model_id)),
        weights: location_or(entry.weights, VirtualPathView::ModelWeights(model_id)),
    }
}

/// The order of ids: `a` comes before `b` if `a` has the smaller character
/// at the first place where the two differ, or if `a` ends there and `b`
/// goes on. This is the order in which strings compare.
pub open spec fn text_before(a: Seq<char>, b: Seq<char>) -> bool
    decreases a.len(),
{
    if b.len() == 0 {
        false
    } else if a.len() == 0 {
        true
    } else if a[0] != b[0] {
        (a[0] as int) < (b[0] as int)
    } else {
        text_before(a.skip(1), b.skip(1))
    }
}

/// No text comes before itself.
pub proof fn lemma_text_order_strict(a: Seq<char>)
    ensures
        !text_before(a, a),
    decreases a.len(),
{
    if a.len() > 0 {
        lemma_text_order_strict(a.skip(1));
    }
}

/// Of two different texts one comes before the other.
pub proof fn lemma_text_order_total(a: Seq<char>, b: Seq<char>)
    requires
        a != b,
    ensures
        text_before(a, b) || text_before(b, a),
    decreases a.len(),
{
    if a.len() == 0 && b.len() == 0 {
        assert(a =~= b);
    } else if a.len() > 0 && b.len() > 0 {
        if a[0] == b[0] {
            if a.skip(1) == b.skip(1) {
                assert(a.len() == a.skip(1).len() + 1);
                assert(b.len() == b.skip(1).len() + 1);
                assert forall|j: int| 0 <= j < a.len() implies a[j] == b[j] by {
                    if j > 0 {
                        assert(a[j] == a.skip(1)[j - 1]);
                        assert(b[j] == b.skip(1)[j - 1]);
                    }
                }
                assert(a =~= b);
            }
            lemma_text_order_total(a.skip(1), b.skip(1));
        } else {
            assert((a[0] as int) != (b[0] as int));
        }
    }
}

/// What comes before a text comes before everything behind that text.
pub proof fn lemma_text_order_transitive(a: Seq<char>, b: Seq<char>, c: Seq<char>)
    requires
        text_before(a, b),
        text_before(b, c),
    ensures
        text_before(a, c),
    decreases a.len(),
{
    if a.len() > 0 && a[0] == b[0] && b[0] == c[0] {
        lemma_text_order_transitive(a.skip(1), b.skip(1), c.skip(1));
    }
}

/// Whether `a` comes before `b` in the order of ids.
pub fn text_less(a: &str, b: &str) -> (r: bool)
    ensures
        r == text_before(a@, b@),
{
    let n = a.unicode_len();
    let m = b.unicode_len();
    let mut i: usize = 0;
    proof {
        assert(a@.skip(0) =~= a@);
        assert(b@.skip(0) =~= b@);
    }
    while i < n && i < m
        invariant
            n == a@.len(),
            m == b@.len(),
            i <= n,
            i <= m,
            text_before(a@, b@) == text_before(a@.skip(i as int), b@.skip(i as int)),
        decreases n - i,
    {
        let x = a.get_char(i);
        let y = b.get_char(i);
        proof {
            assert(a@.skip(i as int)[0] == x);
            assert(b@.skip(i as int)[0] == y);
            assert(a@.skip(i as int).skip(1) =~= a@.skip(i as int + 1));
            assert(b@.skip(i as int).skip(1) =~= b@.skip(i as int + 1));
        }
        if x != y {
            return (x as u32) < (y as u32);
        }
        i = i + 1;
    }
    i < m
}

/// The ids stand in their order, each before all that follow it.
pub open spec fn ascending(ids: Seq<Seq<char>>) -> bool {
    forall|i: int, j: int| 0 <= i < j < ids.len() ==> text_before(#[trigger] ids[i], #[trigger] ids[j])
}

/// One id with its entry.
#[derive(Debug, Clone)]
pub struct NamedEntry {
    id: String,
    entry: ModelEntry,
}

/// The entries of a registry: a finite map from model id to entry, kept in
/// the order of the ids.
///
/// The ids stand in ascending order and none occurs twice: `wf` says so,
/// and it holds of every value of this type.
#[derive(Debug)]
pub struct ModelEntries {
    items: Vec<NamedEntry>,
}

impl View for ModelEntries {
    type V = Map<Seq<char>, ModelEntry>;

    /// The entries as a map from id to entry.
    open spec fn view(&self) -> Map<Seq<char>, ModelEntry> {
        Map::new(
            |id: Seq<char>| self.ids().contains(id),
            |id: Seq<char>| self.values()[self.ids().index_of(id)],
        )
    }
}

impl Clone for ModelEntries {
    fn clone(&self) -> (r: ModelEntries)
        ensures
            r.wf(),
            r.ids() == self.ids(),
            r.values() == self.values(),
            r@ == self@,
    {
        proof {
            use_type_invariant(self);
        }
        let blank = ModelEntry::default();
        let items = self.copied_with(None, &blank);
        let r = ModelEntries { items };
        proof {
            assert(r@ =~= self@);
        }
        r
    }
}

/// The ids of a list of named entries, in the order of the list.
spec fn ids_of(items: Seq<NamedEntry>) -> Seq<Seq<char>> {
    Seq::new(items.len(), |i: int| items[i].id@)
}

/// The entries of a list of named entries, in the order of the list.
spec fn values_of(items: Seq<NamedEntry>) -> Seq<ModelEntry> {
    Seq::new(items.len(), |i: int| items[i].entry)
}

impl ModelEntries {
    /// The ids, in ascending order.
    pub closed spec fn ids(&self) -> Seq<Seq<char>> {
        ids_of(self.items@)
    }

    /// The entries, in the order of `ids`.
    pub closed spec fn values(&self) -> Seq<ModelEntry> {
        values_of(self.items@)
    }

    /// The ids stand in ascending order, and no id occurs twice.
    pub open spec fn wf(&self) -> bool {
        &&& ascending(self.ids())
        &&& self.ids().no_duplicates()
        &&& self.values().len() == self.ids().len()
    }

    #[verifier::type_invariant]
    spec fn inv(&self) -> bool {
        self.wf()
    }

    /// Under `wf`, the entry at a position is the one that the map holds for
    /// the id at that position.
    pub proof fn lemma_value_at(&self, i: int)
        requires
            self.wf(),
            0 <= i < self.ids().len(),
        ensures
            self@.contains_key(self.ids()[i]),
            self@[self.ids()[i]] == self.values()[i],
    {
        let id = self.ids()[i];
        let j = self.ids().index_of(id);
        assert(0 <= j < self.ids().len() && self.ids()[j] == id);
    }

    /// The map is empty exactly if there is no id.
    pub proof fn lemma_empty(&self)
        ensures
            (self.ids().len() == 0) <==> (self@ == Map::<Seq<char>, ModelEntry>::empty()),
    {
        if self.ids().len() == 0 {
            assert(self@ =~= Map::<Seq<char>, ModelEntry>::empty());
        } else {
            assert(self.ids().contains(self.ids()[0]));
            assert(self@.contains_key(self.ids()[0]));
        }
    }

    pub fn new() -> (r: ModelEntries)
        ensures
            r.wf(),
            r.ids() == Seq::<Seq<char>>::empty(),
            r@ == Map::<Seq<char>, ModelEntry>::empty(),
    {
        let items: Vec<NamedEntry> = Vec::new();
        proof {
            assert(ids_of(items@) =~= Seq::<Seq<char>>::empty());
        }
        let r = ModelEntries { items };
        proof {
            r.lemma_empty();
        }
        r
    }

    /// The number of entries.
    pub fn len(&self) -> (n: usize)
        ensures
            self.wf(),
            n == self.ids().len(),
    {
        proof {
            use_type_invariant(self);
        }
        self.items.len()
    }

    pub fn is_empty(&self) -> (b: bool)
        ensures
            b == (self.ids().len() == 0),
            b == (self@ == Map::<Seq<char>, ModelEntry>::empty()),
    {
        proof {
            self.lemma_empty();
        }
        self.items.len() == 0
    }

    /// The position of `id` among the ids, if it is one of them.
    pub fn position(&self, id: &str) -> (r: Option<usize>)
        ensures
            match r {
                Some(i) => i < self.ids().len() && self.ids()[i as int] == id@,
                None => !self.ids().contains(id@),
            },
    {
        let wanted = id.to_owned();
        let n = self.items.len();
        let mut i: usize = 0;
        while i < n
            invariant
                n == self.items@.len(),
                i <= n,
                wanted@ == id@,
                forall|j: int| 0 <= j < i ==> self.ids()[j] != id@,
            decreases n - i,
        {
            if self.items[i].id == wanted {
                return Some(i);
            }
            i = i + 1;
        }
        None
    }

    pub fn contains_key(&self, id: &str) -> (b: bool)
        ensures
            b == self@.contains_key(id@),
    {
        self.position(id).is_some()
    }

    /// The entry stored for `id`.
    pub fn get(&self, id: &str) -> (r: Option<&ModelEntry>)
        ensures
            self.wf(),
            r == (if self@.contains_key(id@) {
                Some(&self@[id@])
            } else {
                None
            }),
    {
        proof {
            use_type_invariant(self);
        }
        match self.position(id) {
            Some(i) => {
                proof {
                    self.lemma_value_at(i as int);
                }
                Some(&self.items[i].entry)
            },
            None => None,
        }
    }

    /// The id at position `i`.
    pub fn id_at(&self, i: usize) -> (r: &String)
        requires
            i < self.ids().len(),
        ensures
            r@ == self.ids()[i as int],
    {
        &self.items[i].id
    }

    /// The entry at position `i`.
    pub fn entry_at(&self, i: usize) -> (r: &ModelEntry)
        requires
            i < self.ids().len(),
        ensures
            *r == self.values()[i as int],
    {
        &self.items[i].entry
    }

    /// A copy of the entries in which position `at`, if it is one, holds
    /// `entry` in place of the entry that is there.
    fn copied_with(&self, at: Option<usize>, entry: &ModelEntry) -> (r: Vec<NamedEntry>)
        ensures
            ids_of(r@) == self.ids(),
            values_of(r@) == (match at {
                Some(i) if i < self.ids().len() => self.values().update(i as int, *entry),
                _ => self.values(),
            }),
    {
        let n = self.items.len();
        let mut next: Vec<NamedEntry> = Vec::new();
        let mut i: usize = 0;
        while i < n
            invariant
                n == self.items@.len(),
                i <= n,
                next@.len() == i,
                forall|j: int| 0 <= j < i ==> (#[trigger] next@[j]).id@ == self.items@[j].id@,
                forall|j: int|
                    0 <= j < i ==> (#[trigger] next@[j]).entry == (if at == Some(j as usize) {
                        *entry
                    } else {
                        self.items@[j].entry
                    }),
            decreases n - i,
        {
            let kept = if at == Some(i) {
                entry.duplicate()
            } else {
                self.items[i].entry.duplicate()
            };
            next.push(NamedEntry { id: self.items[i].id.clone(), entry: kept });
            i = i + 1;
        }
        proof {
            assert(ids_of(next@) =~= self.ids());
            match at {
                Some(k) if k < self.ids().len() => {
                    assert(values_of(next@) =~= self.values().update(k as int, *entry));
                },
                _ => {
                    assert(values_of(next@) =~= self.values());
                },
            }
        }
        next
    }

    /// The place of `id` among the ids: the number of ids that come before
    /// it.
    fn place(&self, id: &str) -> (p: usize)
        ensures
            p <= self.ids().len(),
            forall|k: int| 0 <= k < p ==> text_before(#[trigger] self.ids()[k], id@),
            p < self.ids().len() ==> !text_before(self.ids()[p as int], id@),
    {
        let n = self.items.len();
        let mut i: usize = 0;
        while i < n
            invariant
                n == self.items@.len(),
                i <= n,
                forall|k: int| 0 <= k < i ==> text_before(#[trigger] self.ids()[k], id@),
            decreases n - i,
        {
            if !text_less(self.items[i].id.as_str(), id) {
                return i;
            }
            i = i + 1;
        }
        n
    }

    /// A copy of the entries with `entry` under `id` put in at position
    /// `at`.
    fn copied_around(&self, at: usize, id: String, entry: ModelEntry) -> (r: Vec<NamedEntry>)
        requires
            at <= self.ids().len(),
        ensures
            ids_of(r@) == self.ids().insert(at as int, id@),
            values_of(r@) == self.values().insert(at as int, entry),
    {
        let n = self.items.len();
        let mut next: Vec<NamedEntry> = Vec::new();
        let mut i: usize = 0;
        while i < at
            invariant
                n == self.items@.len(),
                at <= n,
                i <= at,
                next@.len() == i,
                forall|j: int| 0 <= j < i ==> (#[trigger] next@[j]).id@ == self.items@[j].id@,
                forall|j: int| 0 <= j < i ==> (#[trigger] next@[j]).entry == self.items@[j].entry,
            decreases at - i,
        {
            next.push(
                NamedEntry { id: self.items[i].id.clone(), entry: self.items[i].entry.duplicate() },
            );
            i = i + 1;
        }
        next.push(NamedEntry { id, entry });
        while i < n
            invariant
                n == self.items@.len(),
                at <= i <= n,
                next@.len() == i + 1,
                next@[at as int].id@ == id@,
                next@[at as int].entry == entry,
                forall|j: int| 0 <= j < at ==> (#[trigger] next@[j]).id@ == self.items@[j].id@,
                forall|j: int| 0 <= j < at ==> (#[trigger] next@[j]).entry == self.items@[j].entry,
                forall|j: int|
                    at < j <= i ==> (#[trigger] next@[j]).id@ == self.items@[j - 1].id@,
                forall|j: int|
                    at < j <= i ==> (#[trigger] next@[j]).entry == self.items@[j - 1].entry,
            decreases n - i,
        {
            next.push(
                NamedEntry { id: self.items[i].id.clone(), entry: self.items[i].entry.duplicate() },
            );
            i = i + 1;
        }
        proof {
            assert(ids_of(next@) =~= self.ids().insert(at as int, id@));
            assert(values_of(next@) =~= self.values().insert(at as int, entry));
        }
        next
    }

    /// Stores `entry` for `id` and returns the entry that `id` had before.
    /// A new id goes to its place in the order of the ids; a known id
    /// keeps its place.
    pub fn insert(&mut self, id: String, entry: ModelEntry) -> (r: Option<ModelEntry>)
        ensures
            old(self).wf(),
            final(self).wf(),
            final(self)@ == old(self)@.insert(id@, entry),
            r == (if old(self)@.contains_key(id@) {
                Some(old(self)@[id@])
            } else {
                None
            }),
            old(self)@.contains_key(id@) ==> final(self).ids() == old(self).ids(),
    {
        let ghost before = *self;
        proof {
            use_type_invariant(&*self);
        }
        match self.position(id.as_str()) {
            Some(i) => {
                let previous = self.items[i].entry.duplicate();
                let next = self.copied_with(Some(i), &entry);
                proof {
                    before.lemma_value_at(i as int);
                    assert(ids_of(next@).no_duplicates());
                    assert(ascending(ids_of(next@)));
                }
                self.items = next;
                proof {
                    assert(self.ids() =~= before.ids());
                    assert(self.values() =~= before.values().update(i as int, entry));
                    assert forall|k: Seq<char>| self@.contains_key(k) implies #[trigger] self@[k]
                        == before@.insert(id@, entry)[k] by {
                        let j = self.ids().index_of(k);
                        assert(0 <= j < self.ids().len() && self.ids()[j] == k);
                    }
                    assert(self@ =~= before@.insert(id@, entry));
                }
                Some(previous)
            },
            None => {
                let at = self.place(id.as_str());
                let ghost name = id@;
                let next = self.copied_around(at, id, entry);
                proof {
                    let p = at as int;
                    let ids = before.ids();
                    let n = ids.len() as int;
                    let grown = ids.insert(p, name);
                    assert(grown.len() == n + 1);
                    assert(grown[p] == name);
                    assert forall|j: int| 0 <= j < p implies grown[j] == ids[j] by {}
                    assert forall|j: int| p < j <= n implies grown[j] == ids[j - 1] by {}
                    assert forall|k: int| p <= k < n implies text_before(name, #[trigger] ids[k]) by {
                        assert(!text_before(ids[p], name));
                        assert(ids[p] != name);
                        lemma_text_order_total(ids[p], name);
                        if k > p {
                            lemma_text_order_transitive(name, ids[p], ids[k]);
                        }
                    }
                    assert forall|i: int, j: int| 0 <= i < j < grown.len() implies text_before(
                        #[trigger] grown[i],
                        #[trigger] grown[j],
                    ) by {
                        if j < p {
                        } else if j == p {
                        } else if i < p {
                            assert(grown[j] == ids[j - 1]);
                            if j - 1 > i {
                            } else {
                                assert(j - 1 == i);
                                assert(false);
                            }
                        } else if i == p {
                            assert(grown[j] == ids[j - 1]);
                        } else {
                            assert(grown[i] == ids[i - 1]);
                            assert(grown[j] == ids[j - 1]);
                        }
                    }
                    assert forall|i: int, j: int|
                        0 <= i < grown.len() && 0 <= j < grown.len() && i != j implies grown[i]
                        != grown[j] by {
                        if i < j {
                            assert(text_before(grown[i], grown[j]));
                            lemma_text_order_strict(grown[i]);
                        } else {
                            assert(text_before(grown[j], grown[i]));
                            lemma_text_order_strict(grown[j]);
                        }
                    }
                    assert(grown.no_duplicates());
                }
                self.items = next;
                proof {
                    let p = at as int;
                    let n = before.ids().len() as int;
                    assert(self.ids() =~= before.ids().insert(p, name));
                    assert(self.values() =~= before.values().insert(p, entry));
                    assert(self.ids()[p] == name);
                    assert forall|j: int| 0 <= j < p implies self.ids()[j] == before.ids()[j]
                        && self.values()[j] == before.values()[j] by {}
                    assert forall|j: int| p < j <= n implies self.ids()[j] == before.ids()[j - 1]
                        && self.values()[j] == before.values()[j - 1] by {}
                    assert forall|k: Seq<char>| #[trigger]
                        self@.contains_key(k) <==> before@.insert(name, entry).contains_key(k) by {
                        if before.ids().contains(k) {
                            let j = before.ids().index_of(k);
                            if j < p {
                                assert(self.ids()[j] == k);
                            } else {
                                assert(self.ids()[j + 1] == k);
                            }
                        }
                        if self.ids().contains(k) && k != name {
                            let j = self.ids().index_of(k);
                            if j < p {
                                assert(before.ids()[j] == k);
                            } else {
                                assert(before.ids()[j - 1] == k);
                            }
                        }
                    }
                    assert forall|k: Seq<char>| self@.contains_key(k) implies #[trigger] self@[k]
                        == before@.insert(name, entry)[k] by {
                        let j = self.ids().index_of(k);
                        assert(0 <= j < self.ids().len() && self.ids()[j] == k);
                        if k != name {
                            let j0 = before.ids().index_of(k);
                            if j < p {
                                assert(before.ids()[j] == k);
                            } else {
                                assert(before.ids()[j - 1] == k);
                            }
                            assert(0 <= j0 < n && before.ids()[j0] == k);
                        }
                    }
                    assert(self@ =~= before@.insert(name, entry));
                }
                None
            },
        }
    }
}

/// The models an installation knows, and which of them is in use.
#[derive(Debug, Clone)]
pub struct ModelRegistry {
    pub active: String,
    pub entries: ModelEntries,
}

/// A registry as text and map.
pub struct ModelRegistryView {
    pub active: Seq<char>,
    pub entries: Map<Seq<char>, ModelEntry>,
}

impl View for ModelRegistry {
    type V = ModelRegistryView;

    open spec fn view(&self) -> ModelRegistryView {
        ModelRegistryView { active: self.active@, entries: self.entries@ }
    }
}

/// The id of the model that a fresh installation uses.
pub const DEFAULT_MODEL_ID: &'static str = "deepseek-ocr";

impl ModelRegistry {
    /// The registry of a fresh installation: the default model, with an
    /// entry that names no file, is the active one.
    pub open spec fn initial() -> ModelRegistryView {
        ModelRegistryView {
            active: DEFAULT_MODEL_ID@,
            entries: Map::<Seq<char>, ModelEntry>::empty().insert(
                DEFAULT_MODEL_ID@,
                ModelEntry::empty(),
            ),
        }
    }
}

impl Default for ModelRegistry {
    fn default() -> (r: ModelRegistry)
        ensures
            r.entries.wf(),
            r@ == ModelRegistry::initial(),
    {
        let mut entries = ModelEntries::new();
        entries.insert(DEFAULT_MODEL_ID.to_owned(), ModelEntry::default());
        ModelRegistry { active: DEFAULT_MODEL_ID.to_owned(), entries }
    }
}

} // verus!
