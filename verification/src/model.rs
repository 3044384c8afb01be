//! Which models are loaded, and what is known of each.

use vstd::prelude::*;

verus! {

/// What a model's description says of it.
#[derive(Clone, Debug, PartialEq, Eq)]
pub struct ModelMetadata {
    pub id: String,
    pub version: String,
    pub task_type: String,
    pub input_shape: Vec<i64>,
    pub output_shape: Vec<i64>,
}

/// A failure of the model register.
#[derive(Clone, Debug, PartialEq, Eq)]
pub enum ModelError {
    /// The model of this identifier is not loaded.
    NotLoaded(String),
}

/// One loaded model: the identifier it was loaded under, and its metadata.
#[derive(Debug)]
pub struct LoadedModel {
    pub model_id: String,
    pub metadata: ModelMetadata,
}

/// No identifier occurs twice among `entries`.
pub open spec fn distinct_ids(entries: Seq<LoadedModel>) -> bool {
    forall|i: int, j: int|
        0 <= i < j < entries.len() ==> (#[trigger] entries[i]).model_id@ != (
        #[trigger] entries[j]).model_id@
}

/// The entries as a map from identifier to metadata, a later entry
/// replacing an earlier one of the same identifier.
pub open spec fn as_map(entries: Seq<LoadedModel>) -> Map<Seq<char>, ModelMetadata>
    decreases entries.len(),
{
    if entries.len() == 0 {
        Map::empty()
    } else {
        as_map(entries.drop_last()).insert(entries.last().model_id@, entries.last().metadata)
    }
}

/// The identifiers of the map are those of the entries, and where no
/// identifier occurs twice each one maps to its entry's metadata.
pub proof fn lemma_as_map_holds_the_entries(entries: Seq<LoadedModel>)
    ensures
        forall|key: Seq<char>| #[trigger]
            as_map(entries).contains_key(key) <==> exists|i: int|
                0 <= i < entries.len() && (#[trigger] entries[i]).model_id@ == key,
        distinct_ids(entries) ==> forall|i: int|
            0 <= i < entries.len() ==> as_map(entries)[(#[trigger] entries[i]).model_id@]
                == entries[i].metadata,
    decreases entries.len(),
{
    if entries.len() > 0 {
        let shorter = entries.drop_last();
        let last = entries.len() - 1;
        lemma_as_map_holds_the_entries(shorter);
        assert(forall|i: int| 0 <= i < shorter.len() ==> shorter[i] == entries[i]);
        assert forall|key: Seq<char>| #[trigger]
            as_map(entries).contains_key(key) <==> exists|i: int|
                0 <= i < entries.len() && (#[trigger] entries[i]).model_id@ == key by {
            if as_map(entries).contains_key(key) {
                if key == entries[last].model_id@ {
                    assert(entries[last].model_id@ == key);
                } else {
                    assert(as_map(shorter).contains_key(key));
                    let i = choose|i: int|
                        0 <= i < shorter.len() && (#[trigger] shorter[i]).model_id@ == key;
                    assert(entries[i].model_id@ == key);
                }
            }
            if exists|i: int| 0 <= i < entries.len() && (#[trigger] entries[i]).model_id@ == key {
                let i = choose|i: int|
                    0 <= i < entries.len() && (#[trigger] entries[i]).model_id@ == key;
                if i < last {
                    assert(shorter[i].model_id@ == key);
                    assert(as_map(shorter).contains_key(key));
                }
                assert(as_map(entries).contains_key(key));
            }
        }
        if distinct_ids(entries) {
            assert(distinct_ids(shorter));
            assert forall|i: int| 0 <= i < entries.len() implies as_map(entries)[(
            #[trigger] entries[i]).model_id@] == entries[i].metadata by {
                if i < last {
                    assert(shorter[i].model_id@ != entries[last].model_id@);
                }
            }
        }
    }
}

/// Replacing the metadata of one entry is an insertion into the map.
pub proof fn lemma_as_map_update(entries: Seq<LoadedModel>, at: int, replacement: LoadedModel)
    requires
        distinct_ids(entries),
        0 <= at < entries.len(),
        replacement.model_id@ == entries[at].model_id@,
    ensures
        distinct_ids(entries.update(at, replacement)),
        as_map(entries.update(at, replacement)) == as_map(entries).insert(
            replacement.model_id@,
            replacement.metadata,
        ),
{
    let updated = entries.update(at, replacement);
    assert(distinct_ids(updated)) by {
        assert forall|i: int, j: int| 0 <= i < j < updated.len() implies (
        #[trigger] updated[i]).model_id@ != (#[trigger] updated[j]).model_id@ by {
            assert(entries[i].model_id@ != entries[j].model_id@);
        }
    }
    lemma_as_map_holds_the_entries(entries);
    lemma_as_map_holds_the_entries(updated);
    let wanted = as_map(entries).insert(replacement.model_id@, replacement.metadata);
    assert forall|key: Seq<char>| #[trigger]
        as_map(updated).contains_key(key) == wanted.contains_key(key) by {
        if as_map(updated).contains_key(key) {
            let i = choose|i: int|
                0 <= i < updated.len() && (#[trigger] updated[i]).model_id@ == key;
            assert(entries[i].model_id@ == key);
        }
        if wanted.contains_key(key) && key != replacement.model_id@ {
            let i = choose|i: int|
                0 <= i < entries.len() && (#[trigger] entries[i]).model_id@ == key;
            assert(updated[i].model_id@ == key);
        }
        if key == replacement.model_id@ {
            assert(updated[at].model_id@ == key);
        }
    }
    assert forall|key: Seq<char>| #[trigger] as_map(updated).contains_key(key) implies as_map(
        updated,
    )[key] == wanted[key] by {
        let i = choose|i: int| 0 <= i < updated.len() && (#[trigger] updated[i]).model_id@ == key;
        assert(as_map(updated)[updated[i].model_id@] == updated[i].metadata);
        if i != at {
            assert(entries[i].model_id@ == key);
            assert(as_map(entries)[entries[i].model_id@] == entries[i].metadata);
            if i < at {
                assert(entries[i].model_id@ != entries[at].model_id@);
            } else {
                assert(entries[at].model_id@ != entries[i].model_id@);
            }
        }
    }
    assert(as_map(updated) =~= wanted);
}

/// Taking one entry out is a removal from the map.
pub proof fn lemma_as_map_remove(entries: Seq<LoadedModel>, at: int)
    requires
        distinct_ids(entries),
        0 <= at < entries.len(),
    ensures
        distinct_ids(entries.remove(at)),
        as_map(entries.remove(at)) == as_map(entries).remove(entries[at].model_id@),
{
    let rest = entries.remove(at);
    let gone = entries[at].model_id@;
    assert(distinct_ids(rest)) by {
        assert forall|i: int, j: int| 0 <= i < j < rest.len() implies (
        #[trigger] rest[i]).model_id@ != (#[trigger] rest[j]).model_id@ by {
            let a = if i < at {
                i
            } else {
                i + 1
            };
            let b = if j < at {
                j
            } else {
                j + 1
            };
            assert(entries[a].model_id@ != entries[b].model_id@);
        }
    }
    lemma_as_map_holds_the_entries(entries);
    lemma_as_map_holds_the_entries(rest);
    let wanted = as_map(entries).remove(gone);
    assert forall|key: Seq<char>| #[trigger]
        as_map(rest).contains_key(key) == wanted.contains_key(key) by {
        if as_map(rest).contains_key(key) {
            let i = choose|i: int| 0 <= i < rest.len() && (#[trigger] rest[i]).model_id@ == key;
            let a = if i < at {
                i
            } else {
                i + 1
            };
            assert(entries[a].model_id@ == key);
            if a < at {
                assert(entries[a].model_id@ != entries[at].model_id@);
            } else {
                assert(entries[at].model_id@ != entries[a].model_id@);
            }
        }
        if wanted.contains_key(key) {
            let a = choose|a: int|
                0 <= a < entries.len() && (#[trigger] entries[a]).model_id@ == key;
            let i = if a < at {
                a
            } else {
                a - 1
            };
            assert(rest[i].model_id@ == key);
        }
    }
    assert forall|key: Seq<char>| #[trigger] as_map(rest).contains_key(key) implies as_map(
        rest,
    )[key] == wanted[key] by {
        let i = choose|i: int| 0 <= i < rest.len() && (#[trigger] rest[i]).model_id@ == key;
        let a = if i < at {
            i
        } else {
            i + 1
        };
        assert(as_map(rest)[rest[i].model_id@] == rest[i].metadata);
        assert(as_map(entries)[entries[a].model_id@] == entries[a].metadata);
    }
    assert(as_map(rest) =~= wanted);
}

/// The register of loaded models, by identifier.
#[derive(Debug)]
pub struct ModelLoader {
    loaded: Vec<LoadedModel>,
}

impl View for ModelLoader {
    type V = Map<Seq<char>, ModelMetadata>;

    closed spec fn view(&self) -> Map<Seq<char>, ModelMetadata> {
        as_map(self.loaded@)
    }
}

impl ModelLoader {
    #[verifier::type_invariant]
    spec fn no_identifier_twice(self) -> bool {
        distinct_ids(self.loaded@)
    }

    /// A register with no model loaded.
    pub fn new() -> (loader: ModelLoader)
        ensures
            loader@ == Map::<Seq<char>, ModelMetadata>::empty(),
    {
        ModelLoader { loaded: Vec::new() }
    }

    /// The position of the entry for `model_id`, if it has one.
    fn position(&self, model_id: &String) -> (found: Option<usize>)
        ensures
            match found {
                Some(at) => at < self.loaded@.len() && self.loaded@[at as int].model_id@
                    == model_id@,
                None => forall|i: int|
                    0 <= i < self.loaded@.len() ==> (#[trigger] self.loaded@[i]).model_id@
                        != model_id@,
            },
    {
        let mut k: usize = 0;
        while k < self.loaded.len()
            invariant
                k <= self.loaded@.len(),
                forall|i: int|
                    0 <= i < k ==> (#[trigger] self.loaded@[i]).model_id@ != model_id@,
            decreases self.loaded.len() - k,
        {
            if self.loaded[k].model_id == *model_id {
                return Some(k);
            }
            k = k + 1;
        }
        None
    }

    /// How many models are loaded.
    pub fn loaded_count(&self) -> (count: usize)
        ensures
            count == self@.len(),
    {
        proof {
            use_type_invariant(self);
            lemma_as_map_len(self.loaded@);
        }
        self.loaded.len()
    }

    /// Whether a model is loaded under `model_id`.
    pub fn is_loaded(&self, model_id: &str) -> (loaded: bool)
        ensures
            loaded == self@.contains_key(model_id@),
    {
        let key = String::from_str(model_id);
        let found = self.position(&key);
        proof {
            lemma_as_map_holds_the_entries(self.loaded@);
            if found.is_some() {
                assert(self.loaded@[found.unwrap() as int].model_id@ == model_id@);
            }
        }
        found.is_some()
    }

    /// Records that the model `model_id` is loaded, with this metadata. The
    /// metadata of an earlier load under the same identifier is replaced.
    pub fn load_model(&mut self, model_id: &str, metadata: ModelMetadata)
        ensures
            final(self)@ == old(self)@.insert(model_id@, metadata),
    {
        proof {
            use_type_invariant(&*self);
        }
        let key = String::from_str(model_id);
        let found = self.position(&key);
        let entry = LoadedModel { model_id: key, metadata };
        let mut loaded: Vec<LoadedModel> = Vec::new();
        std::mem::swap(&mut self.loaded, &mut loaded);
        match found {
            Some(at) => {
                proof {
                    lemma_as_map_update(loaded@, at as int, entry);
                }
                loaded.set(at, entry);
            },
            None => {
                proof {
                    assert(loaded@.push(entry).drop_last() == loaded@);
                    assert(distinct_ids(loaded@.push(entry)));
                }
                loaded.push(entry);
            },
        }
        std::mem::swap(&mut self.loaded, &mut loaded);
    }

    /// Forgets the model `model_id`. Unloading a model that is not loaded
    /// changes nothing.
    pub fn unload_model(&mut self, model_id: &str)
        ensures
            final(self)@ == old(self)@.remove(model_id@),
    {
        proof {
            use_type_invariant(&*self);
            lemma_as_map_holds_the_entries(self.loaded@);
        }
        let key = String::from_str(model_id);
        match self.position(&key) {
            Some(at) => {
                let mut loaded: Vec<LoadedModel> = Vec::new();
                std::mem::swap(&mut self.loaded, &mut loaded);
                proof {
                    lemma_as_map_remove(loaded@, at as int);
                }
                loaded.remove(at);
                std::mem::swap(&mut self.loaded, &mut loaded);
            },
            None => {
                assert(!self@.contains_key(model_id@));
                assert(self@.remove(model_id@) == self@);
            },
        }
    }

    /// The metadata of the model `model_id`; `NotLoaded`, with the
    /// identifier, exactly when no model is loaded under it.
    pub fn get_model_metadata(&self, model_id: &str) -> (found: Result<&ModelMetadata, ModelError>)
        ensures
            match found {
                Ok(metadata) => self@.contains_key(model_id@) && *metadata == self@[model_id@],
                Err(e) => {
                    &&& !self@.contains_key(model_id@)
                    &&& e matches ModelError::NotLoaded(named)
                    &&& named@ == model_id@
                },
            },
    {
        proof {
            use_type_invariant(self);
            lemma_as_map_holds_the_entries(self.loaded@);
        }
        let key = String::from_str(model_id);
        match self.position(&key) {
            Some(at) => {
                assert(self.loaded@[at as int].model_id@ == model_id@);
                Ok(&self.loaded[at].metadata)
            },
            None => Err(ModelError::NotLoaded(key)),
        }
    }
}

/// Entries without a repeated identifier make a finite map of as many
/// keys.
pub proof fn lemma_as_map_len(entries: Seq<LoadedModel>)
    requires
        distinct_ids(entries),
    ensures
        as_map(entries).dom().finite(),
        as_map(entries).len() == entries.len(),
    decreases entries.len(),
{
    if entries.len() > 0 {
        let shorter = entries.drop_last();
        lemma_as_map_len(shorter);
        lemma_as_map_holds_the_entries(shorter);
        assert(forall|i: int| 0 <= i < shorter.len() ==> shorter[i] == entries[i]);
        assert(!as_map(shorter).contains_key(entries.last().model_id@)) by {
            if as_map(shorter).contains_key(entries.last().model_id@) {
                let i = choose|i: int|
                    0 <= i < shorter.len() && (#[trigger] shorter[i]).model_id@
                        == entries.last().model_id@;
                assert(entries[i].model_id@ != entries[entries.len() - 1].model_id@);
            }
        }
    }
}

} // verus!
