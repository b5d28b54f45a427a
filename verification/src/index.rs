use crate::config::{AddFieldConfig, AddFieldConfigView, StructConfig, StructConfigView};
use crate::views::{lemma_views_push, views_of};
use fxhash::FxHashMap;
use vstd::prelude::*;

verus! {

/// The hasher of `fxhash`, of which nothing is read.
#[verifier::external_type_specification]
#[verifier::external_body]
pub struct ExFxHasher(fxhash::FxHasher);

/// The builder of default hashers of std, of which nothing is read.
#[verifier::external_type_specification]
#[verifier::external_body]
#[verifier::reject_recursive_types(H)]
pub struct ExBuildHasherDefault<H>(core::hash::BuildHasherDefault<H>);

/// What an index holds: the position recorded for each key.
pub uninterp spec fn index_entries(index: FxHashMap<String, usize>) -> Map<Seq<char>, usize>;

/// Makes an empty `fxhash::FxHashMap` with `Default::default`: it holds no
/// key.
#[verifier::external_body]
pub(crate) fn index_new() -> (index: FxHashMap<String, usize>)
    ensures
        index_entries(index) == (Map::<Seq<char>, usize>::empty()),
{
    FxHashMap::default()
}

/// Calls `HashMap::get` on an `fxhash::FxHashMap`: the position recorded for
/// the key whose characters are those of `key`, if there is one.
#[verifier::external_body]
pub(crate) fn index_get(index: &FxHashMap<String, usize>, key: &str) -> (found: Option<usize>)
    ensures
        found == (if index_entries(*index).contains_key(key@) {
            Some(index_entries(*index)[key@])
        } else {
            None::<usize>
        }),
{
    index.get(key).copied()
}

/// Calls `HashMap::insert` on an `fxhash::FxHashMap`: afterwards the key is
/// recorded with `position`, and every other key as before.
#[verifier::external_body]
pub(crate) fn index_insert(index: &mut FxHashMap<String, usize>, key: String, position: usize)
    ensures
        index_entries(*final(index)) == index_entries(*old(index)).insert(key@, position),
{
    index.insert(key, position);
}

/// The first position in `variants` of the variant with the given id.
pub open spec fn position_of(variants: Seq<StructConfigView>, id: Seq<char>) -> Option<int> {
    if exists|i: int| 0 <= i < variants.len() && variants[i].id == id {
        Some(choose|i: int| 0 <= i < variants.len() && variants[i].id == id && forall|j: int|
            0 <= j < i ==> variants[j].id != id)
    } else {
        None
    }
}

/// Whether no two variants have the same id.
pub open spec fn ids_distinct(variants: Seq<StructConfigView>) -> bool {
    forall|i: int, j: int|
        0 <= i < j < variants.len() ==> (#[trigger] variants[i]).id != (#[trigger] variants[j]).id
}

/// The variants that a struct declares, in the order of their first
/// declaration, with an index from id to place.
#[derive(Clone, Debug)]
pub struct VariantTable {
    configs: Vec<StructConfig>,
    index: FxHashMap<String, usize>,
}

impl View for VariantTable {
    type V = Seq<StructConfigView>;

    closed spec fn view(&self) -> Seq<StructConfigView> {
        views_of(self.configs@)
    }
}

impl VariantTable {
    /// Whether the index tells the place of every variant, and of nothing
    /// else.
    pub closed spec fn wf(&self) -> bool {
        &&& forall|i: int|
            0 <= i < self.configs.len() ==> {
                &&& index_entries(self.index).contains_key(#[trigger] self.configs[i].id@)
                &&& index_entries(self.index)[self.configs[i].id@] == i
            }
        &&& forall|key: Seq<char>| #[trigger]
            index_entries(self.index).contains_key(key) ==> {
                &&& 0 <= index_entries(self.index)[key] < self.configs.len()
                &&& self.configs[index_entries(self.index)[key] as int].id@ == key
            }
    }

    /// In a well-formed table no two variants have the same id.
    pub proof fn lemma_ids_distinct(&self)
        requires
            self.wf(),
        ensures
            ids_distinct(self@),
    {
        assert forall|i: int, j: int| 0 <= i < j < self@.len() implies (#[trigger] self@[i]).id != (
        #[trigger] self@[j]).id by {
            assert(self@[i].id == self.configs[i].id@);
            assert(self@[j].id == self.configs[j].id@);
        }
    }

    /// The table without variants.
    pub fn new() -> (table: VariantTable)
        ensures
            table.wf(),
            table@ == Seq::<StructConfigView>::empty(),
    {
        let table = VariantTable { configs: Vec::new(), index: index_new() };
        assert(table@ =~= Seq::empty());
        table
    }

    /// The number of variants.
    pub fn len(&self) -> (n: usize)
        ensures
            n == self@.len(),
    {
        self.configs.len()
    }

    /// The variant at place `i`.
    pub fn get(&self, i: usize) -> (config: &StructConfig)
        requires
            i < self@.len(),
        ensures
            config@ == self@[i as int],
    {
        &self.configs[i]
    }

    /// The place of the variant with the given id, if the table has one.
    pub fn position(&self, id: &str) -> (place: Option<usize>)
        requires
            self.wf(),
        ensures
            (match place {
                Some(i) => position_of(self@, id@) == Some(i as int) && i < self@.len()
                    && self@[i as int].id == id@,
                None => position_of(self@, id@) is None,
            }),
    {
        proof {
            self.lemma_ids_distinct();
        }
        let place = index_get(&self.index, id);
        proof {
            match place {
                Some(i) => {
                    assert(self@[i as int].id == self.configs[i as int].id@);
                    let p = position_of(self@, id@)->0;
                    assert(self@[p].id == id@);
                    if p != i {
                        assert(self@[p].id != self@[i as int].id);
                    }
                },
                None => {
                    assert forall|i: int| 0 <= i < self@.len() implies self@[i].id != id@ by {
                        assert(self@[i].id == self.configs[i].id@);
                    }
                },
            }
        }
        place
    }

    /// Adds a variant whose id the table does not have yet.
    pub fn push(&mut self, config: StructConfig)
        requires
            old(self).wf(),
            position_of(old(self)@, config@.id) is None,
        ensures
            final(self).wf(),
            final(self)@ == old(self)@.push(config@),
    {
        let ghost before = *self;
        let place = self.configs.len();
        index_insert(&mut self.index, config.id.clone(), place);
        self.configs.push(config);
        proof {
            assert(self@ =~= before@.push(config@));
            assert forall|i: int| 0 <= i < self.configs.len() implies {
                &&& index_entries(self.index).contains_key(#[trigger] self.configs[i].id@)
                &&& index_entries(self.index)[self.configs[i].id@] == i
            } by {
                if i < place {
                    assert(before@[i].id == before.configs[i].id@);
                    assert(before@[i].id != config@.id);
                }
            }
            assert forall|key: Seq<char>| #[trigger]
                index_entries(self.index).contains_key(key) implies {
                &&& 0 <= index_entries(self.index)[key] < self.configs.len()
                &&& self.configs[index_entries(self.index)[key] as int].id@ == key
            } by {
                if key != config@.id {
                    assert(index_entries(before.index).contains_key(key));
                }
            }
        }
    }

    /// Puts `config` in the place of the variant at `i`, which has the same
    /// id.
    pub fn replace(&mut self, i: usize, config: StructConfig)
        requires
            old(self).wf(),
            i < old(self)@.len(),
            old(self)@[i as int].id == config@.id,
        ensures
            final(self).wf(),
            final(self)@ == old(self)@.update(i as int, config@),
    {
        let ghost before = *self;
        self.configs.set(i, config);
        proof {
            assert(self@ =~= before@.update(i as int, config@));
            assert(before@[i as int].id == before.configs[i as int].id@);
            assert forall|k: int| 0 <= k < self.configs.len() implies {
                &&& index_entries(self.index).contains_key(#[trigger] self.configs[k].id@)
                &&& index_entries(self.index)[self.configs[k].id@] == k
            } by {
                assert(self.configs[k].id@ == before.configs[k].id@);
            }
            assert forall|key: Seq<char>| #[trigger]
                index_entries(self.index).contains_key(key) implies {
                &&& 0 <= index_entries(self.index)[key] < self.configs.len()
                &&& self.configs[index_entries(self.index)[key] as int].id@ == key
            } by {
                let k = index_entries(self.index)[key] as int;
                assert(self.configs[k].id@ == before.configs[k].id@);
            }
        }
    }
}

/// The first place among `groups` of the group of additions for the variant
/// `id`: the group whose first addition names that variant.
pub open spec fn group_position(groups: Seq<Seq<AddFieldConfigView>>, id: Seq<char>) -> Option<int> {
    if exists|i: int| 0 <= i < groups.len() && groups[i].len() > 0 && groups[i][0].id == id {
        Some(
            choose|i: int|
                0 <= i < groups.len() && groups[i].len() > 0 && groups[i][0].id == id && forall|
                    j: int,
                |
                    0 <= j < i ==> !(groups[j].len() > 0 && groups[j][0].id == id),
        )
    } else {
        None
    }
}

/// The groups after one more addition: it joins the group of its variant,
/// behind those that are there, or starts a new group behind the others.
pub open spec fn added(groups: Seq<Seq<AddFieldConfigView>>, addition: AddFieldConfigView) -> Seq<
    Seq<AddFieldConfigView>,
> {
    match group_position(groups, addition.id) {
        Some(k) => groups.update(k, groups[k].push(addition)),
        None => groups.push(seq![addition]),
    }
}

/// The additions for the variant `id`, in the order declared.
pub open spec fn additions_for(groups: Seq<Seq<AddFieldConfigView>>, id: Seq<char>) -> Seq<
    AddFieldConfigView,
> {
    match group_position(groups, id) {
        Some(k) => groups[k],
        None => Seq::empty(),
    }
}

/// The added fields of a struct, grouped by the variant that each is meant
/// for, with an index from the id of the variant to its group.
#[derive(Clone, Debug)]
pub struct AddedFields {
    groups: Vec<Vec<AddFieldConfig>>,
    index: FxHashMap<String, usize>,
}

impl View for AddedFields {
    type V = Seq<Seq<AddFieldConfigView>>;

    closed spec fn view(&self) -> Seq<Seq<AddFieldConfigView>> {
        Seq::new(self.groups.len() as nat, |i: int| views_of(self.groups[i]@))
    }
}

impl AddedFields {
    /// Whether no group is empty and the index tells the place of every
    /// group, and of nothing else.
    pub closed spec fn wf(&self) -> bool {
        &&& forall|i: int|
            0 <= i < self.groups.len() ==> {
                &&& (#[trigger] self.groups[i]).len() > 0
                &&& index_entries(self.index).contains_key(self.groups[i][0].id@)
                &&& index_entries(self.index)[self.groups[i][0].id@] == i
            }
        &&& forall|key: Seq<char>| #[trigger]
            index_entries(self.index).contains_key(key) ==> {
                &&& 0 <= index_entries(self.index)[key] < self.groups.len()
                &&& self.groups[index_entries(self.index)[key] as int].len() > 0
                &&& self.groups[index_entries(self.index)[key] as int][0].id@ == key
            }
    }

    /// No additions.
    pub fn new() -> (fields: AddedFields)
        ensures
            fields.wf(),
            fields@ == Seq::<Seq<AddFieldConfigView>>::empty(),
    {
        let fields = AddedFields { groups: Vec::new(), index: index_new() };
        assert(fields@ =~= Seq::empty());
        fields
    }

    /// The groups, each with the additions for one variant in the order
    /// declared.
    pub fn groups(&self) -> (groups: &Vec<Vec<AddFieldConfig>>)
        ensures
            groups@.len() == self@.len(),
            forall|i: int| 0 <= i < groups@.len() ==> views_of(#[trigger] groups[i]@) == self@[i],
    {
        &self.groups
    }

    /// The place of the group for the variant `id`, if there is one.
    fn place(&self, id: &str) -> (place: Option<usize>)
        requires
            self.wf(),
        ensures
            (match place {
                Some(k) => k < self.groups.len() && group_position(self@, id@) == Some(k as int),
                None => group_position(self@, id@) is None,
            }),
    {
        let place = index_get(&self.index, id);
        proof {
            assert forall|i: int| 0 <= i < self@.len() implies self@[i].len() > 0 && self@[i][0].id
                == self.groups[i][0].id@ by {
                assert(self.groups[i].len() > 0);
                assert(self@[i] == views_of(self.groups[i]@));
                assert(self@[i][0] == self.groups[i][0]@);
            }
            match place {
                Some(k) => {
                    assert(self@[k as int][0].id == id@);
                    let p = group_position(self@, id@)->0;
                    assert(self@[p][0].id == id@);
                    assert(index_entries(self.index)[self.groups[p][0].id@] == p);
                },
                None => {
                    assert forall|i: int| 0 <= i < self@.len() implies !(self@[i].len() > 0
                        && self@[i][0].id == id@) by {
                        assert(index_entries(self.index).contains_key(self.groups[i][0].id@));
                    }
                },
            }
        }
        place
    }

    /// The additions for the variant `id`, in the order declared, if there
    /// are any.
    pub fn get(&self, id: &str) -> (group: Option<&Vec<AddFieldConfig>>)
        requires
            self.wf(),
        ensures
            (match group {
                Some(list) => group_position(self@, id@) is Some && views_of(list@)
                    == additions_for(self@, id@),
                None => group_position(self@, id@) is None,
            }),
    {
        match self.place(id) {
            Some(k) => {
                assert(self@[k as int] == views_of(self.groups[k as int]@));
                Some(&self.groups[k])
            },
            None => None,
        }
    }

    /// Adds one more addition; see [`added`].
    pub fn add(&mut self, addition: AddFieldConfig)
        requires
            old(self).wf(),
        ensures
            final(self).wf(),
            final(self)@ == added(old(self)@, addition@),
    {
        let ghost before = *self;
        match self.place(addition.id.as_str()) {
            Some(k) => {
                let mut group: Vec<AddFieldConfig> = Vec::new();
                let mut j: usize = 0;
                while j < self.groups[k].len()
                    invariant
                        *self == before,
                        k < self.groups.len(),
                        j <= self.groups[k as int].len(),
                        group.len() == j,
                        forall|m: int| 0 <= m < j ==> group[m]@ == self.groups[k as int][m]@,
                    decreases self.groups[k as int].len() - j,
                {
                    group.push(self.groups[k][j].duplicate());
                    j = j + 1;
                }
                assert(views_of(group@) =~= views_of(before.groups[k as int]@));
                proof {
                    lemma_views_push(group@, addition);
                    assert(before.groups[k as int].len() > 0);
                    assert(group[0]@ == before.groups[k as int][0]@);
                }
                group.push(addition);
                self.groups.set(k, group);
                proof {
                    assert(before@[k as int] == views_of(before.groups[k as int]@));
                    assert(self@ =~= before@.update(k as int, before@[k as int].push(addition@)));
                    assert forall|i: int| 0 <= i < self.groups.len() implies {
                        &&& (#[trigger] self.groups[i]).len() > 0
                        &&& index_entries(self.index).contains_key(self.groups[i][0].id@)
                        &&& index_entries(self.index)[self.groups[i][0].id@] == i
                    } by {
                        assert(before.groups[i].len() > 0);
                        assert(self.groups[i][0].id@ == before.groups[i][0].id@);
                    }
                    assert forall|key: Seq<char>| #[trigger]
                        index_entries(self.index).contains_key(key) implies {
                        &&& 0 <= index_entries(self.index)[key] < self.groups.len()
                        &&& self.groups[index_entries(self.index)[key] as int].len() > 0
                        &&& self.groups[index_entries(self.index)[key] as int][0].id@ == key
                    } by {
                        let i = index_entries(self.index)[key] as int;
                        assert(before.groups[i].len() > 0);
                        assert(self.groups[i][0].id@ == before.groups[i][0].id@);
                    }
                }
            },
            None => {
                let place = self.groups.len();
                index_insert(&mut self.index, addition.id.clone(), place);
                let mut group: Vec<AddFieldConfig> = Vec::new();
                proof {
                    lemma_views_push(group@, addition);
                    assert(views_of(group@) =~= Seq::empty());
                }
                group.push(addition);
                assert(views_of(group@) =~= seq![addition@]);
                self.groups.push(group);
                proof {
                    assert(self@ =~= before@.push(seq![addition@]));
                    assert forall|i: int| 0 <= i < self.groups.len() implies {
                        &&& (#[trigger] self.groups[i]).len() > 0
                        &&& index_entries(self.index).contains_key(self.groups[i][0].id@)
                        &&& index_entries(self.index)[self.groups[i][0].id@] == i
                    } by {
                        if i < place {
                            assert(before.groups[i].len() > 0);
                            assert(before@[i] == views_of(before.groups[i]@));
                            assert(before@[i][0] == before.groups[i][0]@);
                            assert(!(before@[i].len() > 0 && before@[i][0].id == addition@.id));
                        }
                    }
                    assert forall|key: Seq<char>| #[trigger]
                        index_entries(self.index).contains_key(key) implies {
                        &&& 0 <= index_entries(self.index)[key] < self.groups.len()
                        &&& self.groups[index_entries(self.index)[key] as int].len() > 0
                        &&& self.groups[index_entries(self.index)[key] as int][0].id@ == key
                    } by {
                        if key != addition@.id {
                            assert(index_entries(before.index).contains_key(key));
                            let i = index_entries(before.index)[key] as int;
                            assert(before.groups[i].len() > 0);
                        }
                    }
                }
            },
        }
    }
}

} // verus!
