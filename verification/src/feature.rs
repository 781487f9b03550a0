//! The features of the dataset: one record each, found by id through a
//! perfect hash map.

use crate::browser::Browser;
use crate::status::Status;
use crate::support::Support;
use crate::text::same_text;
use vstd::prelude::*;

verus! {

/// `phf::Map`, the immutable map of the `phf` crate. Verus sees nothing inside
/// a value of it.
#[verifier::external_type_specification]
#[verifier::external_body]
#[verifier::reject_recursive_types(K)]
#[verifier::reject_recursive_types(V)]
pub struct ExPhfMap<K: 'static, V: 'static>(phf::Map<K, V>);

/// The support levels of one browser, by version.
pub type Stat = phf::Map<&'static str, Support>;

/// The support levels of a feature, browser by browser.
pub type Stats = Vec<(Browser, Stat)>;

/// What an index of feature ids finds: the text `t` is mapped to the position
/// `v` exactly when `phf` reads neither the number of displacements nor the
/// number of entries of the index as 0, and the entry that the keyed hash of
/// `t` selects is `(t, v)`. This is what a lookup answers, not simply the
/// pairs that the table of entries lists.
pub uninterp spec fn index_entries(ids: phf::Map<&'static str, usize>) -> Map<Seq<char>, usize>;

/// The number of entries of an index.
pub uninterp spec fn index_slots(ids: phf::Map<&'static str, usize>) -> nat;

/// The number of displacements of an index: the length of the table that
/// spreads the hashes over the entries.
pub uninterp spec fn index_buckets(ids: phf::Map<&'static str, usize>) -> nat;

/// Whether `phf` reads the length `n` as 0: it takes a length as a `u32`, and
/// divides by it.
pub open spec fn reads_as_zero(n: nat) -> bool {
    n % 0x1_0000_0000 == 0
}

/// `phf::Map::len`: the number of entries. The second claim: among no
/// entries, or among a number that `phf` reads as 0, a lookup finds nothing
/// (it answers `None` or does not return).
#[verifier::external_body]
fn slot_count(ids: &phf::Map<&'static str, usize>) -> (r: usize)
    ensures
        r == index_slots(*ids),
        reads_as_zero(r as nat) ==> forall|k: Seq<char>| !(#[trigger] index_entries(*ids).contains_key(k)),
{
    ids.len()
}

/// The length of the field `disps` of a `phf::Map`: the number of
/// displacements. The second claim: without displacements a lookup answers
/// `None` at once, and with a number of them that `phf` reads as 0 it does not
/// return, so it finds nothing either way.
#[verifier::external_body]
fn bucket_count(ids: &phf::Map<&'static str, usize>) -> (r: usize)
    ensures
        r == index_buckets(*ids),
        reads_as_zero(r as nat) ==> forall|k: Seq<char>| !(#[trigger] index_entries(*ids).contains_key(k)),
{
    ids.disps.len()
}

/// `phf::Map::get` on an index of feature ids, with the position copied out.
/// The claim: the call returns the position that the index finds for the text
/// of `id`, and nothing where it finds none. The call takes one remainder by
/// the number of displacements and one by the number of entries, each read as
/// a `u32`; `requires` leaves out the maps on which either is 0, and on every
/// other map the call returns.
#[verifier::external_body]
fn indexed_position(ids: &phf::Map<&'static str, usize>, id: &str) -> (r: Option<usize>)
    requires
        !reads_as_zero(index_buckets(*ids)),
        !reads_as_zero(index_slots(*ids)),
    ensures
        r == if index_entries(*ids).contains_key(id@) {
            Some(index_entries(*ids)[id@])
        } else {
            None
        },
{
    ids.get(id).copied()
}

/// Whether `phf` reads the length `n` as 0.
fn is_read_as_zero(n: usize) -> (r: bool)
    ensures
        r == reads_as_zero(n as nat),
{
    (n as u64) % 0x1_0000_0000 == 0
}

/// The position that the index `ids` finds for `id`, on every index: one that
/// has nothing to look among finds nothing, and is not asked.
fn position_in(ids: &phf::Map<&'static str, usize>, id: &str) -> (r: Option<usize>)
    ensures
        r == if index_entries(*ids).contains_key(id@) {
            Some(index_entries(*ids)[id@])
        } else {
            None
        },
{
    if is_read_as_zero(bucket_count(ids)) || is_read_as_zero(slot_count(ids)) {
        None
    } else {
        indexed_position(ids, id)
    }
}

/// One feature, as the dataset describes it.
#[derive(Debug)]
pub struct Record {
    /// The id of the feature.
    pub id: &'static str,
    /// The id of the feature that this one is a part of, or the empty string.
    pub parent_id: &'static str,
    /// The title of the feature.
    pub title: &'static str,
    /// The status of its specification.
    pub status: Status,
    /// The support in each browser.
    pub stats: Stats,
}

/// Whether some record of `records` has the id `id`.
pub open spec fn names_record(records: Seq<Record>, id: Seq<char>) -> bool {
    exists|k: int| 0 <= k < records.len() && (#[trigger] records[k]).id@ == id
}

/// The position of the record with the id `id`, if there is one.
pub open spec fn position_of(records: Seq<Record>, id: Seq<char>) -> Option<int> {
    if names_record(records, id) {
        Some(choose|k: int| 0 <= k < records.len() && (#[trigger] records[k]).id@ == id)
    } else {
        None
    }
}

/// Whether `index` maps the id `id` to the position `at`.
pub open spec fn finds(index: Map<Seq<char>, usize>, id: Seq<char>, at: int) -> bool {
    index.contains_key(id) && index[id] == at
}

/// Whether `index` finds every record of `records` under its id, at its
/// position.
pub open spec fn indexes(index: Map<Seq<char>, usize>, records: Seq<Record>) -> bool {
    forall|i: int| 0 <= i < records.len() ==> finds(index, (#[trigger] records[i]).id@, i)
}

/// Whether `index` and `records` fit together: the index finds every record,
/// and every parent id that is not empty is the id of a record.
pub open spec fn consistent(index: Map<Seq<char>, usize>, records: Seq<Record>) -> bool {
    &&& indexes(index, records)
    &&& forall|i: int|
        0 <= i < records.len() ==> (#[trigger] records[i]).parent_id@.len() == 0 || names_record(
            records,
            records[i].parent_id@,
        )
}

/// Where an index finds every record, no two records share an id, so a
/// record's id gives its position.
pub proof fn lemma_ids_distinct(index: Map<Seq<char>, usize>, records: Seq<Record>, i: int)
    requires
        indexes(index, records),
        0 <= i < records.len(),
    ensures
        position_of(records, records[i].id@) == Some(i),
{
    let k = choose|k: int| 0 <= k < records.len() && (#[trigger] records[k]).id@ == records[i].id@;
    assert(finds(index, records[k].id@, k));
    assert(finds(index, records[i].id@, i));
}

/// What an answer `found` of the index to the id `id` is worth: the position
/// that it gives, if a record stands there and has that id.
pub open spec fn confirmed(records: Seq<Record>, found: Option<usize>, id: Seq<char>) -> Option<
    usize,
> {
    match found {
        Some(p) => if p < records.len() && records[p as int].id@ == id {
            Some(p)
        } else {
            None
        },
        None => None,
    }
}

/// Holds an answer of the index against the records: the position `found`,
/// if a record stands there and has the id `id`.
pub fn confirm(records: &[Record], found: Option<usize>, id: &str) -> (r: Option<usize>)
    ensures
        r == confirmed(records@, found, id@),
{
    match found {
        Some(p) => {
            if p < records.len() && same_text(records[p].id, id) {
                Some(p)
            } else {
                None
            }
        },
        None => None,
    }
}

/// Where an index finds every record, its answers, held against the records,
/// find exactly the records: the confirmed answer to an id is the position of
/// the record with that id.
pub proof fn lemma_confirmed_is_position(
    index: Map<Seq<char>, usize>,
    records: Seq<Record>,
    id: Seq<char>,
)
    requires
        indexes(index, records),
    ensures
        match confirmed(records, if index.contains_key(id) { Some(index[id]) } else { None }, id) {
            Some(p) => position_of(records, id) == Some(p as int),
            None => position_of(records, id) is None,
        },
{
    let found = if index.contains_key(id) {
        Some(index[id])
    } else {
        None
    };
    match confirmed(records, found, id) {
        Some(p) => {
            lemma_ids_distinct(index, records, p as int);
        },
        None => {
            if names_record(records, id) {
                let k = choose|k: int| 0 <= k < records.len() && (#[trigger] records[k]).id@ == id;
                assert(finds(index, records[k].id@, k));
            }
        },
    }
}

/// The features of a dataset, with the index that finds them by id.
#[derive(Debug)]
pub struct Dataset {
    ids: &'static phf::Map<&'static str, usize>,
    records: Vec<Record>,
}

impl View for Dataset {
    type V = Seq<Record>;

    /// The records, in their order. The index is no part of the view:
    /// `index` says what it finds.
    closed spec fn view(&self) -> Seq<Record> {
        self.records@
    }
}

impl Dataset {
    /// What the index of this dataset holds.
    pub closed spec fn index(self) -> Map<Seq<char>, usize> {
        index_entries(*self.ids)
    }

    /// Whether the index and the records fit together. Every dataset that
    /// exists at run time does.
    #[verifier::type_invariant]
    pub open spec fn wf(self) -> bool {
        consistent(self.index(), self@)
    }

    /// Makes a dataset of `records` and the index `ids`, if they fit
    /// together.
    pub fn new(ids: &'static phf::Map<&'static str, usize>, records: Vec<Record>) -> (r: Option<
        Dataset,
    >)
        ensures
            r is Some <==> consistent(index_entries(*ids), records@),
            r matches Some(d) ==> d@ == records@ && d.index() == index_entries(*ids) && d.wf(),
    {
        let ghost index = index_entries(*ids);
        let n = records.len();
        let mut i: usize = 0;
        while i < n
            invariant
                i <= n,
                n == records@.len(),
                index == index_entries(*ids),
                forall|k: int| 0 <= k < i ==> finds(index, (#[trigger] records@[k]).id@, k),
            decreases n - i,
        {
            match position_in(ids, records[i].id) {
                Some(p) => {
                    if p != i {
                        return None;
                    }
                },
                None => {
                    return None;
                },
            }
            i += 1;
        }
        let mut j: usize = 0;
        while j < n
            invariant
                j <= n,
                n == records@.len(),
                index == index_entries(*ids),
                indexes(index, records@),
                forall|k: int|
                    0 <= k < j ==> (#[trigger] records@[k]).parent_id@.len() == 0 || names_record(
                        records@,
                        records@[k].parent_id@,
                    ),
            decreases n - j,
        {
            let parent_id = records[j].parent_id;
            if !parent_id.is_empty() {
                let found = position_in(ids, parent_id);
                proof {
                    lemma_confirmed_is_position(index, records@, parent_id@);
                }
                if confirm(records.as_slice(), found, parent_id).is_none() {
                    return None;
                }
            }
            j += 1;
        }
        Some(Dataset { ids, records })
    }

    /// The number of features.
    pub fn len(&self) -> (r: usize)
        ensures
            r == self@.len(),
    {
        self.records.len()
    }
}

/// Whether `stats[at]` is the first entry of `stats` for the browser `br`.
pub open spec fn is_first_for(stats: Seq<(Browser, Stat)>, br: Browser, at: int) -> bool {
    &&& 0 <= at < stats.len()
    &&& stats[at].0 == br
    &&& forall|j: int| 0 <= j < at ==> (#[trigger] stats[j]).0 != br
}

/// One feature of a dataset: a handle that is cheap to copy.
#[derive(Clone, Copy, Debug)]
pub struct Feature<'a> {
    data: &'a Dataset,
    at: usize,
}

impl<'a> Feature<'a> {
    /// The dataset that this feature belongs to.
    pub closed spec fn dataset(self) -> Dataset {
        *self.data
    }

    /// The position of this feature in its dataset.
    pub closed spec fn position(self) -> int {
        self.at as int
    }

    /// Whether this feature is one of a consistent dataset. Every feature
    /// that exists at run time is.
    #[verifier::type_invariant]
    pub open spec fn wf(self) -> bool {
        self.dataset().wf() && 0 <= self.position() < self.dataset()@.len()
    }

    /// What the dataset says of this feature.
    pub open spec fn record(self) -> Record {
        self.dataset()@[self.position()]
    }

    /// The feature with the id `id` in `data`; an error where there is none.
    pub fn from_str(data: &'a Dataset, id: &str) -> (r: Result<Feature<'a>, ()>)
        ensures
            match r {
                Ok(f) => {
                    &&& f.dataset() == *data
                    &&& position_of(data@, id@) == Some(f.position())
                    &&& f.record().id@ == id@
                },
                Err(_) => position_of(data@, id@) is None,
            },
    {
        proof {
            use_type_invariant(data);
        }
        let found = position_in(data.ids, id);
        proof {
            lemma_confirmed_is_position(index_entries(*data.ids), data.records@, id@);
        }
        match confirm(data.records.as_slice(), found, id) {
            Some(at) => Ok(Feature { data, at }),
            None => Err(()),
        }
    }

    /// The id of this feature.
    pub fn id(self) -> (r: &'static str)
        ensures
            r@ == self.record().id@,
    {
        proof {
            use_type_invariant(self);
        }
        self.data.records[self.at].id
    }

    /// The id of the feature that this one is a part of, or the empty string.
    pub fn parent_id(self) -> (r: &'static str)
        ensures
            r@ == self.record().parent_id@,
    {
        proof {
            use_type_invariant(self);
        }
        self.data.records[self.at].parent_id
    }

    /// The title of this feature.
    pub fn title(self) -> (r: &'static str)
        ensures
            r@ == self.record().title@,
    {
        proof {
            use_type_invariant(self);
        }
        self.data.records[self.at].title
    }

    /// The status of the specification of this feature.
    pub fn status(self) -> (r: Status)
        ensures
            r == self.record().status,
    {
        proof {
            use_type_invariant(self);
        }
        self.data.records[self.at].status
    }

    /// The support for this feature, browser by browser.
    pub fn stats(self) -> (r: &'a Stats)
        ensures
            r@ == self.record().stats@,
    {
        proof {
            use_type_invariant(self);
        }
        &self.data.records[self.at].stats
    }

    /// The feature that this one is a part of, if it is a part of one.
    pub fn parent(self) -> (r: Option<Self>)
        ensures
            match r {
                Some(p) => {
                    &&& self.record().parent_id@.len() > 0
                    &&& p.dataset() == self.dataset()
                    &&& position_of(self.dataset()@, self.record().parent_id@) == Some(
                        p.position(),
                    )
                    &&& p.record().id@ == self.record().parent_id@
                },
                None => self.record().parent_id@.len() == 0,
            },
    {
        proof {
            use_type_invariant(self);
            use_type_invariant(self.data);
        }
        let parent_id = self.parent_id();
        if parent_id.is_empty() {
            return None;
        }
        match Feature::from_str(self.data, parent_id) {
            Ok(p) => Some(p),
            Err(_) => {
                assert(names_record(self.data@, self.data@[self.at as int].parent_id@));
                unreached()
            },
        }
    }

    /// The support levels of the browser `br` for this feature, by version:
    /// the first entry for `br`, if there is one.
    pub fn stat(self, br: Browser) -> (r: Option<&'a Stat>)
        ensures
            match r {
                Some(s) => exists|k: int|
                    is_first_for(self.record().stats@, br, k) && *s == (
                    #[trigger] self.record().stats@[k]).1,
                None => forall|k: int|
                    0 <= k < self.record().stats@.len() ==> (
                    #[trigger] self.record().stats@[k]).0 != br,
            },
    {
        let stats = self.stats();
        let n = stats.len();
        let mut i: usize = 0;
        while i < n
            invariant
                i <= n,
                n == stats@.len(),
                stats@ == self.record().stats@,
                forall|j: int| 0 <= j < i ==> (#[trigger] stats@[j]).0 != br,
            decreases n - i,
        {
            if stats[i].0 == br {
                assert(is_first_for(stats@, br, i as int));
                return Some(&stats[i].1);
            }
            i += 1;
        }
        None
    }
}

} // verus!
