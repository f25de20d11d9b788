//! The declared mappings: `source -> destination` pairs of relative paths.
//!
//! A declaration arrives as the list of key-value pairs that its object holds, in the
//! order in which they were written. It is a mapping only if that list has exactly one
//! pair; nothing is merged and nothing is picked.

use vstd::prelude::*;
use crate::error::{Failure, MappingFault, PackageError};

verus! {

/// A pair of paths as mathematical values: `(from, to)`.
pub type Pair = (Seq<char>, Seq<char>);

/// One declared mapping: copy `from`, relative to the project root, to `to`, relative
/// to the output directory.
#[derive(Clone, Debug, PartialEq, Eq)]
pub struct Mapping {
    pub from: String,
    pub to: String,
}

/// The configuration section of the manifest: the mappings in declaration order.
#[derive(Clone, Debug, PartialEq, Eq)]
pub struct ManifestConfig {
    pub map: Vec<Mapping>,
}

impl View for Mapping {
    type V = Pair;

    open spec fn view(&self) -> Pair {
        (self.from@, self.to@)
    }
}

impl View for ManifestConfig {
    type V = Seq<Pair>;

    open spec fn view(&self) -> Seq<Pair> {
        Seq::new(self.map@.len(), |i: int| self.map@[i]@)
    }
}

/// The pairs of a declaration as mathematical values.
pub open spec fn pairs_of(entries: Seq<(String, String)>) -> Seq<Pair> {
    Seq::new(entries.len(), |i: int| (entries[i].0@, entries[i].1@))
}

/// The declarations of a section as mathematical values.
pub open spec fn declarations_of(lists: Seq<Vec<(String, String)>>) -> Seq<Seq<Pair>> {
    Seq::new(lists.len(), |i: int| pairs_of(lists[i]@))
}

/// What a declaration with the given pairs means: its single pair, or the fault.
pub open spec fn parse_entry(entries: Seq<Pair>) -> Result<Pair, MappingFault> {
    if entries.len() == 0 {
        Err(MappingFault::MissingEntry)
    } else if entries.len() >= 2 {
        Err(MappingFault::MultipleEntries)
    } else {
        Ok(entries[0])
    }
}

/// The declaration that a mapping is written as: one pair.
pub open spec fn serialize_entry(pair: Pair) -> Seq<Pair> {
    seq![pair]
}

/// Whether every declaration before `upto` is well formed.
pub open spec fn well_formed_before(lists: Seq<Seq<Pair>>, upto: int) -> bool {
    forall|j: int| 0 <= j < upto ==> (#[trigger] lists[j]).len() == 1
}

/// What a section with the given declarations means: its mappings in order, or the
/// fault of the first declaration that is malformed.
pub open spec fn parse_section(lists: Seq<Seq<Pair>>) -> Result<Seq<Pair>, MappingFault>
    decreases lists.len(),
{
    if lists.len() == 0 {
        Ok(Seq::empty())
    } else {
        match parse_section(lists.drop_last()) {
            Err(fault) => Err(fault),
            Ok(pairs) => match parse_entry(lists.last()) {
                Err(fault) => Err(fault),
                Ok(pair) => Ok(pairs.push(pair)),
            },
        }
    }
}

impl Mapping {
    /// Reads a mapping from the pairs of its declaration.
    pub fn from_entries(entries: &[(String, String)]) -> (r: Result<Mapping, PackageError>)
        ensures
            match parse_entry(pairs_of(entries@)) {
                Ok(pair) => r is Ok && r->Ok_0@ == pair,
                Err(fault) => r is Err && r->Err_0@ == Failure::MalformedMapping(fault),
            },
    {
        if entries.len() == 0 {
            Err(PackageError::MalformedMapping(MappingFault::MissingEntry))
        } else if entries.len() >= 2 {
            Err(PackageError::MalformedMapping(MappingFault::MultipleEntries))
        } else {
            let from = entries[0].0.clone();
            let to = entries[0].1.clone();
            Ok(Mapping { from, to })
        }
    }

    /// Writes the mapping as the pairs of a declaration: exactly one.
    pub fn to_entries(&self) -> (entries: Vec<(String, String)>)
        ensures
            pairs_of(entries@) == serialize_entry(self@),
    {
        let mut entries: Vec<(String, String)> = Vec::new();
        entries.push((self.from.clone(), self.to.clone()));
        assert(pairs_of(entries@) =~= serialize_entry(self@));
        entries
    }
}

impl ManifestConfig {
    /// Reads a section from its declarations, in order. The first malformed
    /// declaration fails the whole section.
    pub fn from_entries(lists: &[Vec<(String, String)>]) -> (r: Result<
        ManifestConfig,
        PackageError,
    >)
        ensures
            match parse_section(declarations_of(lists@)) {
                Ok(pairs) => r is Ok && r->Ok_0@ == pairs,
                Err(fault) => r is Err && r->Err_0@ == Failure::MalformedMapping(fault),
            },
    {
        let ghost all = declarations_of(lists@);
        let mut map: Vec<Mapping> = Vec::new();
        let mut i: usize = 0;
        proof {
            assert(all.take(0) =~= Seq::<Seq<Pair>>::empty());
            assert((ManifestConfig { map })@ =~= Seq::<Pair>::empty());
        }
        while i < lists.len()
            invariant
                i <= lists.len(),
                all == declarations_of(lists@),
                parse_section(all.take(i as int)) == Ok::<Seq<Pair>, MappingFault>(
                    (ManifestConfig { map })@,
                ),
            decreases lists.len() - i,
        {
            let ghost before = (ManifestConfig { map })@;
            proof {
                assert(all.take(i + 1).drop_last() =~= all.take(i as int));
                assert(all.take(i + 1).last() == pairs_of(lists@[i as int]@));
            }
            match Mapping::from_entries(lists[i].as_slice()) {
                Err(error) => {
                    proof {
                        assert(parse_section(all.take(i + 1)) is Err);
                        lemma_failure_persists(all, i + 1);
                    }
                    return Err(error);
                },
                Ok(mapping) => {
                    map.push(mapping);
                    assert((ManifestConfig { map })@ =~= before.push(mapping@));
                },
            }
            i += 1;
        }
        proof {
            assert(all.take(i as int) =~= all);
        }
        Ok(ManifestConfig { map })
    }

    /// Writes the section as its declarations, one pair each, in order.
    pub fn to_entries(&self) -> (lists: Vec<Vec<(String, String)>>)
        ensures
            declarations_of(lists@) == self@.map_values(|pair: Pair| serialize_entry(pair)),
    {
        let mut lists: Vec<Vec<(String, String)>> = Vec::new();
        let mut i: usize = 0;
        while i < self.map.len()
            invariant
                i <= self.map.len(),
                declarations_of(lists@) == self@.take(i as int).map_values(
                    |pair: Pair| serialize_entry(pair),
                ),
            decreases self.map.len() - i,
        {
            let ghost before = declarations_of(lists@);
            let entries = self.map[i].to_entries();
            lists.push(entries);
            assert(declarations_of(lists@) =~= before.push(serialize_entry(self@[i as int])));
            assert(self@.take(i + 1) =~= self@.take(i as int).push(self@[i as int]));
            assert(declarations_of(lists@) =~= self@.take(i + 1).map_values(
                |pair: Pair| serialize_entry(pair),
            ));
            i += 1;
        }
        assert(self@.take(i as int) =~= self@);
        lists
    }

    /// Whether the section declares no mapping at all.
    pub fn is_empty(&self) -> (r: bool)
        ensures
            r == (self@.len() == 0),
    {
        self.map.len() == 0
    }
}

/// Reading what was written gives the mapping back: a mapping survives the trip
/// through its declaration.
pub proof fn written_mapping_reads_back(pair: Pair)
    ensures
        parse_entry(serialize_entry(pair)) == Ok::<Pair, MappingFault>(pair),
{
}

/// Writing what was read gives the declaration back: a declaration of exactly one
/// pair is read, and the mapping read from it is written as that same pair.
pub proof fn read_mapping_writes_back(entries: Seq<Pair>)
    requires
        entries.len() == 1,
    ensures
        parse_entry(entries) is Ok,
        serialize_entry(parse_entry(entries)->Ok_0) == entries,
{
    assert(serialize_entry(entries[0]) =~= entries);
}

/// A declaration with no pair, or with two or more, is never read as a mapping:
/// the first is a missing entry, the second multiple entries.
pub proof fn malformed_entry_is_rejected(entries: Seq<Pair>)
    requires
        entries.len() != 1,
    ensures
        parse_entry(entries) is Err,
        entries.len() == 0 ==> parse_entry(entries) == Err::<Pair, MappingFault>(
            MappingFault::MissingEntry,
        ),
        entries.len() >= 2 ==> parse_entry(entries) == Err::<Pair, MappingFault>(
            MappingFault::MultipleEntries,
        ),
{
}

/// A section is read exactly when each of its declarations holds one pair; its
/// mappings are then those pairs, in declaration order.
pub proof fn section_reads_in_order(lists: Seq<Seq<Pair>>)
    ensures
        parse_section(lists) is Ok <==> well_formed_before(lists, lists.len() as int),
        parse_section(lists) is Ok ==> {
            &&& parse_section(lists)->Ok_0.len() == lists.len()
            &&& forall|i: int|
                0 <= i < lists.len() ==> parse_section(lists)->Ok_0[i] == (#[trigger] lists[i])[0]
        },
    decreases lists.len(),
{
    if lists.len() > 0 {
        let front = lists.drop_last();
        section_reads_in_order(front);
        if parse_section(lists) is Ok {
            assert forall|j: int| 0 <= j < lists.len() implies (#[trigger] lists[j]).len()
                == 1 by {
                if j < front.len() {
                    assert(front[j] == lists[j]);
                }
            }
            assert forall|i: int| 0 <= i < lists.len() implies parse_section(lists)->Ok_0[i] == (
            #[trigger] lists[i])[0] by {
                if i < front.len() {
                    assert(front[i] == lists[i]);
                }
            }
        }
        if well_formed_before(lists, lists.len() as int) {
            assert forall|j: int| 0 <= j < front.len() implies (#[trigger] front[j]).len()
                == 1 by {
                assert(front[j] == lists[j]);
            }
            assert(lists.last() == lists[lists.len() - 1]);
        }
    }
}

/// A section fails with the fault of its first malformed declaration, whatever
/// follows it.
pub proof fn section_fails_at_first_fault(lists: Seq<Seq<Pair>>, first: int)
    requires
        0 <= first < lists.len(),
        well_formed_before(lists, first),
        lists[first].len() != 1,
    ensures
        parse_entry(lists[first]) is Err,
        parse_section(lists) == Err::<Seq<Pair>, MappingFault>(parse_entry(lists[first])->Err_0),
{
    let front = lists.take(first);
    assert forall|j: int| 0 <= j < front.len() implies (#[trigger] front[j]).len() == 1 by {
        assert(front[j] == lists[j]);
    }
    section_reads_in_order(front);
    assert(lists.take(first + 1).drop_last() =~= front);
    assert(lists.take(first + 1).last() == lists[first]);
    lemma_failure_persists(lists, first + 1);
}

/// Reading the declarations that a section was written as gives its mappings back.
pub proof fn written_section_reads_back(pairs: Seq<Pair>)
    ensures
        parse_section(pairs.map_values(|pair: Pair| serialize_entry(pair))) == Ok::<
            Seq<Pair>,
            MappingFault,
        >(pairs),
{
    let lists = pairs.map_values(|pair: Pair| serialize_entry(pair));
    section_reads_in_order(lists);
    assert(well_formed_before(lists, lists.len() as int));
    assert forall|i: int| 0 <= i < pairs.len() implies parse_section(lists)->Ok_0[i]
        == pairs[i] by {
        assert(lists[i][0] == pairs[i]);
    }
    assert(parse_section(lists)->Ok_0 =~= pairs);
}

/// A failure among the first `upto` declarations is the failure of the section.
proof fn lemma_failure_persists(lists: Seq<Seq<Pair>>, upto: int)
    requires
        0 <= upto <= lists.len(),
        parse_section(lists.take(upto)) is Err,
    ensures
        parse_section(lists) == parse_section(lists.take(upto)),
    decreases lists.len() - upto,
{
    if upto < lists.len() {
        assert(lists.take(upto + 1).drop_last() =~= lists.take(upto));
        lemma_failure_persists(lists, upto + 1);
    } else {
        assert(lists.take(upto) =~= lists);
    }
}

} // verus!
