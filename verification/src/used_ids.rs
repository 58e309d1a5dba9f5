//! The per-frame registry of claimed widget identities, which finds
//! identities that two widgets at different places share.

use crate::layer::Id;
use crate::math::Pos2;
use ahash::AHashMap;
use ahash::AHasher;
use ahash::RandomState;
use std::hash::Hash;
use std::hash::Hasher;
use vstd::prelude::*;
use vstd::string::StringExecFns;

verus! {

/// `ahash::AHashMap`, a hash map whose inside is not looked into here.
#[verifier::external_type_specification]
#[verifier::external_body]
#[verifier::reject_recursive_types(K)]
#[verifier::reject_recursive_types(V)]
#[verifier::reject_recursive_types(S)]
pub struct ExAHashMap<K, V, S>(AHashMap<K, V, S>);

/// `ahash::RandomState`, the default hasher state of an `AHashMap`.
#[verifier::external_type_specification]
#[verifier::external_body]
pub struct ExRandomState(RandomState);

/// What a map of claims holds: for the number of each claimed identity, the
/// position of its latest claim.
pub uninterp spec fn claims(map: AHashMap<u64, Pos2>) -> Map<u64, Pos2>;

/// `AHashMap::new` makes a map that holds nothing.
#[verifier::external_body]
fn claims_new() -> (fresh: AHashMap<u64, Pos2>)
    ensures
        claims(fresh) =~= Map::empty(),
{
    AHashMap::new()
}

/// `HashMap::clear`, which an `AHashMap` dereferences to, removes every
/// entry.
#[verifier::external_body]
fn claims_clear(map: &mut AHashMap<u64, Pos2>)
    ensures
        claims(*final(map)) =~= Map::empty(),
{
    map.clear()
}

/// `AHashMap::insert` stores the value under the key and hands back the
/// value that the key held before, if it held one.
#[verifier::external_body]
fn claims_insert(map: &mut AHashMap<u64, Pos2>, key: u64, value: Pos2) -> (previous: Option<Pos2>)
    ensures
        claims(*final(map)) == claims(*old(map)).insert(key, value),
        previous == (if claims(*old(map)).contains_key(key) {
            Some(claims(*old(map))[key])
        } else {
            None
        }),
{
    map.insert(key, value)
}

/// `AHashMap::get` looks the key up.
#[verifier::external_body]
fn claims_get(map: &AHashMap<u64, Pos2>, key: u64) -> (found: Option<Pos2>)
    ensures
        found == (if claims(*map).contains_key(key) {
            Some(claims(*map)[key])
        } else {
            None
        }),
{
    map.get(&key).copied()
}

/// `AHashMap::clone`, which the crate derives, copies the map with all its
/// entries.
#[verifier::external_body]
fn claims_clone(map: &AHashMap<u64, Pos2>) -> (copy: AHashMap<u64, Pos2>)
    ensures
        claims(copy) == claims(*map),
{
    map.clone()
}

/// `AHasher::default`, fed with `source` through `Hash::hash`, and
/// `Hasher::finish`. The keys of the hasher are chosen anew in each process,
/// so nothing is said of the number that comes out.
#[verifier::external_body]
fn hash_source(source: &str) -> u64 {
    let mut hasher = AHasher::default();
    source.hash(&mut hasher);
    hasher.finish()
}

impl Id {
    /// The identity of the widget that `source` names: the hash of the
    /// name. Within one process a name always gives the same identity;
    /// which number it is differs from process to process.
    pub fn new(source: &str) -> Id {
        Id(hash_source(source))
    }
}

/// Two claims of one identity that lie less than this far apart are taken
/// for one widget that registers again.
pub const CLASH_TOLERANCE: i32 = 4;

/// A message for the author of the interface, to be shown at a position.
#[derive(Debug)]
pub struct Diagnostic {
    pub pos: Pos2,
    pub text: String,
}

/// The mathematical content of a [`Diagnostic`].
pub struct DiagnosticView {
    pub pos: Pos2,
    pub text: Seq<char>,
}

impl View for Diagnostic {
    type V = DiagnosticView;

    open spec fn view(&self) -> DiagnosticView {
        DiagnosticView { pos: self.pos, text: self.text@ }
    }
}

/// The contents of a sequence of diagnostics.
pub open spec fn diagnostic_views(diagnostics: Seq<Diagnostic>) -> Seq<DiagnosticView> {
    Seq::new(diagnostics.len(), |i: int| diagnostics[i]@)
}

/// Whether a claim at `pos` clashes with an earlier claim of the same
/// identity at `previous`.
pub open spec fn spec_is_clash(previous: Pos2, pos: Pos2) -> bool {
    !previous.spec_is_within(pos, CLASH_TOLERANCE)
}

#[verifier::when_used_as_spec(spec_is_clash)]
pub fn is_clash(previous: Pos2, pos: Pos2) -> (clash: bool)
    ensures
        clash == spec_is_clash(previous, pos),
{
    !previous.is_within(pos, CLASH_TOLERANCE)
}

/// The text shown where a clashing identity was claimed first.
pub open spec fn first_use_text(source_name: Seq<char>) -> Seq<char> {
    "first use of non-unique ID "@ + source_name + " (name clash?)"@
}

/// The text shown where a clashing identity was claimed again.
pub open spec fn second_use_text(source_name: Seq<char>) -> Seq<char> {
    "second use of non-unique ID "@ + source_name + " (name clash?)"@
}

/// What claiming an identity at `pos` reports, given the claims so far:
/// nothing if the identity is new or was claimed close by, and else one
/// diagnostic at the earlier position and one at `pos`.
pub open spec fn clash_diagnostics(
    claimed: Map<u64, Pos2>,
    id: Id,
    source_name: Seq<char>,
    pos: Pos2,
) -> Seq<DiagnosticView> {
    if claimed.contains_key(id.0) && spec_is_clash(claimed[id.0], pos) {
        seq![
            DiagnosticView { pos: claimed[id.0], text: first_use_text(source_name) },
            DiagnosticView { pos, text: second_use_text(source_name) },
        ]
    } else {
        Seq::empty()
    }
}

/// The diagnostics of a clash between a claim at `previous` and one at
/// `pos`.
pub fn report_clash(previous: Pos2, source_name: &str, pos: Pos2) -> (diagnostics: Vec<Diagnostic>)
    ensures
        diagnostic_views(diagnostics@) == seq![
            DiagnosticView { pos: previous, text: first_use_text(source_name@) },
            DiagnosticView { pos, text: second_use_text(source_name@) },
        ],
{
    let mut first = String::from_str("first use of non-unique ID ");
    first.append(source_name);
    first.append(" (name clash?)");
    let mut second = String::from_str("second use of non-unique ID ");
    second.append(source_name);
    second.append(" (name clash?)");
    let mut diagnostics: Vec<Diagnostic> = Vec::new();
    diagnostics.push(Diagnostic { pos: previous, text: first });
    diagnostics.push(Diagnostic { pos, text: second });
    assert(diagnostic_views(diagnostics@) =~= seq![
        DiagnosticView { pos: previous, text: first_use_text(source_name@) },
        DiagnosticView { pos, text: second_use_text(source_name@) },
    ]);
    diagnostics
}

/// The identities that were claimed this frame.
pub struct UsedIds {
    map: AHashMap<u64, Pos2>,
}

impl View for UsedIds {
    type V = Map<u64, Pos2>;

    closed spec fn view(&self) -> Map<u64, Pos2> {
        claims(self.map)
    }
}

impl UsedIds {
    /// A registry without claims.
    pub fn new() -> (ids: UsedIds)
        ensures
            ids@ == Map::<u64, Pos2>::empty(),
    {
        UsedIds { map: claims_new() }
    }

    /// Forgets all claims.
    pub fn clear(&mut self)
        ensures
            final(self)@ == Map::<u64, Pos2>::empty(),
    {
        claims_clear(&mut self.map);
    }

    /// Where `id` was last claimed this frame.
    pub fn get(&self, id: Id) -> (pos: Option<Pos2>)
        ensures
            pos == (if self@.contains_key(id.0) {
                Some(self@[id.0])
            } else {
                None
            }),
    {
        claims_get(&self.map, id.0)
    }

    /// Records that `id`, which `source_name` describes, was claimed at
    /// `pos`, and reports a clash with an earlier claim of this frame.
    pub fn register(&mut self, id: Id, source_name: &str, pos: Pos2) -> (diagnostics: Vec<Diagnostic>)
        ensures
            final(self)@ == old(self)@.insert(id.0, pos),
            diagnostic_views(diagnostics@) == clash_diagnostics(old(self)@, id, source_name@, pos),
    {
        match claims_insert(&mut self.map, id.0, pos) {
            Some(previous) => {
                if is_clash(previous, pos) {
                    report_clash(previous, source_name, pos)
                } else {
                    let diagnostics: Vec<Diagnostic> = Vec::new();
                    assert(diagnostic_views(diagnostics@) =~= Seq::empty());
                    diagnostics
                }
            },
            None => {
                let diagnostics: Vec<Diagnostic> = Vec::new();
                assert(diagnostic_views(diagnostics@) =~= Seq::empty());
                diagnostics
            },
        }
    }
}

impl Clone for UsedIds {
    fn clone(&self) -> (copy: UsedIds)
        ensures
            copy@ == self@,
    {
        UsedIds { map: claims_clone(&self.map) }
    }
}

/// A claim far from an earlier claim of the same identity reports exactly
/// two diagnostics, one at each of the two positions, and does so each time
/// it recurs: after the registry was cleared and the earlier claim was made
/// again, the same claim reports the same.
pub proof fn lemma_clash_reports_both_positions(
    claimed: Map<u64, Pos2>,
    id: Id,
    source_name: Seq<char>,
    first: Pos2,
    second: Pos2,
)
    requires
        spec_is_clash(first, second),
    ensures
        clash_diagnostics(claimed.insert(id.0, first), id, source_name, second).len() == 2,
        clash_diagnostics(claimed.insert(id.0, first), id, source_name, second)[0].pos == first,
        clash_diagnostics(claimed.insert(id.0, first), id, source_name, second)[1].pos == second,
        clash_diagnostics(claimed.insert(id.0, first), id, source_name, second) == clash_diagnostics(
            Map::<u64, Pos2>::empty().insert(id.0, first),
            id,
            source_name,
            second,
        ),
{
}

} // verus!
