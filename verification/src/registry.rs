//! The composite registry: one namespace merged from every admitted
//! adapter's method set.
//!
//! The registry is an explicit two-state machine.  While *open* it accepts
//! merges, each guarded by a mandatory collision check; a duplicate method
//! name is a fatal construction error, never a silent overwrite.  Sealing is
//! a one-way transition to a read-only registry that routes calls, applying
//! the global safety policy centrally so no adapter can bypass it.

use vstd::prelude::*;
use crate::methods::{DeclModel, HandlerId, MethodSet, SetModel};
use crate::policy::{spec_admits, Classification, DenyUnsafe};

verus! {

/// One method as it stands in the composite namespace: the declaration plus
/// the name of the adapter that contributed it.
pub struct RegisteredMethod {
    /// Name of the contributing adapter.
    pub adapter: String,
    /// Externally visible method name, globally unique after composition.
    pub name: String,
    /// Handler token the transport resolves after routing.
    pub handler: HandlerId,
    /// Safety classification carried over from the declaring adapter.
    pub classification: Classification,
}

/// Mathematical model of one registered method.
pub struct EntryModel {
    pub adapter: Seq<char>,
    pub name: Seq<char>,
    pub handler: HandlerId,
    pub classification: Classification,
}

impl View for RegisteredMethod {
    type V = EntryModel;

    open spec fn view(&self) -> EntryModel {
        EntryModel {
            adapter: self.adapter@,
            name: self.name@,
            handler: self.handler,
            classification: self.classification,
        }
    }
}

/// The entry an adapter's declaration becomes once merged.
pub open spec fn entry_of(adapter: Seq<char>, d: DeclModel) -> EntryModel {
    EntryModel { adapter: adapter, name: d.name, handler: d.handler, classification: d.classification }
}

/// Every declaration of the set, tagged with the set's adapter name, in
/// declaration order.
pub open spec fn tagged_entries(s: SetModel) -> Seq<EntryModel> {
    s.methods.map(|i: int, d: DeclModel| entry_of(s.adapter, d))
}

/// Global uniqueness of method names: the registry invariant.
pub open spec fn distinct_names(es: Seq<EntryModel>) -> bool {
    forall|i: int, j: int| 0 <= i < j < es.len() ==> es[i].name != es[j].name
}

/// Whether some entry carries the method name `n`.
pub open spec fn contains_name(es: Seq<EntryModel>, n: Seq<char>) -> bool {
    exists|i: int| 0 <= i < es.len() && es[i].name == n
}

/// Reported when two adapters declare the same method name: the composition
/// aborts, naming both contributors.
#[derive(Debug)]
pub struct CollisionError {
    /// The duplicated method name.
    pub method: String,
    /// Adapter that declared the name first.
    pub first_adapter: String,
    /// Adapter whose merge collided.
    pub second_adapter: String,
}

/// Mathematical model of a collision report.
pub struct CollisionModel {
    pub method: Seq<char>,
    pub first_adapter: Seq<char>,
    pub second_adapter: Seq<char>,
}

impl View for CollisionError {
    type V = CollisionModel;

    open spec fn view(&self) -> CollisionModel {
        CollisionModel {
            method: self.method@,
            first_adapter: self.first_adapter@,
            second_adapter: self.second_adapter@,
        }
    }
}

/// The collision report is genuine: the method name is declared by the set
/// being merged, and the same name already stands in the registry or earlier
/// in the same set, under the reported first adapter.
pub open spec fn collision_witnessed(es: Seq<EntryModel>, s: SetModel, c: CollisionModel) -> bool {
    &&& c.second_adapter == s.adapter
    &&& exists|j: int|
        0 <= j < s.methods.len() && s.methods[j].name == c.method && (contains_as(
            es,
            c.method,
            c.first_adapter,
        ) || (c.first_adapter == s.adapter && exists|i: int|
            0 <= i < j && s.methods[i].name == c.method))
}

/// Some entry carries the name `n` and was contributed by adapter `a`.
pub open spec fn contains_as(es: Seq<EntryModel>, n: Seq<char>, a: Seq<char>) -> bool {
    exists|i: int| 0 <= i < es.len() && es[i].name == n && es[i].adapter == a
}

/// The *open* state of the registry: merges are still accepted.
pub struct OpenRegistry {
    /// Entries merged so far.
    pub entries: Vec<RegisteredMethod>,
}

impl View for OpenRegistry {
    type V = Seq<EntryModel>;

    open spec fn view(&self) -> Seq<EntryModel> {
        self.entries@.map(|i: int, e: RegisteredMethod| e@)
    }
}

/// First entry carrying the name, if any.
fn find_name(entries: &Vec<RegisteredMethod>, n: &String) -> (r: Option<usize>)
    ensures
        match r {
            Some(i) => i < entries@.len() && entries@.map(
                |k: int, e: RegisteredMethod| e@,
            )[i as int].name == n@,
            None => !contains_name(entries@.map(|k: int, e: RegisteredMethod| e@), n@),
        },
{
    let ghost es = entries@.map(|k: int, e: RegisteredMethod| e@);
    let mut i: usize = 0;
    while i < entries.len()
        invariant
            i <= entries.len(),
            es == entries@.map(|k: int, e: RegisteredMethod| e@),
            es.len() == entries@.len(),
            forall|j: int| 0 <= j < i ==> es[j].name != n@,
        decreases entries.len() - i,
    {
        if entries[i].name == *n {
            assert(es[i as int].name == n@);
            return Some(i);
        }
        i += 1;
    }
    None
}

impl OpenRegistry {
    /// A fresh, empty open registry.
    pub fn new() -> (r: OpenRegistry)
        ensures
            r@ == Seq::<EntryModel>::empty(),
    {
        let r = OpenRegistry { entries: Vec::new() };
        proof {
            assert(r@ =~= Seq::<EntryModel>::empty());
        }
        r
    }

    /// Merge one adapter's method set into the namespace.
    ///
    /// Succeeds exactly when the merged namespace stays collision-free; on a
    /// duplicate name the registry is left unchanged and the error names
    /// both contributing adapters.  A name duplicated inside the set itself
    /// is a collision of the adapter with itself.
    pub fn merge(&mut self, set: &MethodSet) -> (r: Result<(), CollisionError>)
        requires
            distinct_names(old(self)@),
        ensures
            distinct_names(final(self)@),
            r is Ok <==> distinct_names(old(self)@ + tagged_entries(set@)),
            (match r {
                Ok(()) => final(self)@ == old(self)@ + tagged_entries(set@),
                Err(c) => final(self)@ == old(self)@ && collision_witnessed(old(self)@, set@, c@),
            }),
    {
        let ghost orig = self@;
        let orig_len = self.entries.len();
        let n = set.methods.len();
        let mut k: usize = 0;
        proof {
            assert(self@ =~= orig + tagged_entries(set@).take(0));
        }
        while k < n
            invariant
                k <= n,
                n == set.methods@.len(),
                set@.methods.len() == n,
                orig == old(self)@,
                orig_len == orig.len(),
                distinct_names(orig),
                self.entries@.len() == orig_len + k,
                self@ == orig + tagged_entries(set@).take(k as int),
                distinct_names(self@),
            decreases n - k,
        {
            let d = &set.methods[k];
            proof {
                assert(set@.methods[k as int] == set.methods@[k as int]@);
                assert(tagged_entries(set@)[k as int] == entry_of(set@.adapter, set@.methods[k as int]));
            }
            match find_name(&self.entries, &d.name) {
                Some(i) => {
                    let c = CollisionError {
                        method: d.name.clone(),
                        first_adapter: self.entries[i].adapter.clone(),
                        second_adapter: set.adapter.clone(),
                    };
                    let ghost pre = self.entries@;
                    let ghost es = self@;
                    proof {
                        assert(es[i as int].name == d.name@);
                        assert(es[i as int].adapter == c.first_adapter@);
                        if i < orig_len {
                            assert(orig[i as int] == es[i as int]);
                            assert(contains_as(orig, c@.method, c@.first_adapter));
                        } else {
                            let p = i - orig_len;
                            assert(es[i as int] == tagged_entries(set@).take(k as int)[p as int]);
                            assert(tagged_entries(set@)[p as int] == entry_of(
                                set@.adapter,
                                set@.methods[p as int],
                            ));
                            assert(set@.methods[p as int].name == c@.method);
                            assert(c@.first_adapter == set@.adapter);
                        }
                        assert(collision_witnessed(orig, set@, c@));
                        // the duplicate also refutes global distinctness
                        let all = orig + tagged_entries(set@);
                        assert(all[orig_len + k] == tagged_entries(set@)[k as int]);
                        assert(all[orig_len + k].name == d.name@);
                        if i < orig_len {
                            assert(all[i as int] == orig[i as int]);
                            assert(all[i as int].name == d.name@);
                            assert(!distinct_names(all));
                        } else {
                            let p = i - orig_len;
                            assert(all[orig_len + p] == tagged_entries(set@)[p as int]);
                            assert(es[i as int] == tagged_entries(set@)[p as int]);
                            assert(all[orig_len + p].name == d.name@);
                            assert(orig_len + p < orig_len + k);
                            assert(!distinct_names(all));
                        }
                    }
                    self.entries.truncate(orig_len);
                    proof {
                        assert(self.entries@ == pre.subrange(0, orig_len as int));
                        assert forall|t: int| 0 <= t < orig_len implies self@[t] == orig[t] by {
                            assert(self@[t] == self.entries@[t]@);
                            assert(self.entries@[t] == pre[t]);
                            assert(es[t] == pre[t]@);
                            assert(es[t] == (orig + tagged_entries(set@).take(k as int))[t]);
                        }
                        assert(self@ =~= orig);
                    }
                    return Err(c);
                },
                None => {
                    let entry = RegisteredMethod {
                        adapter: set.adapter.clone(),
                        name: d.name.clone(),
                        handler: d.handler,
                        classification: d.classification,
                    };
                    let ghost pre = self.entries@;
                    let ghost es = self@;
                    let ghost pushed = entry@;
                    proof {
                        assert(pushed == tagged_entries(set@)[k as int]);
                        assert(!contains_name(es, d.name@));
                    }
                    self.entries.push(entry);
                    proof {
                        assert(self.entries@.len() == pre.len() + 1);
                        assert forall|t: int| 0 <= t < es.len() + 1 implies self@[t] == es.push(
                            pushed,
                        )[t] by {
                            assert(self@[t] == self.entries@[t]@);
                            if t < es.len() {
                                assert(self.entries@[t] == pre[t]);
                                assert(es[t] == pre[t]@);
                            } else {
                                assert(self.entries@[t]@ == pushed);
                            }
                        }
                        assert(self@ =~= es.push(pushed));
                        assert((orig + tagged_entries(set@).take(k as int + 1)) =~= es.push(pushed));
                        assert(self@ == orig + tagged_entries(set@).take(k as int + 1));
                        assert forall|a: int, b: int|
                            0 <= a < b < self@.len() implies self@[a].name != self@[b].name by {
                            if b < es.len() {
                                assert(self@[a] == es[a] && self@[b] == es[b]);
                            } else {
                                assert(self@[a] == es[a] && self@[b] == pushed);
                                assert(es[a].name != d.name@);
                            }
                        }
                        assert(distinct_names(self@));
                    }
                },
            }
            k += 1;
        }
        proof {
            assert(self@ =~= orig + tagged_entries(set@));
        }
        Ok(())
    }

    /// Seal the registry: the one-way transition to the read-only,
    /// call-serving state.  No merge is possible afterwards, and the safety
    /// policy handed over here governs every dispatch.
    pub fn seal(self, deny_unsafe: DenyUnsafe) -> (r: SealedRegistry)
        requires
            distinct_names(self@),
        ensures
            r@.entries == self@,
            r@.deny_unsafe == deny_unsafe,
            sealed_wf(r@),
    {
        SealedRegistry { entries: self.entries, deny_unsafe }
    }
}

/// The *sealed* state: immutable, safe for concurrent dispatch.  Dispatch
/// borrows the registry shared and the registry owns no lock, so no
/// registry-internal state is held across a handler invocation.
pub struct SealedRegistry {
    /// The composed namespace, names globally unique.
    pub entries: Vec<RegisteredMethod>,
    /// The safety policy fixed at sealing time.
    pub deny_unsafe: DenyUnsafe,
}

/// Mathematical model of a sealed registry.
pub struct SealedModel {
    pub entries: Seq<EntryModel>,
    pub deny_unsafe: DenyUnsafe,
}

impl View for SealedRegistry {
    type V = SealedModel;

    open spec fn view(&self) -> SealedModel {
        SealedModel {
            entries: self.entries@.map(|i: int, e: RegisteredMethod| e@),
            deny_unsafe: self.deny_unsafe,
        }
    }
}

/// Well-formedness of a sealed registry: the global uniqueness invariant.
pub open spec fn sealed_wf(s: SealedModel) -> bool {
    distinct_names(s.entries)
}

/// Outcome of routing one call.
#[derive(Clone, Copy, PartialEq, Eq, Structural, Debug)]
pub enum DispatchOutcome {
    /// The call was admitted and routed: the transport now invokes the
    /// handler behind the token, whose response or failure is the
    /// subsystem's own and leaves the registry untouched.
    Routed(HandlerId),
    /// No registered method carries the name; indistinguishable from the
    /// name never having existed in any adapter.
    NotFound,
    /// The method is registered but classified `Unsafe` while the policy
    /// denies unsafe calls.
    PolicyDenied,
}

/// What dispatch returns, as a function of the registry model and the name.
pub open spec fn spec_dispatch(s: SealedModel, n: Seq<char>) -> DispatchOutcome {
    if !contains_name(s.entries, n) {
        DispatchOutcome::NotFound
    } else {
        let i = choose|i: int| 0 <= i < s.entries.len() && s.entries[i].name == n;
        if spec_admits(s.deny_unsafe, s.entries[i].classification) {
            DispatchOutcome::Routed(s.entries[i].handler)
        } else {
            DispatchOutcome::PolicyDenied
        }
    }
}

impl SealedRegistry {
    /// Route one incoming call.
    ///
    /// Applies the safety policy centrally, then routes to the registered
    /// handler; an unknown name is `NotFound` whether it never existed or
    /// belongs to a feature-gated adapter that was not built.
    pub fn dispatch(&self, name: &str) -> (o: DispatchOutcome)
        requires
            sealed_wf(self@),
        ensures
            o == spec_dispatch(self@, name@),
    {
        let key: String = name.to_owned();
        match find_name(&self.entries, &key) {
            Some(i) => {
                let e = &self.entries[i];
                proof {
                    let ghost es = self@.entries;
                    assert(es[i as int].name == name@);
                    assert(contains_name(es, name@));
                    let ghost j = choose|j: int| 0 <= j < es.len() && es[j].name == name@;
                    assert(es[j] == es[i as int]) by {
                        if j != i as int {
                            assert(es[j].name == es[i as int].name);
                            assert(false);
                        }
                    }
                }
                if self.deny_unsafe.admits(e.classification) {
                    DispatchOutcome::Routed(e.handler)
                } else {
                    DispatchOutcome::PolicyDenied
                }
            },
            None => DispatchOutcome::NotFound,
        }
    }

    /// How many methods the sealed namespace holds.
    pub fn len(&self) -> (n: usize)
        ensures
            n == self@.entries.len(),
    {
        self.entries.len()
    }

    /// Whether a method with this name is registered at all, independent of
    /// the safety policy.
    pub fn contains(&self, name: &str) -> (b: bool)
        ensures
            b == contains_name(self@.entries, name@),
    {
        let key: String = name.to_owned();
        match find_name(&self.entries, &key) {
            Some(_) => true,
            None => false,
        }
    }
}

} // verus!
