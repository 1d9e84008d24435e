//! Destructor synthesis: every class without an explicit destructor gets
//! a synthesized one, with virtuality inferred from the hierarchy.

use vstd::prelude::*;
use crate::model::{view_method, CppData, CppDataV, CppMethod, CppMethodClassMembership, CppMethodKind, CppMethodV, CppType, CppTypeBase, CppTypeDataV, CppTypeIndirection, CppVisibility};
use crate::database::{lemma_find_first_none, spec_class_name, spec_default_class_type, spec_find_type, spec_has_virtual_destructor, spec_hvd, spec_is_destructor, spec_is_dtor_of, spec_kind_bases};
use vstd::string::StringExecFns;

verus! {

/// Whether `methods` holds a destructor of the class called `name`.
pub open spec fn spec_has_dtor(methods: Seq<CppMethodV>, name: Seq<char>) -> bool {
    exists|i: int|
        0 <= i < methods.len() && spec_is_destructor(methods[i]) && spec_class_name(methods[i])
            == Some(name)
}

/// The destructor synthesized for the class declared by `t`, judged
/// against the database state `dnow` (whose method list may already hold
/// destructors synthesized for earlier classes): named `~` plus the class
/// name, void, without parameters, public, owned by the class's default
/// instantiation, virtual exactly when the virtual-destructor query over
/// `dnow` says so, and synthesized (no origin location).
pub open spec fn spec_synthesized_destructor(dnow: CppDataV, t: CppTypeDataV) -> CppMethodV {
    CppMethodV {
        name: "~"@ + t.name,
        return_type: crate::model::CppTypeV {
            is_const: false,
            indirection: CppTypeIndirection::Value,
            base: crate::model::CppTypeBaseV::Void,
        },
        arguments: Seq::empty(),
        operator: None,
        class_membership: Some(
            crate::model::CppMethodClassMembershipV {
                class_type: spec_default_class_type(t),
                kind: CppMethodKind::Destructor,
                visibility: CppVisibility::Public,
                is_virtual: spec_has_virtual_destructor(dnow, t.name),
                is_pure_virtual: false,
                is_const: false,
                is_static: false,
                is_signal: false,
                is_slot: false,
            },
        ),
        template_arguments: None,
        include_file: t.include_file,
        origin_location: None,
    }
}

/// The database state seen while the pass stands before type `i`: the
/// original database with the destructors synthesized so far appended.
pub open spec fn spec_with_methods(d: CppDataV, methods: Seq<CppMethodV>) -> CppDataV {
    CppDataV {
        types: d.types,
        methods,
        template_instantiations: d.template_instantiations,
    }
}

/// The destructors synthesized for the first `i` type declarations of
/// `d`, in order: one for each class that has no destructor at the moment
/// it is visited.
pub open spec fn spec_synth_dtors(d: CppDataV, i: int) -> Seq<CppMethodV>
    decreases i,
{
    if i <= 0 {
        Seq::empty()
    } else {
        let prev = spec_synth_dtors(d, i - 1);
        let t = d.types[i - 1];
        if t.kind is Class && !spec_has_dtor(d.methods + prev, t.name) {
            prev.push(spec_synthesized_destructor(spec_with_methods(d, d.methods + prev), t))
        } else {
            prev
        }
    }
}

impl CppData {
    /// Whether the database holds a destructor of the class called
    /// `name`.
    #[verifier::loop_isolation(false)]
    pub fn has_destructor_of(&self, name: &String) -> (r: bool)
        ensures
            r == spec_has_dtor(self@.methods, name@),
    {
        let mut i: usize = 0;
        while i < self.methods.len()
            invariant
                0 <= i <= self.methods.len(),
                forall|j: int|
                    0 <= j < i ==> !(spec_is_destructor(self@.methods[j]) && spec_class_name(
                        self@.methods[j],
                    ) == Some(name@)),
            decreases self.methods.len() - i,
        {
            let m = &self.methods[i];
            if m.is_destructor() && m.is_member_of(name) {
                proof {
                    assert(spec_is_destructor(self@.methods[i as int]) && spec_class_name(
                        self@.methods[i as int],
                    ) == Some(name@));
                }
                return true;
            }
            i += 1;
        }
        false
    }

    /// Adds a synthesized destructor for every class that does not have
    /// an explicit one, so that wrappers can expose the destructor C++
    /// provides implicitly. Classes with a destructor are left alone;
    /// nothing else in the database changes.
    #[verifier::loop_isolation(false)]
    pub fn ensure_explicit_destructors(&mut self)
        ensures
            final(self)@.types == old(self)@.types,
            final(self)@.template_instantiations == old(self)@.template_instantiations,
            final(self)@.methods == old(self)@.methods + spec_synth_dtors(
                old(self)@,
                old(self)@.types.len() as int,
            ),
    {
        let ghost d0 = old(self)@;
        let n = self.types.len();
        let mut i: usize = 0;
        while i < n
            invariant
                0 <= i <= n,
                n == self.types@.len(),
                self@.types == d0.types,
                self@.template_instantiations == d0.template_instantiations,
                self@.methods == d0.methods + spec_synth_dtors(d0, i as int),
            decreases n - i,
        {
            let ghost prev = spec_synth_dtors(d0, i as int);
            let is_cls = self.types[i].is_class();
            if is_cls {
                let class_name = self.types[i].name.clone();
                let found = self.has_destructor_of(&class_name);
                if !found {
                    let is_virtual = self.has_virtual_destructor(&class_name);
                    let mut dtor_name = String::from_str("~");
                    dtor_name.append(class_name.as_str());
                    let class_type = self.types[i].default_class_type();
                    let include_file = self.types[i].include_file.clone();
                    let m = CppMethod {
                        name: dtor_name,
                        return_type: CppType {
                            is_const: false,
                            indirection: CppTypeIndirection::Value,
                            base: CppTypeBase::Void,
                        },
                        arguments: Vec::new(),
                        operator: None,
                        class_membership: Some(
                            CppMethodClassMembership {
                                class_type,
                                kind: CppMethodKind::Destructor,
                                visibility: CppVisibility::Public,
                                is_virtual,
                                is_pure_virtual: false,
                                is_const: false,
                                is_static: false,
                                is_signal: false,
                                is_slot: false,
                            },
                        ),
                        template_arguments: None,
                        include_file,
                        origin_location: None,
                    };
                    proof {
                        assert(view_method(m) =~~= spec_synthesized_destructor(
                            spec_with_methods(d0, d0.methods + prev),
                            d0.types[i as int],
                        ));
                    }
                    self.methods.push(m);
                    proof {
                        let ms = spec_synthesized_destructor(
                            spec_with_methods(d0, d0.methods + prev),
                            d0.types[i as int],
                        );
                        assert(spec_synth_dtors(d0, i + 1) == prev.push(ms));
                        assert(self@.methods =~= (d0.methods + prev).push(ms));
                        assert((d0.methods + prev).push(ms) =~= d0.methods + prev.push(ms));
                        assert(self@.methods == d0.methods + spec_synth_dtors(d0, i + 1));
                    }
                } else {
                    proof {
                        assert(spec_synth_dtors(d0, i + 1) == prev);
                    }
                }
            } else {
                proof {
                    assert(spec_synth_dtors(d0, i + 1) == prev);
                }
            }
            i += 1;
        }
    }
}

/// How many elements of `s` satisfy `pred`.
pub open spec fn spec_count_matching<A>(s: Seq<A>, pred: spec_fn(A) -> bool) -> nat
    decreases s.len(),
{
    if s.len() == 0 {
        0
    } else {
        spec_count_matching(s.drop_last(), pred) + (if pred(s.last()) {
            1nat
        } else {
            0nat
        })
    }
}

/// A positive match count is the same as the existence of a match.
pub proof fn lemma_count_matching_exists<A>(s: Seq<A>, pred: spec_fn(A) -> bool)
    ensures
        spec_count_matching(s, pred) > 0 <==> exists|i: int| 0 <= i < s.len() && pred(s[i]),
    decreases s.len(),
{
    if s.len() > 0 {
        lemma_count_matching_exists(s.drop_last(), pred);
        if pred(s.last()) {
            assert(pred(s[s.len() - 1]));
        }
        if exists|i: int| 0 <= i < s.len() && pred(s[i]) {
            let i = choose|i: int| 0 <= i < s.len() && pred(s[i]);
            if i < s.len() - 1 {
                assert(s.drop_last()[i] == s[i]);
            }
        }
    }
}

/// Appending elements splits the count.
pub proof fn lemma_count_matching_add<A>(a: Seq<A>, b: Seq<A>, pred: spec_fn(A) -> bool)
    ensures
        spec_count_matching(a + b, pred) == spec_count_matching(a, pred) + spec_count_matching(
            b,
            pred,
        ),
    decreases b.len(),
{
    if b.len() == 0 {
        assert(a + b =~= a);
    } else {
        lemma_count_matching_add(a, b.drop_last(), pred);
        assert((a + b).drop_last() =~= a + b.drop_last());
        assert((a + b).last() == b.last());
    }
}

/// The destructor predicate for the class called `name`.
pub open spec fn spec_dtor_pred(name: Seq<char>) -> spec_fn(CppMethodV) -> bool {
    |m: CppMethodV| spec_is_destructor(m) && spec_class_name(m) == Some(name)
}

/// After visiting the first `i` types, the destructor count of the class
/// called `n` has grown by one exactly when some class among them is
/// called `n` and the original database had no destructor for `n`.
proof fn lemma_synth_count(d: CppDataV, i: int, n: Seq<char>)
    requires
        0 <= i <= d.types.len(),
    ensures
        spec_count_matching(d.methods + spec_synth_dtors(d, i), spec_dtor_pred(n))
            == spec_count_matching(d.methods, spec_dtor_pred(n)) + (if (exists|j: int|
            0 <= j < i && d.types[j].kind is Class && d.types[j].name == n) && !spec_has_dtor(
            d.methods,
            n,
        ) {
            1nat
        } else {
            0nat
        }),
    decreases i,
{
    let pred = spec_dtor_pred(n);
    let base = spec_count_matching(d.methods, pred);
    if i == 0 {
        assert(d.methods + spec_synth_dtors(d, 0) =~= d.methods);
    } else {
        lemma_synth_count(d, i - 1, n);
        let prev = spec_synth_dtors(d, i - 1);
        let t = d.types[i - 1];
        let cur = d.methods + prev;
        lemma_count_matching_exists(cur, pred);
        assert(spec_has_dtor(cur, n) <==> spec_count_matching(cur, pred) > 0);
        if t.kind is Class && !spec_has_dtor(d.methods + prev, t.name) {
            let m = spec_synthesized_destructor(spec_with_methods(d, cur), t);
            assert(spec_synth_dtors(d, i) == prev.push(m));
            assert(d.methods + prev.push(m) =~= (d.methods + prev).push(m));
            assert((d.methods + prev).push(m).drop_last() =~= d.methods + prev);
            assert(spec_count_matching((d.methods + prev).push(m), pred)
                == spec_count_matching(d.methods + prev, pred) + (if pred(m) {
                1nat
            } else {
                0nat
            }));
            assert(pred(m) <==> t.name == n);
            if t.name == n {
                lemma_count_matching_exists(d.methods, pred);
                assert(!spec_has_dtor(d.methods, n) ==> base == 0);
                assert(spec_has_dtor(d.methods, n) ==> spec_has_dtor(cur, n)) by {
                    if spec_has_dtor(d.methods, n) {
                        let k = choose|k: int|
                            0 <= k < d.methods.len() && spec_is_destructor(d.methods[k])
                                && spec_class_name(d.methods[k]) == Some(n);
                        assert(cur[k] == d.methods[k]);
                    }
                }
                assert(!spec_has_dtor(d.methods, n));
                assert(spec_count_matching(cur, pred) == base);
                assert(exists|j: int|
                    0 <= j < i && d.types[j].kind is Class && d.types[j].name == n) by {
                    assert(d.types[i - 1].kind is Class && d.types[i - 1].name == n);
                }
            }
        } else {
            assert(spec_synth_dtors(d, i) == prev);
            if t.kind is Class && t.name == n && !spec_has_dtor(d.methods, n) {
                // The guard failed although the original database had no
                // destructor for n: an earlier visited class called n must
                // already have produced one, so the count is already base + 1.
                assert(spec_count_matching(cur, pred) > 0);
                assert(exists|j: int|
                    0 <= j < i - 1 && d.types[j].kind is Class && d.types[j].name == n) by {
                    lemma_count_matching_add(d.methods, prev, pred);
                    lemma_count_matching_exists(d.methods, pred);
                    assert(spec_count_matching(d.methods, pred) == 0);
                    assert(spec_count_matching(prev, pred) > 0);
                    assert(spec_count_matching(d.methods + prev, pred) == base + (if (exists|
                        j: int,
                    | 0 <= j < i - 1 && d.types[j].kind is Class && d.types[j].name == n)
                        && !spec_has_dtor(d.methods, n) {
                        1nat
                    } else {
                        0nat
                    }));
                }
            }
        }
    }
}

/// Destructor synthesis is exact: a class that already had a destructor
/// keeps the destructors it had, and for every class name without one,
/// exactly one destructor exists afterwards.
pub proof fn lemma_destructor_synthesis_exact(d: CppDataV)
    ensures
        forall|k: int|
            0 <= k < d.types.len() && d.types[k].kind is Class && !spec_has_dtor(
                d.methods,
                d.types[k].name,
            ) ==> spec_count_matching(
                d.methods + spec_synth_dtors(d, d.types.len() as int),
                spec_dtor_pred(d.types[k].name),
            ) == 1,
        forall|n: Seq<char>|
            spec_has_dtor(d.methods, n) ==> spec_count_matching(
                d.methods + spec_synth_dtors(d, d.types.len() as int),
                spec_dtor_pred(n),
            ) == spec_count_matching(d.methods, spec_dtor_pred(n)),
{
    assert forall|k: int|
        0 <= k < d.types.len() && d.types[k].kind is Class && !spec_has_dtor(
            d.methods,
            d.types[k].name,
        ) implies spec_count_matching(
        d.methods + spec_synth_dtors(d, d.types.len() as int),
        spec_dtor_pred(d.types[k].name),
    ) == 1 by {
        let n = d.types[k].name;
        lemma_synth_count(d, d.types.len() as int, n);
        lemma_count_matching_exists(d.methods, spec_dtor_pred(n));
        assert(spec_count_matching(d.methods, spec_dtor_pred(n)) == 0);
        assert(exists|j: int|
            0 <= j < d.types.len() && d.types[j].kind is Class && d.types[j].name == n);
    }
    assert forall|n: Seq<char>| spec_has_dtor(d.methods, n) implies spec_count_matching(
        d.methods + spec_synth_dtors(d, d.types.len() as int),
        spec_dtor_pred(n),
    ) == spec_count_matching(d.methods, spec_dtor_pred(n)) by {
        lemma_synth_count(d, d.types.len() as int, n);
    }
}

/// For a class with no destructor of its own whose declaration is in the
/// database, the virtual-destructor query is the disjunction, over its
/// direct base classes, of the same query one level deeper — and so, by
/// unfolding, the disjunction over all transitive bases.
pub proof fn lemma_virtuality_is_base_disjunction(d: CppDataV, name: Seq<char>)
    requires
        !spec_has_dtor(d.methods, name),
        spec_find_type(d.types, name) is Some,
    ensures
        spec_has_virtual_destructor(d, name) == (exists|i: int|
            0 <= i < spec_kind_bases(spec_find_type(d.types, name)->0.kind).len()
                && spec_kind_bases(spec_find_type(d.types, name)->0.kind)[i].base_type.base
                is Class && spec_hvd(
                d,
                spec_kind_bases(spec_find_type(d.types, name)->0.kind)[i].base_type.base
                    ->Class_0.name,
                (d.types.len() - 1) as nat,
            )),
{
    lemma_find_first_none(d.methods, spec_is_dtor_of(name));
    crate::database::lemma_find_first_exists(d.types, |t: CppTypeDataV| t.name == name);
    assert(d.types.len() > 0);
}

} // verus!
