//! Default-argument expansion: a method whose trailing parameters carry
//! default values gains one reduced-arity overload per trailing default.

use vstd::prelude::*;
use crate::model::{view_method, view_method_seq, CppData, CppFunctionArgumentV, CppMethod, CppMethodV};
use crate::database::copy_method;

verus! {

/// `m` with its last parameter removed.
pub open spec fn spec_drop_last_arg(m: CppMethodV) -> CppMethodV {
    CppMethodV { arguments: m.arguments.drop_last(), ..m }
}

/// The reduced-arity overloads generated for `m`: repeatedly remove the
/// trailing parameter while it has a default value, emitting each
/// intermediate method, and stop at the first trailing parameter without
/// one (or at zero parameters).
pub open spec fn spec_omitted_variants(m: CppMethodV) -> Seq<CppMethodV>
    decreases m.arguments.len(),
{
    if m.arguments.len() > 0 && m.arguments.last().has_default_value {
        let shorter = spec_drop_last_arg(m);
        seq![shorter] + spec_omitted_variants(shorter)
    } else {
        Seq::empty()
    }
}

/// All overloads generated for the first `i` methods, in method order.
pub open spec fn spec_omitted_all(methods: Seq<CppMethodV>, i: int) -> Seq<CppMethodV>
    decreases i,
{
    if i <= 0 {
        Seq::empty()
    } else {
        spec_omitted_all(methods, i - 1) + spec_omitted_variants(methods[i - 1])
    }
}

/// How many parameters at the end of `args` carry default values.
pub open spec fn spec_trailing_default_count(args: Seq<CppFunctionArgumentV>) -> nat
    decreases args.len(),
{
    if args.len() > 0 && args.last().has_default_value {
        1 + spec_trailing_default_count(args.drop_last())
    } else {
        0
    }
}

/// No more parameters carry trailing defaults than there are parameters.
pub proof fn lemma_trailing_default_le(args: Seq<CppFunctionArgumentV>)
    ensures
        spec_trailing_default_count(args) <= args.len(),
    decreases args.len(),
{
    if args.len() > 0 && args.last().has_default_value {
        lemma_trailing_default_le(args.drop_last());
    }
}

/// Expansion is exact: a method with `k` trailing default-valued
/// parameters yields exactly `k` overloads, the `j`-th keeping everything
/// but holding only the first `n - j - 1` parameters, where `n` is the
/// original arity.
pub proof fn lemma_omitted_variants_exact(m: CppMethodV)
    ensures
        spec_omitted_variants(m).len() == spec_trailing_default_count(m.arguments),
        forall|j: int|
            0 <= j < spec_omitted_variants(m).len() ==> spec_omitted_variants(m)[j]
                == (CppMethodV { arguments: m.arguments.take(m.arguments.len() - j - 1), ..m }),
    decreases m.arguments.len(),
{
    if m.arguments.len() > 0 && m.arguments.last().has_default_value {
        let shorter = spec_drop_last_arg(m);
        assert(shorter.arguments =~= m.arguments.take(m.arguments.len() - 1));
        lemma_omitted_variants_exact(shorter);
        lemma_trailing_default_le(shorter.arguments);
        assert forall|j: int| 0 <= j < spec_omitted_variants(m).len() implies spec_omitted_variants(
            m,
        )[j] == (CppMethodV {
            arguments: m.arguments.take(m.arguments.len() - j - 1),
            ..m
        }) by {
            assert(spec_omitted_variants(m) == seq![shorter] + spec_omitted_variants(shorter));
            if j == 0 {
                assert((seq![shorter] + spec_omitted_variants(shorter))[0] == shorter);
            } else {
                assert((seq![shorter] + spec_omitted_variants(shorter))[j]
                    == spec_omitted_variants(shorter)[j - 1]);
                assert(shorter.arguments.take(shorter.arguments.len() - (j - 1) - 1)
                    =~= m.arguments.take(m.arguments.len() - j - 1));
            }
        }
    }
}

impl CppData {
    /// Generates the reduced-arity overloads for every method with
    /// trailing default-valued parameters and appends them to the method
    /// list; existing methods and everything else are unchanged.
    #[verifier::loop_isolation(false)]
    pub fn generate_methods_with_omitted_args(&mut self)
        ensures
            final(self)@.types == old(self)@.types,
            final(self)@.template_instantiations == old(self)@.template_instantiations,
            final(self)@.methods == old(self)@.methods + spec_omitted_all(
                old(self)@.methods,
                old(self)@.methods.len() as int,
            ),
    {
        let ghost d0 = old(self)@;
        let n = self.methods.len();
        let mut new_methods: Vec<CppMethod> = Vec::new();
        let mut i: usize = 0;
        while i < n
            invariant
                0 <= i <= n,
                n == self.methods@.len(),
                *self == *old(self),
                view_method_seq(new_methods@) == spec_omitted_all(d0.methods, i as int),
            decreases n - i,
        {
            let m = &self.methods[i];
            let ghost m0 = d0.methods[i as int];
            if m.arguments.len() > 0 && m.arguments[m.arguments.len() - 1].has_default_value {
                let mut method_copy = copy_method(m);
                while method_copy.arguments.len() > 0 && method_copy.arguments[method_copy.arguments.len()
                    - 1].has_default_value
                    invariant
                        view_method_seq(new_methods@) + spec_omitted_variants(view_method(method_copy))
                            == spec_omitted_all(d0.methods, i as int) + spec_omitted_variants(m0),
                    decreases method_copy.arguments@.len(),
                {
                    let ghost before = view_method(method_copy);
                    method_copy.arguments.pop();
                    proof {
                        assert(crate::model::view_argument_seq(method_copy.arguments@)
                            =~= before.arguments.drop_last());
                        assert(view_method(method_copy) =~= spec_drop_last_arg(before));
                    }
                    new_methods.push(copy_method(&method_copy));
                    proof {
                        assert(view_method_seq(new_methods@) =~= view_method_seq(
                            new_methods@.drop_last(),
                        ).push(view_method(method_copy)));
                        assert(spec_omitted_variants(before) == seq![spec_drop_last_arg(before)]
                            + spec_omitted_variants(spec_drop_last_arg(before)));
                        assert(view_method_seq(new_methods@) + spec_omitted_variants(
                            view_method(method_copy),
                        ) =~= (view_method_seq(new_methods@.drop_last()) + spec_omitted_variants(
                            before,
                        )));
                    }
                }
                proof {
                    assert(spec_omitted_variants(view_method(method_copy)) =~= Seq::<
                        CppMethodV,
                    >::empty());
                    assert(view_method_seq(new_methods@) =~= spec_omitted_all(
                        d0.methods,
                        i as int,
                    ) + spec_omitted_variants(m0));
                    assert(spec_omitted_all(d0.methods, i + 1) == spec_omitted_all(
                        d0.methods,
                        i as int,
                    ) + spec_omitted_variants(m0));
                }
            } else {
                proof {
                    assert(spec_omitted_variants(m0) =~= Seq::<CppMethodV>::empty());
                    assert(spec_omitted_all(d0.methods, i + 1) =~= spec_omitted_all(
                        d0.methods,
                        i as int,
                    ));
                }
            }
            i += 1;
        }
        self.methods.append(&mut new_methods);
        proof {
            assert(self@.methods =~= d0.methods + spec_omitted_all(
                d0.methods,
                d0.methods.len() as int,
            ));
        }
    }
}

} // verus!
