use vstd::prelude::*;
use crate::arena::Arena;
use crate::ast::{AstKind, NodeId};
use crate::config::ConfigValue;
use crate::diagnostics::{Diagnostic, DiagnosticSink, Severity};
use crate::html_link::NoHtmlLinkForPages;
use crate::return_type::{
    spec_return_type_diagnostic_matches, spec_return_type_rule_emits, ExplicitFunctionReturnType,
};
use crate::text::string_is;
use crate::span::Span;

verus! {

/// One registered rule with its bound configuration. The set of rules is a
/// closed registry built from a fixed table of names, not ambient global
/// state.
pub enum ConfiguredRule {
    HtmlLink(NoHtmlLinkForPages),
    ReturnType(ExplicitFunctionReturnType),
}

impl ConfiguredRule {
    /// The rule's registered name.
    pub open spec fn spec_name(self) -> Seq<char> {
        match self {
            ConfiguredRule::HtmlLink(_) => "no-html-link-for-pages"@,
            ConfiguredRule::ReturnType(_) => "explicit-function-return-type"@,
        }
    }

    pub fn name(&self) -> (r: String)
        ensures
            r@ == self.spec_name(),
    {
        match self {
            ConfiguredRule::HtmlLink(_) => "no-html-link-for-pages".to_owned(),
            ConfiguredRule::ReturnType(_) => "explicit-function-return-type".to_owned(),
        }
    }

    /// The category both registered rules are filed under.
    pub fn category(&self) -> (r: String)
        ensures
            r@ == "correctness"@,
    {
        "correctness".to_owned()
    }

    /// The severity a rule's diagnostics carry unless stated otherwise.
    pub fn default_severity(&self) -> (r: Severity)
        ensures
            r == Severity::Warning,
    {
        Severity::Warning
    }

    /// The rule's declared interest set over node kind tags.
    pub open spec fn spec_wants(self, k: AstKind) -> bool {
        match self {
            ConfiguredRule::HtmlLink(_) => k is JSXOpeningElement,
            ConfiguredRule::ReturnType(_) => k is Function || k is ArrowFunctionExpression,
        }
    }

    pub fn wants(&self, k: &AstKind) -> (r: bool)
        ensures
            r == self.spec_wants(*k),
    {
        match self {
            ConfiguredRule::HtmlLink(_) => matches!(k, AstKind::JSXOpeningElement { .. }),
            ConfiguredRule::ReturnType(_) => matches!(
                k,
                AstKind::Function { .. } | AstKind::ArrowFunctionExpression { .. }
            ),
        }
    }

    /// The primary span of the one diagnostic this rule emits at node `i`,
    /// or nothing. A node outside the rule's interest set never emits.
    pub open spec fn spec_rule_emits(self, a: Arena, i: int) -> Option<Span> {
        match self {
            ConfiguredRule::HtmlLink(_) => None,
            ConfiguredRule::ReturnType(r) => spec_return_type_rule_emits(r.0, a, i),
        }
    }

    /// The fixed shape of this rule's diagnostics around a primary span.
    pub open spec fn spec_diag_matches(self, d: Diagnostic, sp: Span) -> bool {
        match self {
            ConfiguredRule::HtmlLink(_) => false,
            ConfiguredRule::ReturnType(_) => spec_return_type_diagnostic_matches(d, sp),
        }
    }

    /// Invokes the rule on one node.
    pub fn run(&self, a: &Arena, id: NodeId, sink: &mut DiagnosticSink)
        requires
            a.wf(),
            id < a.spec_len(),
        ensures
            match self.spec_rule_emits(*a, id as int) {
                None => final(sink).spec_entries() == old(sink).spec_entries(),
                Some(sp) => final(sink).spec_entries() == old(sink).spec_entries().push(
                    final(sink).spec_entries().last(),
                ) && self.spec_diag_matches(final(sink).spec_entries().last(), sp),
            },
    {
        match self {
            ConfiguredRule::HtmlLink(r) => {
                let _ = r.run(a, id, sink);
            },
            ConfiguredRule::ReturnType(r) => {
                r.run(a, id, sink);
            },
        }
    }
}

/// The fixed registration table: binds a rule's options and hands back the
/// configured rule, or nothing for an unknown name.
pub fn rule_from_configuration(name: &str, value: &ConfigValue) -> (r: Option<ConfiguredRule>)
    ensures
        match r {
            Some(cr) => cr.spec_name() == name@,
            None => name@ != "no-html-link-for-pages"@ && name@
                != "explicit-function-return-type"@,
        },
        r matches Some(ConfiguredRule::HtmlLink(rule)) ==> rule.0.pages_dir@.map_values(
            |s: String| s@,
        ) == crate::html_link::spec_pages_dir_config(*value),
        r matches Some(ConfiguredRule::ReturnType(rule)) ==> {
            &&& rule.0.allow_expressions == crate::return_type::spec_opt_bool(
                *value,
                "allowExpressions"@,
                false,
            )
            &&& rule.0.allow_typed_function_expressions == crate::return_type::spec_opt_bool(
                *value,
                "allowTypedFunctionExpressions"@,
                true,
            )
            &&& rule.0.allow_direct_const_assertion_in_arrow_functions
                == crate::return_type::spec_opt_bool(
                *value,
                "allowDirectConstAssertionInArrowFunctions"@,
                true,
            )
            &&& rule.0.allow_concise_arrow_function_expressions_starting_with_void
                == crate::return_type::spec_opt_bool(
                *value,
                "allowConciseArrowFunctionExpressionsStartingWithVoid"@,
                false,
            )
            &&& rule.0.allow_functions_without_type_parameters
                == crate::return_type::spec_opt_bool(
                *value,
                "allowFunctionsWithoutTypeParameters"@,
                false,
            )
            &&& rule.0.allow_higher_order_functions == crate::return_type::spec_opt_bool(
                *value,
                "allowHigherOrderFunctions"@,
                false,
            )
            &&& rule.0.allow_iifes == crate::return_type::spec_opt_bool(
                *value,
                "allowIIFEs"@,
                false,
            )
            &&& rule.0.allowed_names@.map_values(|s: String| s@)
                == crate::return_type::spec_allowed_names(*value)
        },
{
    let owned = name.to_owned();
    if string_is(&owned, "no-html-link-for-pages") {
        Some(ConfiguredRule::HtmlLink(NoHtmlLinkForPages::from_configuration(value)))
    } else if string_is(&owned, "explicit-function-return-type") {
        Some(ConfiguredRule::ReturnType(ExplicitFunctionReturnType::from_configuration(value)))
    } else {
        None
    }
}

/// The (rule index, primary span) pairs that the first `upto_rule` rules
/// emit at node `i`, in registry order.
pub open spec fn spec_node_emissions(
    rules: Seq<ConfiguredRule>,
    a: Arena,
    i: int,
    upto_rule: int,
) -> Seq<(int, Span)>
    decreases upto_rule,
{
    if upto_rule <= 0 {
        Seq::empty()
    } else {
        spec_node_emissions(rules, a, i, upto_rule - 1).add(
            match rules[upto_rule - 1].spec_rule_emits(a, i) {
                Some(sp) => seq![(upto_rule - 1, sp)],
                None => Seq::empty(),
            },
        )
    }
}

/// Everything the pass emits over the first `upto_node` nodes, in document
/// (pre-order) visitation order: nodes in id order, rules in registry
/// order within a node.
pub open spec fn spec_pass_emissions(
    rules: Seq<ConfiguredRule>,
    a: Arena,
    upto_node: int,
) -> Seq<(int, Span)>
    decreases upto_node,
{
    if upto_node <= 0 {
        Seq::empty()
    } else {
        spec_pass_emissions(rules, a, upto_node - 1).add(
            spec_node_emissions(rules, a, upto_node - 1, rules.len() as int),
        )
    }
}

/// Whether the entries of `sink_entries` from position `base` on are
/// exactly the diagnostics described by `emissions`.
pub open spec fn spec_emissions_match(
    rules: Seq<ConfiguredRule>,
    sink_entries: Seq<Diagnostic>,
    base: int,
    emissions: Seq<(int, Span)>,
) -> bool {
    &&& sink_entries.len() == base + emissions.len()
    &&& forall|k: int|
        0 <= k < emissions.len() ==> {
            let (ri, sp) = #[trigger] emissions[k];
            &&& 0 <= ri < rules.len()
            &&& rules[ri].spec_diag_matches(sink_entries[base + k], sp)
        }
}

/// One pass over the arena in document (pre-order) order: every rule whose
/// interest set includes a node's kind tag is invoked on it. Diagnostics
/// are appended strictly in visitation order — everything already in the
/// sink stays in place, and what this pass adds is exactly
/// [`spec_pass_emissions`], in that order, never re-sorted.
pub fn run_pass(a: &Arena, rules: &Vec<ConfiguredRule>, sink: &mut DiagnosticSink)
    requires
        a.wf(),
    ensures
        old(sink).spec_entries().is_prefix_of(final(sink).spec_entries()),
        spec_emissions_match(
            rules@,
            final(sink).spec_entries(),
            old(sink).spec_entries().len() as int,
            spec_pass_emissions(rules@, *a, a.spec_len() as int),
        ),
{
    let ghost base = old(sink).spec_entries().len() as int;
    let n = a.len();
    let mut i: usize = 0;
    while i < n
        invariant
            a.wf(),
            n == a.spec_len(),
            0 <= i <= n,
            base == old(sink).spec_entries().len(),
            old(sink).spec_entries().is_prefix_of(sink.spec_entries()),
            spec_emissions_match(
                rules@,
                sink.spec_entries(),
                base,
                spec_pass_emissions(rules@, *a, i as int),
            ),
        decreases n - i,
    {
        let m = rules.len();
        let mut rj: usize = 0;
        while rj < m
            invariant
                a.wf(),
                n == a.spec_len(),
                0 <= i < n,
                m == rules@.len(),
                0 <= rj <= m,
                base == old(sink).spec_entries().len(),
                old(sink).spec_entries().is_prefix_of(sink.spec_entries()),
                spec_emissions_match(
                    rules@,
                    sink.spec_entries(),
                    base,
                    spec_pass_emissions(rules@, *a, i as int).add(
                        spec_node_emissions(rules@, *a, i as int, rj as int),
                    ),
                ),
            decreases m - rj,
        {
            let ghost pre_entries = sink.spec_entries();
            let ghost pre_emissions = spec_pass_emissions(rules@, *a, i as int).add(
                spec_node_emissions(rules@, *a, i as int, rj as int),
            );
            if rules[rj].wants(a.kind(i)) {
                rules[rj].run(a, i, sink);
            } else {
                proof {
                    assert(rules@[rj as int].spec_rule_emits(*a, i as int) is None);
                }
            }
            proof {
                let next_emissions = spec_pass_emissions(rules@, *a, i as int).add(
                    spec_node_emissions(rules@, *a, i as int, rj as int + 1),
                );
                match rules@[rj as int].spec_rule_emits(*a, i as int) {
                    None => {
                        assert(spec_node_emissions(rules@, *a, i as int, rj as int + 1)
                            =~= spec_node_emissions(rules@, *a, i as int, rj as int));
                        assert(next_emissions =~= pre_emissions);
                    },
                    Some(sp) => {
                        assert(next_emissions =~= pre_emissions.push((rj as int, sp)));
                        assert(sink.spec_entries() == pre_entries.push(
                            sink.spec_entries().last(),
                        ));
                        assert forall|k: int| 0 <= k < next_emissions.len() implies {
                            let (ri, spk) = #[trigger] next_emissions[k];
                            &&& 0 <= ri < rules@.len()
                            &&& rules@[ri].spec_diag_matches(sink.spec_entries()[base + k], spk)
                        } by {
                            if k < pre_emissions.len() {
                                assert(next_emissions[k] == pre_emissions[k]);
                                assert(sink.spec_entries()[base + k] == pre_entries[base + k]);
                            } else {
                                assert(next_emissions[k] == (rj as int, sp));
                                assert(sink.spec_entries()[base + k] == sink.spec_entries().last());
                            }
                        }
                    },
                }
            }
            rj += 1;
        }
        proof {
            assert(spec_pass_emissions(rules@, *a, i as int + 1) =~= spec_pass_emissions(
                rules@,
                *a,
                i as int,
            ).add(spec_node_emissions(rules@, *a, i as int, rules@.len() as int)));
        }
        i += 1;
    }
}

} // verus!
