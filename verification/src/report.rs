//! Analysis reports: what the analyzer says of one expression under one
//! context, the report built from it, and the merge of reports of several
//! contexts into one.

use crate::context::{lemma_or_lattice, MiniscriptKeyType, ScriptContext, ScriptContexts};
use vstd::prelude::*;

verus! {

/// What the analyzer found of one expression under one context.
#[derive(Clone, Debug, PartialEq, Eq)]
pub struct Analysis {
    /// Length of the encoded script in bytes.
    pub script_size: usize,
    /// Stack items of the largest satisfaction, the script itself counted;
    /// `None` where no satisfaction exists.
    pub max_satisfaction_witness_elements: Option<usize>,
    /// Size of the largest satisfaction, in the unit of the context;
    /// `None` where no satisfaction exists.
    pub max_satisfaction_size: Option<usize>,
    /// The abstract policy the expression lifts to, as text.
    pub policy: Option<String>,
    /// Whether every way of spending needs a signature.
    pub requires_sig: bool,
    /// Whether no third party can change a satisfaction into another one.
    pub non_malleable: bool,
    /// Whether every way of spending stays within the context's limits on
    /// opcodes and on the satisfaction.
    pub within_resource_limits: bool,
    /// Whether some way of spending mixes height and time locks.
    pub has_mixed_timelocks: bool,
    /// Whether a key occurs more than once.
    pub has_repeated_keys: bool,
}

/// The mathematical value of an [`Analysis`].
pub struct AnalysisView {
    pub script_size: usize,
    pub max_satisfaction_witness_elements: Option<usize>,
    pub max_satisfaction_size: Option<usize>,
    pub policy: Option<Seq<char>>,
    pub requires_sig: bool,
    pub non_malleable: bool,
    pub within_resource_limits: bool,
    pub has_mixed_timelocks: bool,
    pub has_repeated_keys: bool,
}

/// Why an expression is not sane. Where several reasons hold, the first in
/// this order is the one reported.
#[derive(Clone, Copy, Debug, PartialEq, Eq, Structural)]
pub enum AnalysisError {
    /// Some way of spending needs no signature.
    SiglessBranch,
    /// A satisfaction can be changed by a third party.
    Malleable,
    /// Some way of spending exceeds the context's limits.
    BranchExceedResourceLimits,
    /// A key occurs more than once.
    RepeatedPubkeys,
    /// Some way of spending mixes height and time locks.
    HeightTimelockCombination,
}

impl AnalysisView {
    /// The resource-limit check under `context`: the analyzer finds every
    /// way of spending within limits, the script is no longer than the
    /// context relays, and in a witness context the largest satisfaction
    /// has no more stack items than the context relays.
    pub open spec fn within_limits(self, context: ScriptContext) -> bool {
        &&& self.within_resource_limits
        &&& context.admits(self.script_size, self.max_satisfaction_witness_elements)
    }

    /// The outcome of the sanity check under `context`: the first failing
    /// condition, if any.
    pub open spec fn sanity(self, context: ScriptContext) -> Result<(), AnalysisError> {
        if !self.requires_sig {
            Err(AnalysisError::SiglessBranch)
        } else if !self.non_malleable {
            Err(AnalysisError::Malleable)
        } else if !self.within_limits(context) {
            Err(AnalysisError::BranchExceedResourceLimits)
        } else if self.has_repeated_keys {
            Err(AnalysisError::RepeatedPubkeys)
        } else if self.has_mixed_timelocks {
            Err(AnalysisError::HeightTimelockCombination)
        } else {
            Ok(())
        }
    }

    /// Sane: signed, non-malleable, within limits, no key twice, no mixed
    /// timelocks.
    pub open spec fn sane(self, context: ScriptContext) -> bool {
        &&& self.requires_sig
        &&& self.non_malleable
        &&& self.within_limits(context)
        &&& !self.has_repeated_keys
        &&& !self.has_mixed_timelocks
    }
}

impl View for Analysis {
    type V = AnalysisView;

    open spec fn view(&self) -> AnalysisView {
        AnalysisView {
            script_size: self.script_size,
            max_satisfaction_witness_elements: self.max_satisfaction_witness_elements,
            max_satisfaction_size: self.max_satisfaction_size,
            policy: self.policy.deep_view(),
            requires_sig: self.requires_sig,
            non_malleable: self.non_malleable,
            within_resource_limits: self.within_resource_limits,
            has_mixed_timelocks: self.has_mixed_timelocks,
            has_repeated_keys: self.has_repeated_keys,
        }
    }
}

impl Analysis {
    /// The resource-limit check under `context`.
    pub fn is_within_limits(&self, context: ScriptContext) -> (r: bool)
        ensures
            r == self@.within_limits(context),
    {
        self.within_resource_limits && context.check_limits(
            self.script_size,
            self.max_satisfaction_witness_elements,
        )
    }

    /// Checks that the guarantees of the analysis hold of this expression
    /// under `context`, and says which one fails first.
    pub fn sanity_check(&self, context: ScriptContext) -> (r: Result<(), AnalysisError>)
        ensures
            r == self@.sanity(context),
            r is Ok <==> self@.sane(context),
    {
        if !self.requires_sig {
            Err(AnalysisError::SiglessBranch)
        } else if !self.non_malleable {
            Err(AnalysisError::Malleable)
        } else if !self.is_within_limits(context) {
            Err(AnalysisError::BranchExceedResourceLimits)
        } else if self.has_repeated_keys {
            Err(AnalysisError::RepeatedPubkeys)
        } else if self.has_mixed_timelocks {
            Err(AnalysisError::HeightTimelockCombination)
        } else {
            Ok(())
        }
    }

    pub fn is_sane(&self, context: ScriptContext) -> (r: bool)
        ensures
            r == self@.sane(context),
    {
        self.sanity_check(context).is_ok()
    }
}

impl AnalysisError {
    /// The sentence that describes the error.
    pub fn message(self) -> (r: &'static str)
        ensures
            r@ == self.spec_message(),
    {
        match self {
            AnalysisError::SiglessBranch => "All spend paths must require a signature",
            AnalysisError::Malleable => "Miniscript is malleable",
            AnalysisError::BranchExceedResourceLimits =>
                "At least one spend path exceeds the resource limits(stack depth/satisfaction size..)",
            AnalysisError::RepeatedPubkeys =>
                "Miniscript contains repeated pubkeys or pubkeyhashes",
            AnalysisError::HeightTimelockCombination =>
                "Contains a combination of heightlock and timelock",
        }
    }

    pub open spec fn spec_message(self) -> Seq<char> {
        match self {
            AnalysisError::SiglessBranch => "All spend paths must require a signature"@,
            AnalysisError::Malleable => "Miniscript is malleable"@,
            AnalysisError::BranchExceedResourceLimits =>
                "At least one spend path exceeds the resource limits(stack depth/satisfaction size..)"@,
            AnalysisError::RepeatedPubkeys =>
                "Miniscript contains repeated pubkeys or pubkeyhashes"@,
            AnalysisError::HeightTimelockCombination =>
                "Contains a combination of heightlock and timelock"@,
        }
    }
}

/// The report on one expression: which contexts accept it, and its cost and
/// safety figures.
#[derive(Clone, Debug, PartialEq, Eq)]
pub struct MiniscriptInfo {
    pub key_type: MiniscriptKeyType,
    /// The contexts under which the expression is valid.
    pub valid_script_contexts: ScriptContexts,
    pub script_size: usize,
    pub max_satisfaction_witness_elements: Option<usize>,
    /// Weight of the largest satisfaction; only under a witness context.
    pub max_satisfaction_size_segwit: Option<usize>,
    /// Bytes of the largest satisfaction; only outside the witness contexts.
    pub max_satisfaction_size_non_segwit: Option<usize>,
    /// The encoded script.
    pub script: Option<Vec<u8>>,
    pub policy: Option<String>,
    pub requires_sig: bool,
    pub non_malleable: ScriptContexts,
    pub within_resource_limits: ScriptContexts,
    pub has_mixed_timelocks: bool,
    pub has_repeated_keys: bool,
    pub sane_miniscript: ScriptContexts,
}

/// The mathematical value of a [`MiniscriptInfo`].
pub struct MiniscriptInfoView {
    pub key_type: MiniscriptKeyType,
    pub valid_script_contexts: ScriptContexts,
    pub script_size: usize,
    pub max_satisfaction_witness_elements: Option<usize>,
    pub max_satisfaction_size_segwit: Option<usize>,
    pub max_satisfaction_size_non_segwit: Option<usize>,
    pub script: Option<Seq<u8>>,
    pub policy: Option<Seq<char>>,
    pub requires_sig: bool,
    pub non_malleable: ScriptContexts,
    pub within_resource_limits: ScriptContexts,
    pub has_mixed_timelocks: bool,
    pub has_repeated_keys: bool,
    pub sane_miniscript: ScriptContexts,
}

impl View for MiniscriptInfo {
    type V = MiniscriptInfoView;

    open spec fn view(&self) -> MiniscriptInfoView {
        MiniscriptInfoView {
            key_type: self.key_type,
            valid_script_contexts: self.valid_script_contexts,
            script_size: self.script_size,
            max_satisfaction_witness_elements: self.max_satisfaction_witness_elements,
            max_satisfaction_size_segwit: self.max_satisfaction_size_segwit,
            max_satisfaction_size_non_segwit: self.max_satisfaction_size_non_segwit,
            script: self.script.deep_view(),
            policy: self.policy.deep_view(),
            requires_sig: self.requires_sig,
            non_malleable: self.non_malleable,
            within_resource_limits: self.within_resource_limits,
            has_mixed_timelocks: self.has_mixed_timelocks,
            has_repeated_keys: self.has_repeated_keys,
            sane_miniscript: self.sane_miniscript,
        }
    }
}

/// The value of an optional report.
pub open spec fn report_view(r: Option<MiniscriptInfo>) -> Option<MiniscriptInfoView> {
    match r {
        Some(info) => Some(info@),
        None => None,
    }
}

impl MiniscriptInfoView {
    /// The report on an expression that `context` accepts with analysis `a`.
    pub open spec fn of(
        context: ScriptContext,
        a: AnalysisView,
        key_type: MiniscriptKeyType,
        script: Option<Seq<u8>>,
    ) -> MiniscriptInfoView {
        MiniscriptInfoView {
            key_type,
            valid_script_contexts: ScriptContexts::spec_single(context, true),
            script_size: a.script_size,
            max_satisfaction_witness_elements: a.max_satisfaction_witness_elements,
            max_satisfaction_size_segwit: if context.witness_based() {
                a.max_satisfaction_size
            } else {
                None
            },
            max_satisfaction_size_non_segwit: if context.witness_based() {
                None
            } else {
                a.max_satisfaction_size
            },
            script,
            policy: a.policy,
            requires_sig: a.requires_sig,
            non_malleable: ScriptContexts::spec_single(context, a.non_malleable),
            within_resource_limits: ScriptContexts::spec_single(context, a.within_limits(context)),
            has_mixed_timelocks: a.has_mixed_timelocks,
            has_repeated_keys: a.has_repeated_keys,
            sane_miniscript: ScriptContexts::spec_single(context, a.sane(context)),
        }
    }

    /// The merge of two reports on one expression. The per-context flags
    /// are united. Every other field is the first report's: fields of
    /// different contexts are not mixed.
    pub open spec fn merge(a: MiniscriptInfoView, b: MiniscriptInfoView) -> MiniscriptInfoView {
        MiniscriptInfoView {
            valid_script_contexts: ScriptContexts::spec_or(
                a.valid_script_contexts,
                b.valid_script_contexts,
            ),
            non_malleable: ScriptContexts::spec_or(a.non_malleable, b.non_malleable),
            within_resource_limits: ScriptContexts::spec_or(
                a.within_resource_limits,
                b.within_resource_limits,
            ),
            sane_miniscript: ScriptContexts::spec_or(a.sane_miniscript, b.sane_miniscript),
            ..a
        }
    }

    /// The merge of two optional reports: an absent one leaves the other
    /// as it is.
    pub open spec fn combine(
        a: Option<MiniscriptInfoView>,
        b: Option<MiniscriptInfoView>,
    ) -> Option<MiniscriptInfoView> {
        match (a, b) {
            (None, None) => None,
            (None, Some(b)) => Some(b),
            (Some(a), None) => Some(a),
            (Some(a), Some(b)) => Some(Self::merge(a, b)),
        }
    }

    /// What holds of every report that was built from analyses: some context
    /// accepts the expression; a context flagged as non-malleable, within
    /// limits or sane is one that accepts it; a sane context is non-malleable
    /// and within limits; a satisfaction size is present only in the unit of
    /// an accepting context; and at most one of the two sizes is present.
    pub open spec fn wf(self) -> bool {
        &&& !self.valid_script_contexts.spec_is_empty()
        &&& self.non_malleable.subset_of(self.valid_script_contexts)
        &&& self.within_resource_limits.subset_of(self.valid_script_contexts)
        &&& self.sane_miniscript.subset_of(self.non_malleable)
        &&& self.sane_miniscript.subset_of(self.within_resource_limits)
        &&& (self.max_satisfaction_size_segwit is Some ==> self.valid_script_contexts.segwitv0
            || self.valid_script_contexts.tapscript)
        &&& (self.max_satisfaction_size_non_segwit is Some ==> self.valid_script_contexts.bare
            || self.valid_script_contexts.p2sh)
        &&& !(self.max_satisfaction_size_segwit is Some && self.max_satisfaction_size_non_segwit
            is Some)
    }
}

impl MiniscriptInfo {
    /// Builds the report on an expression that `context` accepts. The size
    /// of the largest satisfaction goes to the field of the context's unit.
    pub fn from_context(
        context: ScriptContext,
        analysis: Analysis,
        key_type: MiniscriptKeyType,
        script: Option<Vec<u8>>,
    ) -> (r: MiniscriptInfo)
        ensures
            r@ == MiniscriptInfoView::of(context, analysis@, key_type, script.deep_view()),
            r@.wf(),
            r@.max_satisfaction_size_segwit is Some ==> context.witness_based(),
            r@.max_satisfaction_size_non_segwit is Some ==> !context.witness_based(),
    {
        let sane = analysis.is_sane(context);
        let within = analysis.is_within_limits(context);
        let witness = context.is_witness_based();
        let r = MiniscriptInfo {
            key_type,
            valid_script_contexts: ScriptContexts::single(context, true),
            script_size: analysis.script_size,
            max_satisfaction_witness_elements: analysis.max_satisfaction_witness_elements,
            max_satisfaction_size_segwit: if witness {
                analysis.max_satisfaction_size
            } else {
                None
            },
            max_satisfaction_size_non_segwit: if witness {
                None
            } else {
                analysis.max_satisfaction_size
            },
            script,
            policy: analysis.policy,
            requires_sig: analysis.requires_sig,
            non_malleable: ScriptContexts::single(context, analysis.non_malleable),
            within_resource_limits: ScriptContexts::single(context, within),
            has_mixed_timelocks: analysis.has_mixed_timelocks,
            has_repeated_keys: analysis.has_repeated_keys,
            sane_miniscript: ScriptContexts::single(context, sane),
        };
        proof {
            lemma_of_wf(context, analysis@, key_type, script.deep_view());
        }
        r
    }

    /// The report on an expression valid as a bare script.
    pub fn from_bare(analysis: Analysis, key_type: MiniscriptKeyType, script: Option<Vec<u8>>) -> (r:
        MiniscriptInfo)
        ensures
            r@ == MiniscriptInfoView::of(
                ScriptContext::Bare,
                analysis@,
                key_type,
                script.deep_view(),
            ),
            r@.wf(),
    {
        Self::from_context(ScriptContext::Bare, analysis, key_type, script)
    }

    /// The report on an expression valid behind a script hash.
    pub fn from_p2sh(analysis: Analysis, key_type: MiniscriptKeyType, script: Option<Vec<u8>>) -> (r:
        MiniscriptInfo)
        ensures
            r@ == MiniscriptInfoView::of(
                ScriptContext::Legacy,
                analysis@,
                key_type,
                script.deep_view(),
            ),
            r@.wf(),
    {
        Self::from_context(ScriptContext::Legacy, analysis, key_type, script)
    }

    /// The report on an expression valid as a version 0 witness script.
    pub fn from_segwitv0(
        analysis: Analysis,
        key_type: MiniscriptKeyType,
        script: Option<Vec<u8>>,
    ) -> (r: MiniscriptInfo)
        ensures
            r@ == MiniscriptInfoView::of(
                ScriptContext::SegwitV0,
                analysis@,
                key_type,
                script.deep_view(),
            ),
            r@.wf(),
    {
        Self::from_context(ScriptContext::SegwitV0, analysis, key_type, script)
    }

    /// The report on an expression valid as a taproot leaf script.
    pub fn from_tapscript(
        analysis: Analysis,
        key_type: MiniscriptKeyType,
        script: Option<Vec<u8>>,
    ) -> (r: MiniscriptInfo)
        ensures
            r@ == MiniscriptInfoView::of(
                ScriptContext::Tapscript,
                analysis@,
                key_type,
                script.deep_view(),
            ),
            r@.wf(),
    {
        Self::from_context(ScriptContext::Tapscript, analysis, key_type, script)
    }

    /// Merges two reports on one expression, made under different contexts
    /// with keys of one type.
    pub fn combine(a: Option<MiniscriptInfo>, b: Option<MiniscriptInfo>) -> (r: Option<
        MiniscriptInfo,
    >)
        requires
            a is Some && b is Some ==> a->0.key_type == b->0.key_type,
        ensures
            report_view(r) == MiniscriptInfoView::combine(report_view(a), report_view(b)),
            r is None <==> a is None && b is None,
    {
        match (a, b) {
            (None, None) => None,
            (None, Some(b)) => Some(b),
            (Some(a), None) => Some(a),
            (Some(a), Some(b)) => Some(
                MiniscriptInfo {
                    key_type: a.key_type,
                    valid_script_contexts: ScriptContexts::or(
                        a.valid_script_contexts,
                        b.valid_script_contexts,
                    ),
                    script_size: a.script_size,
                    max_satisfaction_witness_elements: a.max_satisfaction_witness_elements,
                    max_satisfaction_size_segwit: a.max_satisfaction_size_segwit,
                    max_satisfaction_size_non_segwit: a.max_satisfaction_size_non_segwit,
                    script: a.script,
                    policy: a.policy,
                    requires_sig: a.requires_sig,
                    non_malleable: ScriptContexts::or(a.non_malleable, b.non_malleable),
                    within_resource_limits: ScriptContexts::or(
                        a.within_resource_limits,
                        b.within_resource_limits,
                    ),
                    has_mixed_timelocks: a.has_mixed_timelocks,
                    has_repeated_keys: a.has_repeated_keys,
                    sane_miniscript: ScriptContexts::or(a.sane_miniscript, b.sane_miniscript),
                },
            ),
        }
    }
}

/// A report built from one analysis is well formed.
pub proof fn lemma_of_wf(
    context: ScriptContext,
    a: AnalysisView,
    key_type: MiniscriptKeyType,
    script: Option<Seq<u8>>,
)
    ensures
        MiniscriptInfoView::of(context, a, key_type, script).wf(),
{
}

/// Merging keeps reports well formed.
pub proof fn lemma_merge_wf(a: MiniscriptInfoView, b: MiniscriptInfoView)
    requires
        a.wf(),
        b.wf(),
    ensures
        MiniscriptInfoView::merge(a, b).wf(),
{
    let m = MiniscriptInfoView::merge(a, b);
    assert forall|c: ScriptContext| m.non_malleable.spec_get(c) implies m.valid_script_contexts.spec_get(c) by {
        assert(a.non_malleable.spec_get(c) ==> a.valid_script_contexts.spec_get(c));
        assert(b.non_malleable.spec_get(c) ==> b.valid_script_contexts.spec_get(c));
    }
    assert forall|c: ScriptContext| m.within_resource_limits.spec_get(c) implies m.valid_script_contexts.spec_get(c) by {
        assert(a.within_resource_limits.spec_get(c) ==> a.valid_script_contexts.spec_get(c));
        assert(b.within_resource_limits.spec_get(c) ==> b.valid_script_contexts.spec_get(c));
    }
    assert forall|c: ScriptContext| m.sane_miniscript.spec_get(c) implies m.non_malleable.spec_get(c) by {
        assert(a.sane_miniscript.spec_get(c) ==> a.non_malleable.spec_get(c));
        assert(b.sane_miniscript.spec_get(c) ==> b.non_malleable.spec_get(c));
    }
    assert forall|c: ScriptContext| m.sane_miniscript.spec_get(c) implies m.within_resource_limits.spec_get(c) by {
        assert(a.sane_miniscript.spec_get(c) ==> a.within_resource_limits.spec_get(c));
        assert(b.sane_miniscript.spec_get(c) ==> b.within_resource_limits.spec_get(c));
    }
}

/// Merging optional reports keeps them well formed.
pub proof fn lemma_combine_wf(a: Option<MiniscriptInfoView>, b: Option<MiniscriptInfoView>)
    requires
        a matches Some(x) ==> x.wf(),
        b matches Some(y) ==> y.wf(),
    ensures
        MiniscriptInfoView::combine(a, b) matches Some(m) ==> m.wf(),
{
    if a is Some && b is Some {
        lemma_merge_wf(a->0, b->0);
    }
}

/// A context is valid in a merged report exactly when it is valid in one of
/// the two, and likewise for the other per-context flags.
pub proof fn lemma_merge_flags(a: MiniscriptInfoView, b: MiniscriptInfoView, c: ScriptContext)
    ensures
        MiniscriptInfoView::merge(a, b).valid_script_contexts.spec_get(c) == (
        a.valid_script_contexts.spec_get(c) || b.valid_script_contexts.spec_get(c)),
        MiniscriptInfoView::merge(a, b).non_malleable.spec_get(c) == (a.non_malleable.spec_get(c)
            || b.non_malleable.spec_get(c)),
        MiniscriptInfoView::merge(a, b).within_resource_limits.spec_get(c) == (
        a.within_resource_limits.spec_get(c) || b.within_resource_limits.spec_get(c)),
        MiniscriptInfoView::merge(a, b).sane_miniscript.spec_get(c) == (a.sane_miniscript.spec_get(
            c,
        ) || b.sane_miniscript.spec_get(c)),
{
}

/// Merging is associative: reports of three contexts merge to the same
/// report however they are grouped.
pub proof fn lemma_combine_associative(
    a: Option<MiniscriptInfoView>,
    b: Option<MiniscriptInfoView>,
    c: Option<MiniscriptInfoView>,
)
    ensures
        MiniscriptInfoView::combine(MiniscriptInfoView::combine(a, b), c)
            == MiniscriptInfoView::combine(a, MiniscriptInfoView::combine(b, c)),
{
    if a is Some && b is Some && c is Some {
        lemma_merge_associative(a->0, b->0, c->0);
    }
}

/// Merging three reports gives the same report however they are grouped.
pub proof fn lemma_merge_associative(
    a: MiniscriptInfoView,
    b: MiniscriptInfoView,
    c: MiniscriptInfoView,
)
    ensures
        MiniscriptInfoView::merge(MiniscriptInfoView::merge(a, b), c) == MiniscriptInfoView::merge(
            a,
            MiniscriptInfoView::merge(b, c),
        ),
{
    lemma_or_lattice(a.valid_script_contexts, b.valid_script_contexts, c.valid_script_contexts);
    lemma_or_lattice(a.non_malleable, b.non_malleable, c.non_malleable);
    lemma_or_lattice(a.within_resource_limits, b.within_resource_limits, c.within_resource_limits);
    lemma_or_lattice(a.sane_miniscript, b.sane_miniscript, c.sane_miniscript);
}

/// An absent report is neutral on either side of a merge.
pub proof fn lemma_combine_identity(a: Option<MiniscriptInfoView>)
    ensures
        MiniscriptInfoView::combine(None, a) == a,
        MiniscriptInfoView::combine(a, None) == a,
{
}

/// Fields are not mixed: apart from the per-context flags, a merged report
/// is the first report, so that it never holds the satisfaction sizes of
/// two contexts.
pub proof fn lemma_merge_first_wins(a: MiniscriptInfoView, b: MiniscriptInfoView)
    ensures
        ({
            let m = MiniscriptInfoView::merge(a, b);
            &&& m.key_type == a.key_type
            &&& m.script_size == a.script_size
            &&& m.script == a.script
            &&& m.policy == a.policy
            &&& m.requires_sig == a.requires_sig
            &&& m.has_mixed_timelocks == a.has_mixed_timelocks
            &&& m.has_repeated_keys == a.has_repeated_keys
            &&& m.max_satisfaction_witness_elements == a.max_satisfaction_witness_elements
            &&& m.max_satisfaction_size_segwit == a.max_satisfaction_size_segwit
            &&& m.max_satisfaction_size_non_segwit == a.max_satisfaction_size_non_segwit
        }),
{
}

} // verus!
