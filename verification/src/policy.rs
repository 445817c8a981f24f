//! Policy analysis: a policy text is read as a concrete policy or, failing
//! that, as an abstract one; the report says what the policy engine finds
//! and, for a concrete policy, what it compiles to under each context.

use crate::context::{MiniscriptKeyType, ScriptContext};
use crate::engine::{
    abstract_policy, compile_to_text, compiled_text, concrete_branching, concrete_kinds,
    lift_concrete, lifted_policy, read_abstract, read_branching, read_kinds,
};
use miniscript::miniscript::{BareCtx, Legacy, Segwitv0, Tap};
use vstd::prelude::*;

verus! {

/// The kinds of node of a concrete policy.
#[derive(Clone, Copy, Debug, PartialEq, Eq, Structural)]
pub enum NodeKind {
    Unsatisfiable,
    Trivial,
    Key,
    After,
    Older,
    Sha256,
    Hash256,
    Ripemd160,
    Hash160,
    And,
    Or,
    Thresh,
}

/// What the compiler has to know of a concrete policy before it is run:
/// the nodes of the policy in the order of a walk that visits a node and
/// then the subtrees of its children from left to right, and its keys.
#[derive(Clone, Debug, PartialEq, Eq)]
pub struct PolicyShape {
    /// The kind of each node.
    pub kinds: Vec<NodeKind>,
    /// The number of children of each node.
    pub children: Vec<usize>,
    /// The odds of the branches of each node; only an `or` has any.
    pub odds: Vec<Vec<usize>>,
    /// For each key, whether it is uncompressed.
    pub uncompressed: Vec<bool>,
}

/// The mathematical value of a [`PolicyShape`].
pub struct PolicyShapeView {
    pub kinds: Seq<NodeKind>,
    pub children: Seq<usize>,
    pub odds: Seq<Seq<usize>>,
    pub uncompressed: Seq<bool>,
}

impl View for PolicyShape {
    type V = PolicyShapeView;

    open spec fn view(&self) -> PolicyShapeView {
        PolicyShapeView {
            kinds: self.kinds@,
            children: self.children@,
            odds: self.odds.deep_view(),
            uncompressed: self.uncompressed@,
        }
    }
}

/// Whether every odds of a node is zero.
pub open spec fn all_zero(odds: Seq<usize>) -> bool {
    forall|i: int| 0 <= i < odds.len() ==> odds[i] == 0
}

/// The least number of keys whose `multi` is longer than the 520 bytes that
/// a script behind a script hash may have: a key takes 34 bytes of it.
pub const MIN_OVERSIZED_MULTI: usize = 16;

/// The largest number of keys that a `multi` can hold.
pub const MAX_PUBKEYS_PER_MULTISIG: usize = 20;

impl PolicyShapeView {
    /// Whether node `i` is an `or` none of whose branches has odds above
    /// zero: its branches cannot be weighed against each other.
    pub open spec fn unweighable_at(self, i: int) -> bool {
        0 <= i < self.kinds.len() && i < self.odds.len() && self.kinds[i] == NodeKind::Or
            && all_zero(self.odds[i])
    }

    /// Whether the `n` nodes that follow node `i` are keys. Keys have no
    /// children, so these nodes are then the children of a node `i` that has
    /// `n` of them.
    pub open spec fn keys_follow(self, i: int, n: int) -> bool {
        i + n < self.kinds.len() && forall|p: int|
            i < p <= i + n ==> #[trigger] self.kinds[p] == NodeKind::Key
    }

    /// Whether node `i` is a threshold of keys only, of a number that
    /// `multi` can hold but a script behind a script hash cannot.
    pub open spec fn oversized_multi_at(self, i: int) -> bool {
        0 <= i < self.kinds.len() && i < self.children.len() && self.kinds[i] == NodeKind::Thresh
            && MIN_OVERSIZED_MULTI <= self.children[i] <= MAX_PUBKEYS_PER_MULTISIG
            && self.keys_follow(i, self.children[i] as int)
    }

    /// Whether some `or` has no branch with odds above zero.
    pub open spec fn has_zero_odds(self) -> bool {
        exists|i: int| #[trigger] self.unweighable_at(i)
    }

    /// Whether two or more leaves are the unsatisfiable policy. The cost of
    /// one such leaf is the largest number there is; the costs of two, added
    /// up, have no bound.
    pub open spec fn has_unbounded_cost(self) -> bool {
        exists|i: int, j: int|
            0 <= i < j < self.kinds.len() && #[trigger] self.kinds[i] == NodeKind::Unsatisfiable
                && #[trigger] self.kinds[j] == NodeKind::Unsatisfiable
    }

    /// Whether some key is uncompressed.
    pub open spec fn has_uncompressed_key(self) -> bool {
        exists|i: int| 0 <= i < self.uncompressed.len() && #[trigger] self.uncompressed[i]
    }

    /// Whether some threshold of keys is too long for a script hash.
    pub open spec fn has_oversized_multi(self) -> bool {
        exists|i: int| #[trigger] self.oversized_multi_at(i)
    }

    /// Whether the compiler can be run on the policy for `context`: every
    /// `or` has odds to weigh, at most one leaf is unsatisfiable, a witness
    /// context gets no uncompressed key, and a script hash gets no threshold
    /// of keys that is too long for it.
    pub open spec fn compilable(self, context: ScriptContext) -> bool {
        &&& !self.has_zero_odds()
        &&& !self.has_unbounded_cost()
        &&& (context.witness_based() ==> !self.has_uncompressed_key())
        &&& (context == ScriptContext::Legacy ==> !self.has_oversized_multi())
    }
}

impl PolicyShape {
    /// Whether every odds in `odds` is zero.
    fn all_zero(odds: &Vec<usize>) -> (r: bool)
        ensures
            r == all_zero(odds@),
    {
        let mut j: usize = 0;
        while j < odds.len()
            invariant
                j <= odds.len(),
                forall|k: int| 0 <= k < j ==> odds@[k] == 0,
            decreases odds.len() - j,
        {
            if odds[j] != 0 {
                return false;
            }
            j += 1;
        }
        true
    }

    fn is_or(&self, i: usize) -> (r: bool)
        requires
            i < self.kinds.len(),
        ensures
            r == (self@.kinds[i as int] == NodeKind::Or),
    {
        matches!(self.kinds[i], NodeKind::Or)
    }

    pub fn has_zero_odds(&self) -> (r: bool)
        ensures
            r == self@.has_zero_odds(),
    {
        let mut i: usize = 0;
        while i < self.kinds.len() && i < self.odds.len()
            invariant
                forall|k: int| 0 <= k < i ==> !self@.unweighable_at(k),
            decreases self.kinds.len() - i,
        {
            assert(self@.odds[i as int] == self.odds@[i as int]@) by {
                assert(self.odds@[i as int].deep_view() =~= self.odds@[i as int]@);
            }
            if self.is_or(i) && Self::all_zero(&self.odds[i]) {
                assert(self@.unweighable_at(i as int));
                return true;
            }
            i += 1;
        }
        false
    }

    pub fn has_unbounded_cost(&self) -> (r: bool)
        ensures
            r == self@.has_unbounded_cost(),
    {
        let mut seen = false;
        let ghost mut first: int = 0;
        let mut i: usize = 0;
        while i < self.kinds.len()
            invariant
                i <= self.kinds.len(),
                seen ==> 0 <= first < i && self@.kinds[first] == NodeKind::Unsatisfiable,
                !seen ==> forall|k: int| 0 <= k < i ==> self@.kinds[k] != NodeKind::Unsatisfiable,
                forall|a: int, b: int|
                    0 <= a < b < i ==> !(#[trigger] self@.kinds[a] == NodeKind::Unsatisfiable
                        && #[trigger] self@.kinds[b] == NodeKind::Unsatisfiable),
            decreases self.kinds.len() - i,
        {
            if matches!(self.kinds[i], NodeKind::Unsatisfiable) {
                if seen {
                    assert(self@.kinds[first] == NodeKind::Unsatisfiable && self@.kinds[i as int]
                        == NodeKind::Unsatisfiable);
                    return true;
                }
                seen = true;
                proof {
                    first = i as int;
                }
            }
            i += 1;
        }
        false
    }

    pub fn has_uncompressed_key(&self) -> (r: bool)
        ensures
            r == self@.has_uncompressed_key(),
    {
        let mut i: usize = 0;
        while i < self.uncompressed.len()
            invariant
                i <= self.uncompressed.len(),
                forall|k: int| 0 <= k < i ==> !self.uncompressed@[k],
            decreases self.uncompressed.len() - i,
        {
            if self.uncompressed[i] {
                assert(self@.uncompressed[i as int]);
                return true;
            }
            i += 1;
        }
        false
    }

    /// Whether the `n` nodes that follow node `i` are keys.
    fn keys_follow(&self, i: usize, n: usize) -> (r: bool)
        requires
            i < self.kinds.len(),
            n <= MAX_PUBKEYS_PER_MULTISIG,
        ensures
            r == self@.keys_follow(i as int, n as int),
    {
        if n > self.kinds.len() - 1 - i {
            return false;
        }
        let mut p: usize = i + 1;
        while p <= i + n
            invariant
                i < p <= i + n + 1,
                i + n < self.kinds.len(),
                n <= MAX_PUBKEYS_PER_MULTISIG,
                forall|k: int| i < k < p ==> #[trigger] self@.kinds[k] == NodeKind::Key,
            decreases i + n + 1 - p,
        {
            if !matches!(self.kinds[p], NodeKind::Key) {
                assert(self@.kinds[p as int] != NodeKind::Key);
                return false;
            }
            p += 1;
        }
        true
    }

    pub fn has_oversized_multi(&self) -> (r: bool)
        ensures
            r == self@.has_oversized_multi(),
    {
        let mut i: usize = 0;
        while i < self.kinds.len() && i < self.children.len()
            invariant
                forall|k: int| 0 <= k < i ==> !self@.oversized_multi_at(k),
            decreases self.kinds.len() - i,
        {
            let n = self.children[i];
            if matches!(self.kinds[i], NodeKind::Thresh) && MIN_OVERSIZED_MULTI <= n && n
                <= MAX_PUBKEYS_PER_MULTISIG && self.keys_follow(i, n) {
                assert(self@.oversized_multi_at(i as int));
                return true;
            }
            i += 1;
        }
        false
    }

    /// Decides whether the compiler can be run for `context`.
    pub fn compilable(&self, context: ScriptContext) -> (r: bool)
        ensures
            r == self@.compilable(context),
    {
        if self.has_zero_odds() || self.has_unbounded_cost() {
            return false;
        }
        match context {
            ScriptContext::Bare => true,
            ScriptContext::Legacy => !self.has_oversized_multi(),
            ScriptContext::SegwitV0 | ScriptContext::Tapscript => !self.has_uncompressed_key(),
        }
    }
}

/// The shape of the concrete policy written as `text`, or the reason why
/// `text` is no concrete policy.
pub open spec fn concrete_shape(text: Seq<char>, keys: MiniscriptKeyType) -> Result<
    PolicyShapeView,
    Seq<char>,
> {
    match concrete_kinds(text, keys) {
        Err(e) => Err(e),
        Ok(kinds) => match concrete_branching(text, keys) {
            Err(e) => Err(e),
            Ok(b) => Ok(
                PolicyShapeView { kinds, children: b.0, odds: b.1, uncompressed: b.2 },
            ),
        },
    }
}

/// The value of the outcome of reading a policy's shape.
pub open spec fn shape_outcome_view(r: Result<PolicyShape, String>) -> Result<
    PolicyShapeView,
    Seq<char>,
> {
    match r {
        Ok(a) => Ok(a@),
        Err(e) => Err(e@),
    }
}

/// Reads the shape of a concrete policy.
pub fn read_shape(text: &str, keys: MiniscriptKeyType) -> (r: Result<PolicyShape, String>)
    ensures
        shape_outcome_view(r) == concrete_shape(text@, keys),
{
    let kinds = match keys {
        MiniscriptKeyType::PublicKey => read_kinds::<bitcoin::PublicKey>(text),
        MiniscriptKeyType::String => read_kinds::<String>(text),
    };
    let kinds = match kinds {
        Ok(kinds) => kinds,
        Err(e) => {
            return Err(e);
        },
    };
    let branching = match keys {
        MiniscriptKeyType::PublicKey => read_branching::<bitcoin::PublicKey>(text),
        MiniscriptKeyType::String => read_branching::<String>(text),
    };
    match branching {
        Ok(b) => Ok(PolicyShape { kinds, children: b.0, odds: b.1, uncompressed: b.2 }),
        Err(e) => Err(e),
    }
}

/// What the policy engine finds of an abstract policy.
#[derive(Clone, Debug, PartialEq, Eq)]
pub struct PolicyAnalysis {
    /// Whether the policy is the trivial one, which anything satisfies.
    pub is_trivial: bool,
    /// Whether the policy is the one nothing satisfies.
    pub is_unsatisfiable: bool,
    /// The relative timelocks that occur, ascending, each once.
    pub relative_timelocks: Vec<u32>,
    /// The number of key leaves.
    pub n_keys: usize,
    /// The least number of keys that must sign; `None` if nothing
    /// satisfies the policy.
    pub minimum_n_keys: Option<usize>,
    /// The policy with the children of every node in canonical order.
    pub sorted: String,
    /// The policy with nested nodes of one kind flattened and trivial and
    /// unsatisfiable children removed.
    pub normalized: String,
}

/// The mathematical value of a [`PolicyAnalysis`].
pub struct PolicyAnalysisView {
    pub is_trivial: bool,
    pub is_unsatisfiable: bool,
    pub relative_timelocks: Seq<u32>,
    pub n_keys: usize,
    pub minimum_n_keys: Option<usize>,
    pub sorted: Seq<char>,
    pub normalized: Seq<char>,
}

impl View for PolicyAnalysis {
    type V = PolicyAnalysisView;

    open spec fn view(&self) -> PolicyAnalysisView {
        PolicyAnalysisView {
            is_trivial: self.is_trivial,
            is_unsatisfiable: self.is_unsatisfiable,
            relative_timelocks: self.relative_timelocks@,
            n_keys: self.n_keys,
            minimum_n_keys: self.minimum_n_keys,
            sorted: self.sorted@,
            normalized: self.normalized@,
        }
    }
}

/// The best expression for a policy under each context, as text.
#[derive(Clone, Debug, PartialEq, Eq)]
pub struct Miniscripts {
    pub bare: Option<String>,
    pub p2sh: Option<String>,
    pub segwitv0: Option<String>,
    pub tapscript: Option<String>,
}

/// The mathematical value of [`Miniscripts`].
pub struct MiniscriptsView {
    pub bare: Option<Seq<char>>,
    pub p2sh: Option<Seq<char>>,
    pub segwitv0: Option<Seq<char>>,
    pub tapscript: Option<Seq<char>>,
}

impl View for Miniscripts {
    type V = MiniscriptsView;

    open spec fn view(&self) -> MiniscriptsView {
        MiniscriptsView {
            bare: self.bare.deep_view(),
            p2sh: self.p2sh.deep_view(),
            segwitv0: self.segwitv0.deep_view(),
            tapscript: self.tapscript.deep_view(),
        }
    }
}

impl MiniscriptsView {
    pub open spec fn get(self, context: ScriptContext) -> Option<Seq<char>> {
        match context {
            ScriptContext::Bare => self.bare,
            ScriptContext::Legacy => self.p2sh,
            ScriptContext::SegwitV0 => self.segwitv0,
            ScriptContext::Tapscript => self.tapscript,
        }
    }
}

/// The report on a policy.
#[derive(Clone, Debug, PartialEq, Eq)]
pub struct PolicyInfo {
    /// Whether the text is a concrete policy, which can be compiled.
    pub is_concrete: bool,
    pub key_type: MiniscriptKeyType,
    pub is_trivial: bool,
    /// Whether nothing satisfies the policy: the engine finds it to be the
    /// unsatisfiable policy, or finds no set of keys that satisfies it.
    pub is_unsatisfiable: bool,
    pub relative_timelocks: Vec<u32>,
    pub n_keys: usize,
    /// The least number of keys that must sign; absent where nothing
    /// satisfies the policy.
    pub minimum_n_keys: Option<usize>,
    pub sorted: String,
    pub normalized: String,
    /// What a concrete policy compiles to.
    pub miniscript: Option<Miniscripts>,
}

/// The mathematical value of a [`PolicyInfo`].
pub struct PolicyInfoView {
    pub is_concrete: bool,
    pub key_type: MiniscriptKeyType,
    pub is_trivial: bool,
    pub is_unsatisfiable: bool,
    pub relative_timelocks: Seq<u32>,
    pub n_keys: usize,
    pub minimum_n_keys: Option<usize>,
    pub sorted: Seq<char>,
    pub normalized: Seq<char>,
    pub miniscript: Option<MiniscriptsView>,
}

impl View for PolicyInfo {
    type V = PolicyInfoView;

    open spec fn view(&self) -> PolicyInfoView {
        PolicyInfoView {
            is_concrete: self.is_concrete,
            key_type: self.key_type,
            is_trivial: self.is_trivial,
            is_unsatisfiable: self.is_unsatisfiable,
            relative_timelocks: self.relative_timelocks@,
            n_keys: self.n_keys,
            minimum_n_keys: self.minimum_n_keys,
            sorted: self.sorted@,
            normalized: self.normalized@,
            miniscript: match self.miniscript {
                Some(m) => Some(m@),
                None => None,
            },
        }
    }
}

/// Why a text gives no policy report.
#[derive(Clone, Debug, PartialEq, Eq)]
pub enum PolicyError {
    /// The text is neither a concrete nor an abstract policy; the reason is
    /// that of reading it as an abstract one.
    Invalid(String),
    /// The text is a concrete policy that cannot be lifted.
    Lift(String),
}

/// The mathematical value of a [`PolicyError`].
pub enum PolicyErrorView {
    Invalid(Seq<char>),
    Lift(Seq<char>),
}

impl View for PolicyError {
    type V = PolicyErrorView;

    open spec fn view(&self) -> PolicyErrorView {
        match self {
            PolicyError::Invalid(e) => PolicyErrorView::Invalid(e@),
            PolicyError::Lift(e) => PolicyErrorView::Lift(e@),
        }
    }
}

impl PolicyErrorView {
    pub open spec fn message(self) -> Seq<char> {
        match self {
            PolicyErrorView::Invalid(e) => e,
            PolicyErrorView::Lift(e) => e,
        }
    }
}

impl PolicyError {
    /// The sentence that describes the error.
    pub fn message(&self) -> (r: String)
        ensures
            r@ == self@.message(),
    {
        match self {
            PolicyError::Invalid(e) => e.clone(),
            PolicyError::Lift(e) => e.clone(),
        }
    }
}

/// The value of the result of a policy analysis.
pub open spec fn policy_result_view(r: Result<PolicyInfo, PolicyError>) -> Result<
    PolicyInfoView,
    PolicyErrorView,
> {
    match r {
        Ok(info) => Ok(info@),
        Err(e) => Err(e@),
    }
}

/// The report made of what the engine found: of the lifted policy if the
/// text is a concrete one, of the abstract reading otherwise. A policy that
/// nothing satisfies is reported as such, not refused: it is flagged
/// unsatisfiable and has no least number of keys.
pub open spec fn policy_report(
    concrete: bool,
    outcome: Result<PolicyAnalysisView, Seq<char>>,
    key_type: MiniscriptKeyType,
    compiled: Option<MiniscriptsView>,
) -> Result<PolicyInfoView, PolicyErrorView> {
    match outcome {
        Err(e) => if concrete {
            Err(PolicyErrorView::Lift(e))
        } else {
            Err(PolicyErrorView::Invalid(e))
        },
        Ok(a) => Ok(
            PolicyInfoView {
                is_concrete: concrete,
                key_type,
                is_trivial: a.is_trivial,
                is_unsatisfiable: a.is_unsatisfiable || a.minimum_n_keys is None,
                relative_timelocks: a.relative_timelocks,
                n_keys: a.n_keys,
                minimum_n_keys: a.minimum_n_keys,
                sorted: a.sorted,
                normalized: a.normalized,
                miniscript: if concrete {
                    compiled
                } else {
                    None
                },
            },
        ),
    }
}

/// Builds the policy report from what the engine found.
pub fn policy_info_from(
    concrete: bool,
    outcome: Result<PolicyAnalysis, String>,
    key_type: MiniscriptKeyType,
    compiled: Option<Miniscripts>,
) -> (r: Result<PolicyInfo, PolicyError>)
    ensures
        policy_result_view(r) == policy_report(
            concrete,
            crate::engine::policy_outcome_view(outcome),
            key_type,
            match compiled {
                Some(m) => Some(m@),
                None => None,
            },
        ),
        r is Ok <==> outcome is Ok,
{
    match outcome {
        Err(e) => if concrete {
            Err(PolicyError::Lift(e))
        } else {
            Err(PolicyError::Invalid(e))
        },
        Ok(a) => Ok(
            PolicyInfo {
                is_concrete: concrete,
                key_type,
                is_trivial: a.is_trivial,
                is_unsatisfiable: a.is_unsatisfiable || a.minimum_n_keys.is_none(),
                relative_timelocks: a.relative_timelocks,
                n_keys: a.n_keys,
                minimum_n_keys: a.minimum_n_keys,
                sorted: a.sorted,
                normalized: a.normalized,
                miniscript: if concrete {
                    compiled
                } else {
                    None
                },
            },
        ),
    }
}

/// What the engine finds is what is reported: a report is refused only
/// where the text is no policy or cannot be lifted; and a policy without a
/// least number of keys is always flagged unsatisfiable.
pub proof fn lemma_unsatisfiable_is_reported(
    concrete: bool,
    outcome: Result<PolicyAnalysisView, Seq<char>>,
    key_type: MiniscriptKeyType,
    compiled: Option<MiniscriptsView>,
)
    ensures
        policy_report(concrete, outcome, key_type, compiled) is Ok <==> outcome is Ok,
        policy_report(concrete, outcome, key_type, compiled) matches Ok(r) ==> (
        r.minimum_n_keys is None ==> r.is_unsatisfiable) && (outcome->Ok_0.is_unsatisfiable
            ==> r.is_unsatisfiable),
{
}

/// The text a concrete policy compiles to under `context`, if the compiler
/// can be run on it and finds an expression.
pub open spec fn best_text(
    text: Seq<char>,
    shape: PolicyShapeView,
    context: ScriptContext,
    keys: MiniscriptKeyType,
) -> Option<Seq<char>> {
    if shape.compilable(context) {
        match compiled_text(text, context, keys) {
            Ok(ms) => Some(ms),
            Err(_) => None,
        }
    } else {
        None
    }
}

/// What a concrete policy compiles to under each context.
pub open spec fn best_texts(text: Seq<char>, shape: PolicyShapeView, keys: MiniscriptKeyType) -> MiniscriptsView {
    MiniscriptsView {
        bare: best_text(text, shape, ScriptContext::Bare, keys),
        p2sh: best_text(text, shape, ScriptContext::Legacy, keys),
        segwitv0: best_text(text, shape, ScriptContext::SegwitV0, keys),
        tapscript: best_text(text, shape, ScriptContext::Tapscript, keys),
    }
}

/// The report on `text` read with keys written as `keys`.
pub open spec fn policy_info_as(text: Seq<char>, keys: MiniscriptKeyType) -> Result<
    PolicyInfoView,
    PolicyErrorView,
> {
    match concrete_shape(text, keys) {
        Ok(shape) => policy_report(
            true,
            lifted_policy(text, keys),
            keys,
            Some(best_texts(text, shape, keys)),
        ),
        Err(_) => policy_report(false, abstract_policy(text, keys), keys, None),
    }
}

/// The report on `text`: read with public keys, and with placeholder names
/// if that gives no report.
pub open spec fn policy_info(text: Seq<char>) -> Result<PolicyInfoView, PolicyErrorView> {
    match policy_info_as(text, MiniscriptKeyType::PublicKey) {
        Ok(info) => Ok(info),
        Err(_) => policy_info_as(text, MiniscriptKeyType::String),
    }
}

fn keep(r: Result<String, String>) -> (o: Option<String>)
    ensures
        o.deep_view() == (match r {
            Ok(s) => Some(s@),
            Err(_) => None,
        }),
{
    match r {
        Ok(s) => Some(s),
        Err(_) => None,
    }
}

/// Compiles a concrete policy of known shape under each context it can be
/// compiled for.
fn compile_all(text: &str, shape: &PolicyShape, keys: MiniscriptKeyType) -> (r: Miniscripts)
    requires
        concrete_shape(text@, keys) == Ok::<PolicyShapeView, Seq<char>>(shape@),
    ensures
        r@ == best_texts(text@, shape@, keys),
{
    let bare = shape.compilable(ScriptContext::Bare);
    let p2sh = shape.compilable(ScriptContext::Legacy);
    let witness = shape.compilable(ScriptContext::SegwitV0);
    assert(witness == shape@.compilable(ScriptContext::Tapscript));
    match keys {
        MiniscriptKeyType::PublicKey => Miniscripts {
            bare: if bare {
                keep(compile_to_text::<bitcoin::PublicKey, BareCtx>(text))
            } else {
                None
            },
            p2sh: if p2sh {
                keep(compile_to_text::<bitcoin::PublicKey, Legacy>(text))
            } else {
                None
            },
            segwitv0: if witness {
                keep(compile_to_text::<bitcoin::PublicKey, Segwitv0>(text))
            } else {
                None
            },
            tapscript: if witness {
                keep(compile_to_text::<bitcoin::PublicKey, Tap>(text))
            } else {
                None
            },
        },
        MiniscriptKeyType::String => Miniscripts {
            bare: if bare {
                keep(compile_to_text::<String, BareCtx>(text))
            } else {
                None
            },
            p2sh: if p2sh {
                keep(compile_to_text::<String, Legacy>(text))
            } else {
                None
            },
            segwitv0: if witness {
                keep(compile_to_text::<String, Segwitv0>(text))
            } else {
                None
            },
            tapscript: if witness {
                keep(compile_to_text::<String, Tap>(text))
            } else {
                None
            },
        },
    }
}

/// Analyses a policy text whose keys are written as `key_type`. The text is
/// read as a concrete policy and lifted; a text that is no concrete policy
/// is read as an abstract one. A concrete policy is also compiled under
/// every context.
pub fn get_policy_info(text: &str, key_type: MiniscriptKeyType) -> (r: Result<
    PolicyInfo,
    PolicyError,
>)
    ensures
        policy_result_view(r) == policy_info_as(text@, key_type),
        r matches Ok(info) ==> info.key_type == key_type,
{
    match read_shape(text, key_type) {
        Ok(shape) => {
            let lifted = match key_type {
                MiniscriptKeyType::PublicKey => lift_concrete::<bitcoin::PublicKey>(text),
                MiniscriptKeyType::String => lift_concrete::<String>(text),
            };
            let compiled = compile_all(text, &shape, key_type);
            policy_info_from(true, lifted, key_type, Some(compiled))
        },
        Err(_) => {
            let read = match key_type {
                MiniscriptKeyType::PublicKey => read_abstract::<bitcoin::PublicKey>(text),
                MiniscriptKeyType::String => read_abstract::<String>(text),
            };
            policy_info_from(false, read, key_type, None)
        },
    }
}

/// Analyses a policy text: triviality, satisfiability, key counts and
/// canonical forms, and for a concrete policy the best expression per
/// context. Keys are taken as public keys first, then as placeholder names.
pub fn analyze_policy(text: &str) -> (r: Result<PolicyInfo, PolicyError>)
    ensures
        policy_result_view(r) == policy_info(text@),
{
    match get_policy_info(text, MiniscriptKeyType::PublicKey) {
        Ok(info) => Ok(info),
        Err(_) => get_policy_info(text, MiniscriptKeyType::String),
    }
}

} // verus!
