//! The trusted boundary to the `miniscript` crate. Parsing, typing, cost
//! analysis, lifting and compilation are that crate's work; each function
//! here makes the calls and hands back plain values. Nothing in this file is
//! proved: every contract states what the crate's source shows, or gives the
//! result a name.

use crate::context::{MiniscriptKeyType, ScriptContext};
use crate::descriptor::{DescriptorAnalysis, DescriptorAnalysisView, DescriptorKind};
use crate::policy::{concrete_shape, NodeKind, PolicyAnalysis, PolicyAnalysisView};
use crate::report::{Analysis, AnalysisView};
use bitcoin::Script;
use miniscript::iter::TreeLike;
use miniscript::miniscript::{BareCtx, Legacy, Segwitv0, Tap};
use miniscript::policy::compiler::best_compilation;
use miniscript::policy::{Concrete, Liftable, Semantic};
use miniscript::descriptor::DescriptorType;
use miniscript::{Descriptor, FromStrKey, Miniscript, MiniscriptKey};
use std::str::FromStr;
use vstd::prelude::*;

verus! {

#[verifier::external_type_specification]
#[verifier::external_body]
pub struct ExBareCtx(BareCtx);

#[verifier::external_type_specification]
#[verifier::external_body]
pub struct ExLegacy(Legacy);

#[verifier::external_type_specification]
#[verifier::external_body]
pub struct ExSegwitv0(Segwitv0);

#[verifier::external_type_specification]
#[verifier::external_body]
pub struct ExTap(Tap);

#[verifier::external_type_specification]
#[verifier::external_body]
pub struct ExPublicKey(bitcoin::PublicKey);

/// Ties a context marker of the `miniscript` crate to the context it stands
/// for.
pub trait ContextTag {
    spec fn context() -> ScriptContext;
}

impl ContextTag for BareCtx {
    open spec fn context() -> ScriptContext {
        ScriptContext::Bare
    }
}

impl ContextTag for Legacy {
    open spec fn context() -> ScriptContext {
        ScriptContext::Legacy
    }
}

impl ContextTag for Segwitv0 {
    open spec fn context() -> ScriptContext {
        ScriptContext::SegwitV0
    }
}

impl ContextTag for Tap {
    open spec fn context() -> ScriptContext {
        ScriptContext::Tapscript
    }
}

/// Ties a key type to the way of writing keys it stands for.
pub trait KeyTag {
    spec fn key_type() -> MiniscriptKeyType;
}

impl KeyTag for bitcoin::PublicKey {
    open spec fn key_type() -> MiniscriptKeyType {
        MiniscriptKeyType::PublicKey
    }
}

impl KeyTag for String {
    open spec fn key_type() -> MiniscriptKeyType {
        MiniscriptKeyType::String
    }
}

/// The value of an analysis outcome.
pub open spec fn outcome_view(r: Result<Analysis, String>) -> Result<AnalysisView, Seq<char>> {
    match r {
        Ok(a) => Ok(a@),
        Err(e) => Err(e@),
    }
}

/// What reading `text` as an expression under `context`, with keys written
/// as `keys`, gives: the analysis of the expression, or the reason why the
/// text is refused.
pub uninterp spec fn text_analysis(
    text: Seq<char>,
    context: ScriptContext,
    keys: MiniscriptKeyType,
) -> Result<AnalysisView, Seq<char>>;

/// The script that the expression written as `text`, with public keys,
/// encodes to under `context`.
pub uninterp spec fn text_script(text: Seq<char>, context: ScriptContext) -> Option<Seq<u8>>;

/// What decoding `script` as an expression under `context` gives: the
/// analysis of the expression, or the reason why the script is refused.
pub uninterp spec fn script_analysis(script: Seq<u8>, context: ScriptContext) -> Result<
    AnalysisView,
    Seq<char>,
>;

/// `Miniscript::from_str_insane`, then the analysis methods of `Miniscript`
/// (`script_size`, `max_satisfaction_witness_elements`,
/// `max_satisfaction_size`, `lift`, `requires_sig`, `is_non_malleable`,
/// `within_resource_limits`, `has_mixed_timelocks`, `has_repeated_keys`).
/// The text is read without the sanity checks. The contract only names the
/// outcome: a function of the text, the context and the key type.
#[verifier::external_body]
pub(crate) fn analyze_text<Pk: FromStrKey + KeyTag, Ctx: miniscript::ScriptContext + ContextTag>(
    text: &str,
) -> (r: Result<Analysis, String>)
    ensures
        outcome_view(r) == text_analysis(text@, Ctx::context(), Pk::key_type()),
{
    let ms = Miniscript::<Pk, Ctx>::from_str_insane(text).map_err(|e| e.to_string())?;
    Ok(Analysis {
        script_size: ms.script_size(),
        max_satisfaction_witness_elements: ms.max_satisfaction_witness_elements().ok(),
        max_satisfaction_size: ms.max_satisfaction_size().ok(),
        policy: ms.lift().ok().map(|p| p.to_string()),
        requires_sig: ms.requires_sig(),
        non_malleable: ms.is_non_malleable(),
        within_resource_limits: ms.within_resource_limits(),
        has_mixed_timelocks: ms.has_mixed_timelocks(),
        has_repeated_keys: ms.has_repeated_keys(),
    })
}

/// `Miniscript::from_str_insane` with public keys, then `Miniscript::encode`.
/// The contract names the script, and says that there is one exactly when
/// the text can be read under the context: `encode` does not fail.
#[verifier::external_body]
pub(crate) fn encode_text<Ctx: miniscript::ScriptContext + ContextTag>(text: &str) -> (r: Option<
    Vec<u8>,
>)
    ensures
        r.deep_view() == text_script(text@, Ctx::context()),
        r is Some <==> text_analysis(text@, Ctx::context(), MiniscriptKeyType::PublicKey) is Ok,
{
    Miniscript::<bitcoin::PublicKey, Ctx>::from_str_insane(text).ok().map(|ms| ms.encode().into_bytes())
}

/// `Miniscript::parse_insane`, then the same analysis methods as for a text.
/// The keys are those the context decodes: x-only keys in a taproot leaf,
/// full public keys elsewhere. The contract only names the outcome.
#[verifier::external_body]
pub(crate) fn analyze_script<Ctx: miniscript::ScriptContext + ContextTag>(script: &[u8]) -> (r:
    Result<Analysis, String>)
    ensures
        outcome_view(r) == script_analysis(script@, Ctx::context()),
{
    let ms = Miniscript::<Ctx::Key, Ctx>::parse_insane(Script::from_bytes(script)).map_err(
        |e| e.to_string(),
    )?;
    Ok(Analysis {
        script_size: ms.script_size(),
        max_satisfaction_witness_elements: ms.max_satisfaction_witness_elements().ok(),
        max_satisfaction_size: ms.max_satisfaction_size().ok(),
        policy: ms.lift().ok().map(|p| p.to_string()),
        requires_sig: ms.requires_sig(),
        non_malleable: ms.is_non_malleable(),
        within_resource_limits: ms.within_resource_limits(),
        has_mixed_timelocks: ms.has_mixed_timelocks(),
        has_repeated_keys: ms.has_repeated_keys(),
    })
}

/// The value of the outcome of reading a policy.
pub open spec fn policy_outcome_view(r: Result<PolicyAnalysis, String>) -> Result<
    PolicyAnalysisView,
    Seq<char>,
> {
    match r {
        Ok(a) => Ok(a@),
        Err(e) => Err(e@),
    }
}

/// The value of a text or the reason why there is none.
pub open spec fn text_outcome_view(r: Result<String, String>) -> Result<Seq<char>, Seq<char>> {
    match r {
        Ok(a) => Ok(a@),
        Err(e) => Err(e@),
    }
}

/// The value of a script or the reason why there is none.
pub open spec fn script_outcome_view(r: Result<Vec<u8>, String>) -> Result<Seq<u8>, Seq<char>> {
    match r {
        Ok(a) => Ok(a@),
        Err(e) => Err(e@),
    }
}

/// The kind of every node of the concrete policy written as `text`, in
/// the order of a walk that visits a node and then the subtrees of its
/// children from left to right; or the reason why `text` is no concrete
/// policy.
pub uninterp spec fn concrete_kinds(text: Seq<char>, keys: MiniscriptKeyType) -> Result<
    Seq<NodeKind>,
    Seq<char>,
>;

/// For every node of the concrete policy written as `text`, in the order of
/// the same walk, the number of its children and the odds of its branches,
/// which only an `or` has; and for every key, in the order of the walk,
/// whether it is uncompressed. Or the reason why `text` is no concrete
/// policy.
pub uninterp spec fn concrete_branching(text: Seq<char>, keys: MiniscriptKeyType) -> Result<
    (Seq<usize>, Seq<Seq<usize>>, Seq<bool>),
    Seq<char>,
>;

/// What the concrete policy written as `text` lifts to, analysed; or the
/// reason why `text` is no concrete policy or cannot be lifted.
pub uninterp spec fn lifted_policy(text: Seq<char>, keys: MiniscriptKeyType) -> Result<
    PolicyAnalysisView,
    Seq<char>,
>;

/// The abstract policy written as `text`, analysed; or the reason why
/// `text` is no abstract policy.
pub uninterp spec fn abstract_policy(text: Seq<char>, keys: MiniscriptKeyType) -> Result<
    PolicyAnalysisView,
    Seq<char>,
>;

/// The text of the cheapest expression that implements the concrete policy
/// `text` under `context`; or the compiler's reason why there is none.
pub uninterp spec fn compiled_text(
    text: Seq<char>,
    context: ScriptContext,
    keys: MiniscriptKeyType,
) -> Result<Seq<char>, Seq<char>>;

/// The script of the cheapest expression that implements the concrete
/// policy `text`, written with public keys, under `context`; or the
/// compiler's reason why there is none.
pub uninterp spec fn compiled_script(text: Seq<char>, context: ScriptContext) -> Result<
    Seq<u8>,
    Seq<char>,
>;

/// `Concrete::from_str`, then the variant of each node that
/// `pre_order_iter` yields, one for one. The contract only names the
/// outcome.
#[verifier::external_body]
pub(crate) fn read_kinds<Pk: FromStrKey + KeyTag>(text: &str) -> (r: Result<Vec<NodeKind>, String>)
    ensures
        match r {
            Ok(kinds) => concrete_kinds(text@, Pk::key_type()) == Ok::<Seq<NodeKind>, Seq<char>>(
                kinds@,
            ),
            Err(e) => concrete_kinds(text@, Pk::key_type()) == Err::<Seq<NodeKind>, Seq<char>>(e@),
        },
{
    let policy = Concrete::<Pk>::from_str(text).map_err(|e| e.to_string())?;
    Ok(policy.pre_order_iter().map(|p| match p {
        Concrete::Unsatisfiable => NodeKind::Unsatisfiable,
        Concrete::Trivial => NodeKind::Trivial,
        Concrete::Key(_) => NodeKind::Key,
        Concrete::After(_) => NodeKind::After,
        Concrete::Older(_) => NodeKind::Older,
        Concrete::Sha256(_) => NodeKind::Sha256,
        Concrete::Hash256(_) => NodeKind::Hash256,
        Concrete::Ripemd160(_) => NodeKind::Ripemd160,
        Concrete::Hash160(_) => NodeKind::Hash160,
        Concrete::And(_) => NodeKind::And,
        Concrete::Or(_) => NodeKind::Or,
        Concrete::Thresh(_) => NodeKind::Thresh,
    }).collect())
}

/// `Concrete::from_str`, then `TreeLike::n_children` and the odds of each
/// node that `pre_order_iter` yields, and `MiniscriptKey::is_uncompressed`
/// of each key of `Concrete::keys`, one for one. The contract only names
/// the outcome.
#[verifier::external_body]
pub(crate) fn read_branching<Pk: FromStrKey + KeyTag>(text: &str) -> (r: Result<
    (Vec<usize>, Vec<Vec<usize>>, Vec<bool>),
    String,
>)
    ensures
        match r {
            Ok(b) => concrete_branching(text@, Pk::key_type()) == Ok::<
                (Seq<usize>, Seq<Seq<usize>>, Seq<bool>),
                Seq<char>,
            >((b.0@, b.1.deep_view(), b.2@)),
            Err(e) => concrete_branching(text@, Pk::key_type()) == Err::<
                (Seq<usize>, Seq<Seq<usize>>, Seq<bool>),
                Seq<char>,
            >(e@),
        },
{
    let policy = Concrete::<Pk>::from_str(text).map_err(|e| e.to_string())?;
    let children = policy.pre_order_iter().map(|p| p.n_children()).collect();
    let odds = policy.pre_order_iter().map(|p| match p {
        Concrete::Or(subs) => subs.iter().map(|s| s.0).collect(),
        _ => Vec::new(),
    });
    let uncompressed = policy.keys().iter().map(|k| k.is_uncompressed()).collect();
    Ok((children, odds.collect(), uncompressed))
}

/// `Concrete::from_str`, then `Liftable::lift`, then the analysis methods
/// of the abstract policy (`is_trivial`, `is_unsatisfiable`,
/// `relative_timelocks`, `n_keys`, `minimum_n_keys`, `sorted`,
/// `normalized`). The contract only names the outcome.
#[verifier::external_body]
pub(crate) fn lift_concrete<Pk: FromStrKey + KeyTag>(text: &str) -> (r: Result<
    PolicyAnalysis,
    String,
>)
    ensures
        policy_outcome_view(r) == lifted_policy(text@, Pk::key_type()),
{
    let concrete = Concrete::<Pk>::from_str(text).map_err(|e| e.to_string())?;
    let policy = concrete.lift().map_err(|e| e.to_string())?;
    Ok(PolicyAnalysis {
        is_trivial: policy.is_trivial(),
        is_unsatisfiable: policy.is_unsatisfiable(),
        relative_timelocks: policy.relative_timelocks(),
        n_keys: policy.n_keys(),
        minimum_n_keys: policy.minimum_n_keys(),
        sorted: policy.clone().sorted().to_string(),
        normalized: policy.clone().normalized().to_string(),
    })
}

/// `Semantic::from_str`, then the same analysis methods as for a lifted
/// policy. The contract only names the outcome.
#[verifier::external_body]
pub(crate) fn read_abstract<Pk: FromStrKey + KeyTag>(text: &str) -> (r: Result<
    PolicyAnalysis,
    String,
>)
    ensures
        policy_outcome_view(r) == abstract_policy(text@, Pk::key_type()),
{
    let policy = Semantic::<Pk>::from_str(text).map_err(|e| e.to_string())?;
    Ok(PolicyAnalysis {
        is_trivial: policy.is_trivial(),
        is_unsatisfiable: policy.is_unsatisfiable(),
        relative_timelocks: policy.relative_timelocks(),
        n_keys: policy.n_keys(),
        minimum_n_keys: policy.minimum_n_keys(),
        sorted: policy.clone().sorted().to_string(),
        normalized: policy.clone().normalized().to_string(),
    })
}

/// `Concrete::from_str`, then `best_compilation`, then the expression's
/// text. The compiler compares costs that must be numbers, and builds
/// fragments that the context must accept; the caller rules out the inputs
/// on which either fails.
/// - A cost is no number where zero is divided by zero or multiplied by
///   infinity. The first happens only at an `or` whose odds are all zero.
///   For the second a cost must be infinite: the cost of an unsatisfiable
///   leaf is the largest finite number, every other cost is small, and
///   costs are only added and multiplied by probabilities, so that takes the
///   costs of two unsatisfiable leaves added up. A policy with at most one
///   such leaf has finite costs, however small a probability gets.
/// - A key fragment is refused under a witness context for an uncompressed
///   key, and a `multi` of 16 to 20 keys is refused behind a script hash,
///   being longer than such a script may be.
/// The contract only names the outcome.
#[verifier::external_body]
pub(crate) fn compile_to_text<Pk: FromStrKey + KeyTag, Ctx: miniscript::ScriptContext + ContextTag>(
    text: &str,
) -> (r: Result<String, String>)
    requires
        concrete_shape(text@, Pk::key_type()) matches Ok(shape) && shape.compilable(Ctx::context()),
    ensures
        text_outcome_view(r) == compiled_text(text@, Ctx::context(), Pk::key_type()),
{
    let policy = Concrete::<Pk>::from_str(text).map_err(|e| e.to_string())?;
    let ms = best_compilation::<Pk, Ctx>(&policy).map_err(|e| e.to_string())?;
    Ok(ms.to_string())
}

/// `Concrete::from_str` with public keys, then `best_compilation`, then
/// `Miniscript::encode`. The same inputs are ruled out as for the text. The
/// contract only names the outcome.
#[verifier::external_body]
pub(crate) fn compile_to_script<Ctx: miniscript::ScriptContext + ContextTag>(text: &str) -> (r: Result<
    Vec<u8>,
    String,
>)
    requires
        concrete_shape(text@, MiniscriptKeyType::PublicKey) matches Ok(shape) && shape.compilable(
            Ctx::context(),
        ),
    ensures
        script_outcome_view(r) == compiled_script(text@, Ctx::context()),
{
    let policy = Concrete::<bitcoin::PublicKey>::from_str(text).map_err(|e| e.to_string())?;
    let ms = best_compilation::<bitcoin::PublicKey, Ctx>(&policy).map_err(|e| e.to_string())?;
    Ok(ms.encode().into_bytes())
}

/// The value of the outcome of reading a descriptor.
pub open spec fn descriptor_outcome_view(r: Result<DescriptorAnalysis, String>) -> Result<
    DescriptorAnalysisView,
    Seq<char>,
> {
    match r {
        Ok(a) => Ok(a@),
        Err(e) => Err(e@),
    }
}

/// What the output descriptor written as `text` with public keys comes
/// to: its text, scripts, weight and policy; or the reason why `text` is no
/// such descriptor.
pub uninterp spec fn keyed_descriptor(text: Seq<char>) -> Result<
    DescriptorAnalysisView,
    Seq<char>,
>;

/// The kind of the output descriptor written as `text` with public keys.
pub uninterp spec fn keyed_descriptor_kind(text: Seq<char>) -> Option<DescriptorKind>;

/// What the output descriptor written as `text` with placeholder names
/// comes to: its text, the weight of its largest satisfaction and its
/// policy; or the reason why `text` is no such descriptor.
pub uninterp spec fn named_descriptor(text: Seq<char>) -> Result<
    (Seq<char>, Option<u64>, Option<Seq<char>>),
    Seq<char>,
>;

/// `Descriptor::from_str` with public keys, then the descriptor's text and
/// its `script_pubkey`, `unsigned_script_sig`, `explicit_script`,
/// `max_weight_to_satisfy` and `lift`. `Descriptor::address` is not called:
/// behind a script hash it asserts that the script is short enough, which
/// the parser does not see to for uncompressed keys. The contract only
/// names the outcome.
#[verifier::external_body]
pub(crate) fn describe_keyed(text: &str) -> (r: Result<DescriptorAnalysis, String>)
    ensures
        descriptor_outcome_view(r) == keyed_descriptor(text@),
{
    let desc = Descriptor::<bitcoin::PublicKey>::from_str(text).map_err(|e| e.to_string())?;
    Ok(DescriptorAnalysis {
        descriptor: desc.to_string(),
        script_pubkey: desc.script_pubkey().into_bytes(),
        unsigned_script_sig: desc.unsigned_script_sig().into_bytes(),
        witness_script: desc.explicit_script().map(|s| s.into_bytes()).ok(),
        max_satisfaction_weight: desc.max_weight_to_satisfy().ok().map(|w| w.to_wu()),
        policy: desc.lift().map(|pol| pol.to_string()).ok(),
    })
}

/// `Descriptor::from_str` with public keys, then `Descriptor::desc_type`,
/// variant for variant. The contract only names the outcome.
#[verifier::external_body]
pub(crate) fn read_descriptor_kind(text: &str) -> (r: Option<DescriptorKind>)
    ensures
        r == keyed_descriptor_kind(text@),
{
    let desc = Descriptor::<bitcoin::PublicKey>::from_str(text).ok()?;
    Some(match desc.desc_type() {
        DescriptorType::Bare => DescriptorKind::Bare,
        DescriptorType::Sh => DescriptorKind::Sh,
        DescriptorType::Pkh => DescriptorKind::Pkh,
        DescriptorType::Wpkh => DescriptorKind::Wpkh,
        DescriptorType::Wsh => DescriptorKind::Wsh,
        DescriptorType::ShWsh => DescriptorKind::ShWsh,
        DescriptorType::ShWpkh => DescriptorKind::ShWpkh,
        DescriptorType::ShSortedMulti => DescriptorKind::ShSortedMulti,
        DescriptorType::WshSortedMulti => DescriptorKind::WshSortedMulti,
        DescriptorType::ShWshSortedMulti => DescriptorKind::ShWshSortedMulti,
        DescriptorType::Tr => DescriptorKind::Tr,
    })
}

/// `Descriptor::from_str` with placeholder names, then the descriptor's
/// text, `max_weight_to_satisfy` and `lift`. The contract only names the
/// outcome.
#[verifier::external_body]
pub(crate) fn describe_named(text: &str) -> (r: Result<(String, Option<u64>, Option<String>), String>)
    ensures
        match r {
            Ok(a) => named_descriptor(text@) == Ok::<
                (Seq<char>, Option<u64>, Option<Seq<char>>),
                Seq<char>,
            >((a.0@, a.1, a.2.deep_view())),
            Err(e) => named_descriptor(text@) == Err::<
                (Seq<char>, Option<u64>, Option<Seq<char>>),
                Seq<char>,
            >(e@),
        },
{
    let desc = Descriptor::<String>::from_str(text).map_err(|e| e.to_string())?;
    Ok((
        desc.to_string(),
        desc.max_weight_to_satisfy().ok().map(|w| w.to_wu()),
        desc.lift().map(|pol| pol.to_string()).ok(),
    ))
}

} // verus!
