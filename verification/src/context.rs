//! The context model: the four rule sets an expression can be read under, the
//! limits each one sets, and sets of per-context flags.

use vstd::prelude::*;

verus! {

/// One of the four mutually exclusive rule sets that decide which fragments
/// are legal and how the cost of a satisfaction is measured.
#[derive(Clone, Copy, Debug, PartialEq, Eq, Structural)]
pub enum ScriptContext {
    /// A raw script used directly as an output script.
    Bare,
    /// A script behind a script hash (p2sh).
    Legacy,
    /// A version 0 witness script (p2wsh).
    SegwitV0,
    /// A leaf script of a taproot output.
    Tapscript,
}

/// How the keys of an expression are written.
#[derive(Clone, Copy, Debug, PartialEq, Eq, Structural)]
pub enum MiniscriptKeyType {
    /// Concrete public keys.
    PublicKey,
    /// Placeholder names that stand for keys.
    String,
}

/// How much a context's refusal of an input matters to a reader of the
/// log.
#[derive(Clone, Copy, Debug, PartialEq, Eq, Structural)]
pub enum Severity {
    /// Worth a line only when debugging.
    Debug,
    /// Worth a line in a normal log.
    Info,
}

/// What a context allows: sizes in bytes, counts in items.
#[derive(Clone, Copy, Debug, PartialEq, Eq, Structural)]
pub struct ContextLimits {
    /// The largest script the context accepts at all.
    pub max_script_size: usize,
    /// The largest script that is still relayed, where that is less.
    pub max_standard_script_size: usize,
    /// The largest number of opcodes, where the context counts them.
    pub max_ops: Option<usize>,
    /// The largest number of witness stack items, for witness contexts.
    pub max_witness_elements: Option<usize>,
    /// Whether satisfactions are carried in the witness.
    pub witness_based: bool,
    /// Whether the `multi` fragment is legal.
    pub allows_multi: bool,
    /// Whether the `multi_a` fragment is legal.
    pub allows_multi_a: bool,
}

/// The largest script any context accepts (bytes).
pub const MAX_SCRIPT_SIZE: usize = 10000;

/// The largest witness script that is still relayed (bytes).
pub const MAX_STANDARD_P2WSH_SCRIPT_SIZE: usize = 3600;

/// The largest element that can be pushed, and so the largest p2sh script (bytes).
pub const MAX_SCRIPT_ELEMENT_SIZE: usize = 520;

/// The largest number of opcodes in a script outside taproot.
pub const MAX_OPS_PER_SCRIPT: usize = 201;

/// The largest number of witness items of a relayed p2wsh spend.
pub const MAX_STANDARD_P2WSH_STACK_ITEMS: usize = 100;

/// The largest number of items on the stack during execution.
pub const MAX_STACK_SIZE: usize = 1000;

/// The largest weight of a block, which bounds a tapscript.
pub const MAX_BLOCK_WEIGHT: usize = 4000000;

impl ScriptContext {
    /// Whether satisfactions under this context are carried in the witness,
    /// and so measured in weight units.
    pub open spec fn witness_based(self) -> bool {
        self == ScriptContext::SegwitV0 || self == ScriptContext::Tapscript
    }

    /// The limits of each context.
    pub open spec fn spec_limits(self) -> ContextLimits {
        match self {
            ScriptContext::Bare => ContextLimits {
                max_script_size: MAX_SCRIPT_SIZE,
                max_standard_script_size: MAX_SCRIPT_SIZE,
                max_ops: Some(MAX_OPS_PER_SCRIPT),
                max_witness_elements: None,
                witness_based: false,
                allows_multi: true,
                allows_multi_a: false,
            },
            ScriptContext::Legacy => ContextLimits {
                max_script_size: MAX_SCRIPT_ELEMENT_SIZE,
                max_standard_script_size: MAX_SCRIPT_ELEMENT_SIZE,
                max_ops: Some(MAX_OPS_PER_SCRIPT),
                max_witness_elements: None,
                witness_based: false,
                allows_multi: true,
                allows_multi_a: false,
            },
            ScriptContext::SegwitV0 => ContextLimits {
                max_script_size: MAX_SCRIPT_SIZE,
                max_standard_script_size: MAX_STANDARD_P2WSH_SCRIPT_SIZE,
                max_ops: Some(MAX_OPS_PER_SCRIPT),
                max_witness_elements: Some(MAX_STANDARD_P2WSH_STACK_ITEMS),
                witness_based: true,
                allows_multi: true,
                allows_multi_a: false,
            },
            ScriptContext::Tapscript => ContextLimits {
                max_script_size: MAX_BLOCK_WEIGHT,
                max_standard_script_size: MAX_BLOCK_WEIGHT,
                max_ops: None,
                max_witness_elements: Some(MAX_STACK_SIZE),
                witness_based: true,
                allows_multi: false,
                allows_multi_a: true,
            },
        }
    }

    /// Whether a script of `script_size` bytes, whose largest satisfaction
    /// has `witness_elements` stack items where that is known, stays within
    /// what this context relays: the size under the context's maximum and,
    /// in a witness context, the item count under its maximum.
    pub open spec fn admits(self, script_size: usize, witness_elements: Option<usize>) -> bool {
        let limits = self.spec_limits();
        &&& script_size <= limits.max_standard_script_size
        &&& (limits.max_witness_elements matches Some(max) ==> (witness_elements matches Some(n)
            ==> n <= max))
    }

    /// The severity of a refusal under this context: the witness contexts
    /// are the ones in use, so their refusals rank above the others'.
    pub open spec fn spec_refusal_severity(self) -> Severity {
        if self.witness_based() {
            Severity::Info
        } else {
            Severity::Debug
        }
    }

    pub fn refusal_severity(self) -> (r: Severity)
        ensures
            r == self.spec_refusal_severity(),
    {
        match self {
            ScriptContext::SegwitV0 | ScriptContext::Tapscript => Severity::Info,
            ScriptContext::Bare | ScriptContext::Legacy => Severity::Debug,
        }
    }

    pub fn is_witness_based(self) -> (r: bool)
        ensures
            r == self.witness_based(),
            r == self.spec_limits().witness_based,
    {
        match self {
            ScriptContext::SegwitV0 | ScriptContext::Tapscript => true,
            ScriptContext::Bare | ScriptContext::Legacy => false,
        }
    }

    /// The descriptor of this context's limits.
    pub fn limits(self) -> (r: ContextLimits)
        ensures
            r == self.spec_limits(),
    {
        match self {
            ScriptContext::Bare => ContextLimits {
                max_script_size: MAX_SCRIPT_SIZE,
                max_standard_script_size: MAX_SCRIPT_SIZE,
                max_ops: Some(MAX_OPS_PER_SCRIPT),
                max_witness_elements: None,
                witness_based: false,
                allows_multi: true,
                allows_multi_a: false,
            },
            ScriptContext::Legacy => ContextLimits {
                max_script_size: MAX_SCRIPT_ELEMENT_SIZE,
                max_standard_script_size: MAX_SCRIPT_ELEMENT_SIZE,
                max_ops: Some(MAX_OPS_PER_SCRIPT),
                max_witness_elements: None,
                witness_based: false,
                allows_multi: true,
                allows_multi_a: false,
            },
            ScriptContext::SegwitV0 => ContextLimits {
                max_script_size: MAX_SCRIPT_SIZE,
                max_standard_script_size: MAX_STANDARD_P2WSH_SCRIPT_SIZE,
                max_ops: Some(MAX_OPS_PER_SCRIPT),
                max_witness_elements: Some(MAX_STANDARD_P2WSH_STACK_ITEMS),
                witness_based: true,
                allows_multi: true,
                allows_multi_a: false,
            },
            ScriptContext::Tapscript => ContextLimits {
                max_script_size: MAX_BLOCK_WEIGHT,
                max_standard_script_size: MAX_BLOCK_WEIGHT,
                max_ops: None,
                max_witness_elements: Some(MAX_STACK_SIZE),
                witness_based: true,
                allows_multi: false,
                allows_multi_a: true,
            },
        }
    }

    /// Decides `admits`.
    pub fn check_limits(self, script_size: usize, witness_elements: Option<usize>) -> (r: bool)
        ensures
            r == self.admits(script_size, witness_elements),
    {
        let limits = self.limits();
        if script_size > limits.max_standard_script_size {
            return false;
        }
        match (limits.max_witness_elements, witness_elements) {
            (Some(max), Some(n)) => n <= max,
            _ => true,
        }
    }
}

/// One flag per context.
#[derive(Clone, Copy, Debug, PartialEq, Eq, Structural)]
pub struct ScriptContexts {
    pub bare: bool,
    pub p2sh: bool,
    pub segwitv0: bool,
    pub tapscript: bool,
}

impl ScriptContexts {
    /// The flag of one context.
    pub open spec fn spec_get(self, context: ScriptContext) -> bool {
        match context {
            ScriptContext::Bare => self.bare,
            ScriptContext::Legacy => self.p2sh,
            ScriptContext::SegwitV0 => self.segwitv0,
            ScriptContext::Tapscript => self.tapscript,
        }
    }

    /// The set in which only `context` is flagged, with `flag`.
    pub open spec fn spec_single(context: ScriptContext, flag: bool) -> ScriptContexts {
        ScriptContexts {
            bare: context == ScriptContext::Bare && flag,
            p2sh: context == ScriptContext::Legacy && flag,
            segwitv0: context == ScriptContext::SegwitV0 && flag,
            tapscript: context == ScriptContext::Tapscript && flag,
        }
    }

    /// The flags set in either.
    pub open spec fn spec_or(a: ScriptContexts, b: ScriptContexts) -> ScriptContexts {
        ScriptContexts {
            bare: a.bare || b.bare,
            p2sh: a.p2sh || b.p2sh,
            segwitv0: a.segwitv0 || b.segwitv0,
            tapscript: a.tapscript || b.tapscript,
        }
    }

    /// Whether no context is flagged.
    pub open spec fn spec_is_empty(self) -> bool {
        !self.bare && !self.p2sh && !self.segwitv0 && !self.tapscript
    }

    /// Whether every flag of `self` is also set in `other`.
    pub open spec fn subset_of(self, other: ScriptContexts) -> bool {
        forall|c: ScriptContext| self.spec_get(c) ==> other.spec_get(c)
    }

    pub fn get(self, context: ScriptContext) -> (r: bool)
        ensures
            r == self.spec_get(context),
    {
        match context {
            ScriptContext::Bare => self.bare,
            ScriptContext::Legacy => self.p2sh,
            ScriptContext::SegwitV0 => self.segwitv0,
            ScriptContext::Tapscript => self.tapscript,
        }
    }

    pub fn single(context: ScriptContext, flag: bool) -> (r: ScriptContexts)
        ensures
            r == Self::spec_single(context, flag),
    {
        match context {
            ScriptContext::Bare => Self::from_bare(flag),
            ScriptContext::Legacy => Self::from_p2sh(flag),
            ScriptContext::SegwitV0 => Self::from_segwitv0(flag),
            ScriptContext::Tapscript => Self::from_tapscript(flag),
        }
    }

    pub fn from_bare(bare: bool) -> (r: ScriptContexts)
        ensures
            r == Self::spec_single(ScriptContext::Bare, bare),
    {
        ScriptContexts { bare, p2sh: false, segwitv0: false, tapscript: false }
    }

    pub fn from_p2sh(p2sh: bool) -> (r: ScriptContexts)
        ensures
            r == Self::spec_single(ScriptContext::Legacy, p2sh),
    {
        ScriptContexts { bare: false, p2sh, segwitv0: false, tapscript: false }
    }

    pub fn from_segwitv0(segwitv0: bool) -> (r: ScriptContexts)
        ensures
            r == Self::spec_single(ScriptContext::SegwitV0, segwitv0),
    {
        ScriptContexts { bare: false, p2sh: false, segwitv0, tapscript: false }
    }

    pub fn from_tapscript(tapscript: bool) -> (r: ScriptContexts)
        ensures
            r == Self::spec_single(ScriptContext::Tapscript, tapscript),
    {
        ScriptContexts { bare: false, p2sh: false, segwitv0: false, tapscript }
    }

    pub fn or(a: ScriptContexts, b: ScriptContexts) -> (r: ScriptContexts)
        ensures
            r == Self::spec_or(a, b),
    {
        ScriptContexts {
            bare: a.bare || b.bare,
            p2sh: a.p2sh || b.p2sh,
            segwitv0: a.segwitv0 || b.segwitv0,
            tapscript: a.tapscript || b.tapscript,
        }
    }

    pub fn is_empty(self) -> (r: bool)
        ensures
            r == self.spec_is_empty(),
    {
        !self.bare && !self.p2sh && !self.segwitv0 && !self.tapscript
    }
}

/// A flag is set in a union exactly when it is set on either side.
pub proof fn lemma_or_flags(a: ScriptContexts, b: ScriptContexts, context: ScriptContext)
    ensures
        ScriptContexts::spec_or(a, b).spec_get(context) == (a.spec_get(context) || b.spec_get(
            context,
        )),
{
}

/// A set of one context carries its flag under that context and none under
/// any other.
pub proof fn lemma_single_flags(of: ScriptContext, flag: bool, context: ScriptContext)
    ensures
        ScriptContexts::spec_single(of, flag).spec_get(context) == (flag && context == of),
{
}

/// The union of flag sets is associative, commutative and idempotent.
pub proof fn lemma_or_lattice(a: ScriptContexts, b: ScriptContexts, c: ScriptContexts)
    ensures
        ScriptContexts::spec_or(ScriptContexts::spec_or(a, b), c) == ScriptContexts::spec_or(
            a,
            ScriptContexts::spec_or(b, c),
        ),
        ScriptContexts::spec_or(a, b) == ScriptContexts::spec_or(b, a),
        ScriptContexts::spec_or(a, a) == a,
{
}

} // verus!
