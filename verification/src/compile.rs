//! The compiler's front: a concrete policy text and a target context give
//! the script of the cheapest expression, or the reason why there is none.

use crate::context::{MiniscriptKeyType, ScriptContext};
use crate::encoding::{encode_hex, hex_encoded};
use crate::btc::{script_text, script_to_text};
use crate::engine::{compile_to_script, compiled_script};
use crate::policy::{concrete_shape, read_shape, PolicyShape, PolicyShapeView};
use miniscript::miniscript::{BareCtx, Legacy, Segwitv0, Tap};
use vstd::prelude::*;
use vstd::string::StringExecFns;

verus! {

/// Why a policy does not compile.
#[derive(Clone, Debug, PartialEq, Eq)]
pub enum CompileError {
    /// The text is no concrete policy.
    InvalidPolicy(String),
    /// Some `or` has no branch with odds above zero.
    ZeroOdds,
    /// The policy holds two or more unsatisfiable leaves, whose costs add
    /// up without bound.
    UnboundedCost,
    /// The policy holds an uncompressed key and the target is a witness
    /// context.
    UncompressedKey,
    /// The policy holds a threshold of 16 to 20 keys and the target is a
    /// script behind a script hash, which cannot hold their `multi`.
    TooManyKeys,
    /// The policy has no legal encoding under the target context.
    Impossible(String),
}

/// The mathematical value of a [`CompileError`].
pub enum CompileErrorView {
    InvalidPolicy(Seq<char>),
    ZeroOdds,
    UnboundedCost,
    UncompressedKey,
    TooManyKeys,
    Impossible(Seq<char>),
}

impl View for CompileError {
    type V = CompileErrorView;

    open spec fn view(&self) -> CompileErrorView {
        match self {
            CompileError::InvalidPolicy(e) => CompileErrorView::InvalidPolicy(e@),
            CompileError::ZeroOdds => CompileErrorView::ZeroOdds,
            CompileError::UnboundedCost => CompileErrorView::UnboundedCost,
            CompileError::UncompressedKey => CompileErrorView::UncompressedKey,
            CompileError::TooManyKeys => CompileErrorView::TooManyKeys,
            CompileError::Impossible(e) => CompileErrorView::Impossible(e@),
        }
    }
}

impl CompileErrorView {
    pub open spec fn message(self) -> Seq<char> {
        match self {
            CompileErrorView::InvalidPolicy(e) => "Invalid concrete policy: "@ + e,
            CompileErrorView::ZeroOdds =>
                "Compilation error: an or needs a branch with odds above zero"@,
            CompileErrorView::UnboundedCost =>
                "Compilation error: two unsatisfiable leaves cannot be weighed"@,
            CompileErrorView::UncompressedKey =>
                "Compilation error: uncompressed keys cannot be used in a witness context"@,
            CompileErrorView::TooManyKeys =>
                "Compilation error: a threshold of 16 to 20 keys does not fit behind a script hash"@,
            CompileErrorView::Impossible(e) => "Compilation error: "@ + e,
        }
    }
}

impl CompileError {
    /// The sentence that describes the error.
    pub fn message(&self) -> (r: String)
        ensures
            r@ == self@.message(),
    {
        match self {
            CompileError::InvalidPolicy(e) => String::from_str("Invalid concrete policy: ").concat(
                e.as_str(),
            ),
            CompileError::ZeroOdds => String::from_str(
                "Compilation error: an or needs a branch with odds above zero",
            ),
            CompileError::UnboundedCost => String::from_str(
                "Compilation error: two unsatisfiable leaves cannot be weighed",
            ),
            CompileError::UncompressedKey => String::from_str(
                "Compilation error: uncompressed keys cannot be used in a witness context",
            ),
            CompileError::TooManyKeys => String::from_str(
                "Compilation error: a threshold of 16 to 20 keys does not fit behind a script hash",
            ),
            CompileError::Impossible(e) => String::from_str("Compilation error: ").concat(
                e.as_str(),
            ),
        }
    }
}

/// A compiled script as it is shown: in hexadecimal and in readable form.
#[derive(Clone, Debug, PartialEq, Eq)]
pub struct ScriptOutput {
    pub hex: String,
    pub assembly: String,
}

/// The mathematical value of a [`ScriptOutput`].
pub struct ScriptOutputView {
    pub hex: Seq<char>,
    pub assembly: Seq<char>,
}

impl View for ScriptOutput {
    type V = ScriptOutputView;

    open spec fn view(&self) -> ScriptOutputView {
        ScriptOutputView { hex: self.hex@, assembly: self.assembly@ }
    }
}

impl ScriptOutput {
    /// Both forms of `script`.
    pub fn of(script: &Vec<u8>) -> (r: ScriptOutput)
        ensures
            r@.hex == hex_encoded(script@),
            r@.assembly == script_text(script@),
    {
        ScriptOutput {
            hex: encode_hex(script.as_slice()),
            assembly: script_to_text(script.as_slice()),
        }
    }
}

/// The value of a compilation.
pub open spec fn compilation_view(r: Result<Vec<u8>, CompileError>) -> Result<
    Seq<u8>,
    CompileErrorView,
> {
    match r {
        Ok(script) => Ok(script@),
        Err(e) => Err(e@),
    }
}

/// What compiling a policy of the given shape comes to, given what the
/// compiler returns where it can be run. The shape's faults come first, in
/// this order: no odds, then two unsatisfiable leaves, then an
/// uncompressed key for a witness context or too many keys for a script
/// hash.
pub open spec fn compilation(
    shape: Result<PolicyShapeView, Seq<char>>,
    target: ScriptContext,
    compiled: Result<Seq<u8>, Seq<char>>,
) -> Result<Seq<u8>, CompileErrorView> {
    match shape {
        Err(e) => Err(CompileErrorView::InvalidPolicy(e)),
        Ok(shape) => if shape.has_zero_odds() {
            Err(CompileErrorView::ZeroOdds)
        } else if shape.has_unbounded_cost() {
            Err(CompileErrorView::UnboundedCost)
        } else if target.witness_based() && shape.has_uncompressed_key() {
            Err(CompileErrorView::UncompressedKey)
        } else if target == ScriptContext::Legacy && shape.has_oversized_multi() {
            Err(CompileErrorView::TooManyKeys)
        } else {
            match compiled {
                Ok(script) => Ok(script),
                Err(e) => Err(CompileErrorView::Impossible(e)),
            }
        },
    }
}

/// What compiling `text` for `target` gives.
pub open spec fn compiled(text: Seq<char>, target: ScriptContext) -> Result<Seq<u8>, CompileErrorView> {
    compilation(
        concrete_shape(text, MiniscriptKeyType::PublicKey),
        target,
        compiled_script(text, target),
    )
}

/// The fault of a shape that keeps the compiler from being run for
/// `target`, if there is one.
pub fn check_shape(shape: &PolicyShape, target: ScriptContext) -> (r: Result<(), CompileError>)
    ensures
        r is Ok <==> shape@.compilable(target),
        r matches Err(e) ==> (if shape@.has_zero_odds() {
            e == CompileError::ZeroOdds
        } else if shape@.has_unbounded_cost() {
            e == CompileError::UnboundedCost
        } else if target.witness_based() {
            e == CompileError::UncompressedKey
        } else {
            e == CompileError::TooManyKeys
        }),
{
    if shape.has_zero_odds() {
        Err(CompileError::ZeroOdds)
    } else if shape.has_unbounded_cost() {
        Err(CompileError::UnboundedCost)
    } else if target.is_witness_based() && shape.has_uncompressed_key() {
        Err(CompileError::UncompressedKey)
    } else if matches!(target, ScriptContext::Legacy) && shape.has_oversized_multi() {
        Err(CompileError::TooManyKeys)
    } else {
        Ok(())
    }
}

/// Compiles a concrete policy, written with public keys, into the script of
/// the cheapest expression that implements it under `target`. Fails if the
/// text is no concrete policy, if its shape keeps the compiler from being
/// run, or if no legal encoding exists under `target`.
pub fn compile(policy_text: &str, target: ScriptContext) -> (r: Result<Vec<u8>, CompileError>)
    ensures
        compilation_view(r) == compiled(policy_text@, target),
{
    let shape = match read_shape(policy_text, MiniscriptKeyType::PublicKey) {
        Ok(shape) => shape,
        Err(e) => {
            return Err(CompileError::InvalidPolicy(e));
        },
    };
    match check_shape(&shape, target) {
        Err(e) => {
            return Err(e);
        },
        Ok(()) => {},
    }
    let script = match target {
        ScriptContext::Bare => compile_to_script::<BareCtx>(policy_text),
        ScriptContext::Legacy => compile_to_script::<Legacy>(policy_text),
        ScriptContext::SegwitV0 => compile_to_script::<Segwitv0>(policy_text),
        ScriptContext::Tapscript => compile_to_script::<Tap>(policy_text),
    };
    match script {
        Ok(script) => Ok(script),
        Err(e) => Err(CompileError::Impossible(e)),
    }
}

/// The context that a script type's name stands for.
pub open spec fn context_named(name: Seq<char>) -> Option<ScriptContext> {
    if name == "bare"@ {
        Some(ScriptContext::Bare)
    } else if name == "p2sh"@ {
        Some(ScriptContext::Legacy)
    } else if name == "segwitv0"@ {
        Some(ScriptContext::SegwitV0)
    } else if name == "tapscript"@ {
        Some(ScriptContext::Tapscript)
    } else {
        None
    }
}

/// The name of a context as a script type.
pub open spec fn context_name(context: ScriptContext) -> Seq<char> {
    match context {
        ScriptContext::Bare => "bare"@,
        ScriptContext::Legacy => "p2sh"@,
        ScriptContext::SegwitV0 => "segwitv0"@,
        ScriptContext::Tapscript => "tapscript"@,
    }
}

fn same(a: &str, b: &str) -> (r: bool)
    ensures
        r == (a@ == b@),
{
    a.to_owned() == b.to_owned()
}

/// Reads the name of a script type: `bare`, `p2sh`, `segwitv0` or
/// `tapscript`.
pub fn script_type(name: &str) -> (r: Option<ScriptContext>)
    ensures
        r == context_named(name@),
{
    if same(name, "bare") {
        Some(ScriptContext::Bare)
    } else if same(name, "p2sh") {
        Some(ScriptContext::Legacy)
    } else if same(name, "segwitv0") {
        Some(ScriptContext::SegwitV0)
    } else if same(name, "tapscript") {
        Some(ScriptContext::Tapscript)
    } else {
        None
    }
}

/// The name of a context as a script type.
pub fn script_type_name(context: ScriptContext) -> (r: &'static str)
    ensures
        r@ == context_name(context),
{
    match context {
        ScriptContext::Bare => "bare",
        ScriptContext::Legacy => "p2sh",
        ScriptContext::SegwitV0 => "segwitv0",
        ScriptContext::Tapscript => "tapscript",
    }
}

/// Every context is read back from its name.
pub proof fn lemma_script_type_names(context: ScriptContext)
    ensures
        context_named(context_name(context)) == Some(context),
{
    reveal_strlit("bare");
    reveal_strlit("p2sh");
    reveal_strlit("segwitv0");
    reveal_strlit("tapscript");
    assert("bare"@.len() == 4 && "p2sh"@.len() == 4 && "segwitv0"@.len() == 8 && "tapscript"@.len()
        == 9);
    assert("bare"@[0] == 'b' && "p2sh"@[0] == 'p');
}

} // verus!
