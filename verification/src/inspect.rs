//! The multi-context combiner: an input is read under each of the four
//! contexts, each accepted reading becomes a report, and the reports are
//! merged into one. Only an input that every context refuses is a failure.

use crate::context::{MiniscriptKeyType, ScriptContext};
use crate::encoding::{decode_hex, hex_decoded, hex_encoded};
use crate::engine::{analyze_script, analyze_text, encode_text, script_analysis, text_analysis, text_script};
use crate::report::{Analysis, AnalysisView, MiniscriptInfo, MiniscriptInfoView, lemma_combine_wf, lemma_of_wf};
use miniscript::miniscript::{BareCtx, Legacy, Segwitv0, Tap};
use vstd::prelude::*;
use vstd::string::StringExecFns;

verus! {

/// How strictly an input is read.
#[derive(Clone, Copy, Debug, PartialEq, Eq, Structural)]
pub enum ParseMode {
    /// Only sane expressions are accepted.
    Sane,
    /// Expressions that typecheck are accepted also where they are not
    /// sane, so that they can be looked at and reported as unsafe.
    Insane,
}

/// What one context makes of the input.
#[derive(Debug, PartialEq, Eq)]
pub struct Reading {
    /// The analysis, or the reason why the context refuses the input.
    pub outcome: Result<Analysis, String>,
    /// The script of the expression, where there is one.
    pub script: Option<Vec<u8>>,
}

/// The mathematical value of a [`Reading`].
pub struct ReadingView {
    pub outcome: Result<AnalysisView, Seq<char>>,
    pub script: Option<Seq<u8>>,
}

impl View for Reading {
    type V = ReadingView;

    open spec fn view(&self) -> ReadingView {
        ReadingView {
            outcome: match self.outcome {
                Ok(a) => Ok(a@),
                Err(e) => Err(e@),
            },
            script: self.script.deep_view(),
        }
    }
}

/// What each of the four contexts makes of one input.
#[derive(Debug, PartialEq, Eq)]
pub struct Readings {
    pub bare: Reading,
    pub p2sh: Reading,
    pub segwitv0: Reading,
    pub tapscript: Reading,
}

/// The mathematical value of [`Readings`].
pub struct ReadingsView {
    pub bare: ReadingView,
    pub p2sh: ReadingView,
    pub segwitv0: ReadingView,
    pub tapscript: ReadingView,
}

impl View for Readings {
    type V = ReadingsView;

    open spec fn view(&self) -> ReadingsView {
        ReadingsView {
            bare: self.bare@,
            p2sh: self.p2sh@,
            segwitv0: self.segwitv0@,
            tapscript: self.tapscript@,
        }
    }
}

impl ReadingsView {
    pub open spec fn get(self, context: ScriptContext) -> ReadingView {
        match context {
            ScriptContext::Bare => self.bare,
            ScriptContext::Legacy => self.p2sh,
            ScriptContext::SegwitV0 => self.segwitv0,
            ScriptContext::Tapscript => self.tapscript,
        }
    }
}

/// The input is invalid in every context: the reason of each.
#[derive(Clone, Debug, PartialEq, Eq)]
pub struct Failure {
    pub bare: String,
    pub p2sh: String,
    pub segwitv0: String,
    pub tapscript: String,
}

/// The mathematical value of a [`Failure`].
pub struct FailureView {
    pub bare: Seq<char>,
    pub p2sh: Seq<char>,
    pub segwitv0: Seq<char>,
    pub tapscript: Seq<char>,
}

impl View for Failure {
    type V = FailureView;

    open spec fn view(&self) -> FailureView {
        FailureView {
            bare: self.bare@,
            p2sh: self.p2sh@,
            segwitv0: self.segwitv0@,
            tapscript: self.tapscript@,
        }
    }
}

/// What kind of failure it is that no context accepts an input.
#[derive(Clone, Copy, Debug, PartialEq, Eq, Structural)]
pub enum FailureKind {
    /// Every context gives the same reason: the input is malformed or
    /// ill-typed, whatever the context.
    Malformed,
    /// The contexts give different reasons: the input breaks the rules of
    /// each context in its own way.
    ContextViolation,
}

impl FailureView {
    pub open spec fn get(self, context: ScriptContext) -> Seq<char> {
        match context {
            ScriptContext::Bare => self.bare,
            ScriptContext::Legacy => self.p2sh,
            ScriptContext::SegwitV0 => self.segwitv0,
            ScriptContext::Tapscript => self.tapscript,
        }
    }

    /// Whether the reason does not depend on the context.
    pub open spec fn same_everywhere(self) -> bool {
        self.bare == self.p2sh && self.p2sh == self.segwitv0 && self.segwitv0 == self.tapscript
    }

    pub open spec fn kind(self) -> FailureKind {
        if self.same_everywhere() {
            FailureKind::Malformed
        } else {
            FailureKind::ContextViolation
        }
    }
}

impl Failure {
    /// Why `context` refuses the input.
    pub fn reason(&self, context: ScriptContext) -> (r: &String)
        ensures
            r@ == self@.get(context),
    {
        match context {
            ScriptContext::Bare => &self.bare,
            ScriptContext::Legacy => &self.p2sh,
            ScriptContext::SegwitV0 => &self.segwitv0,
            ScriptContext::Tapscript => &self.tapscript,
        }
    }

    /// Tells a failure that does not depend on the context from one that
    /// does.
    pub fn kind(&self) -> (r: FailureKind)
        ensures
            r == self@.kind(),
            r == FailureKind::Malformed <==> forall|a: ScriptContext, b: ScriptContext|
                self@.get(a) == self@.get(b),
    {
        if self.bare == self.p2sh && self.p2sh == self.segwitv0 && self.segwitv0
            == self.tapscript {
            FailureKind::Malformed
        } else {
            assert(self@.get(ScriptContext::Bare) == self@.bare);
            assert(self@.get(ScriptContext::Legacy) == self@.p2sh);
            assert(self@.get(ScriptContext::SegwitV0) == self@.segwitv0);
            assert(self@.get(ScriptContext::Tapscript) == self@.tapscript);
            FailureKind::ContextViolation
        }
    }

    /// The one reason to show: that of the least restrictive context, the
    /// taproot leaf.
    pub fn message(&self) -> (r: &String)
        ensures
            r@ == self@.tapscript,
    {
        &self.tapscript
    }
}

/// The value of the combiner's result.
pub open spec fn inspection_view(r: Result<MiniscriptInfo, Failure>) -> Result<
    MiniscriptInfoView,
    FailureView,
> {
    match r {
        Ok(info) => Ok(info@),
        Err(f) => Err(f@),
    }
}

/// What a context's reading comes to under `mode`: the report, or the
/// reason of the refusal. In sane mode an expression that fails the sanity
/// check is refused with the sentence of the check that fails first.
pub open spec fn judged(
    context: ScriptContext,
    reading: ReadingView,
    key_type: MiniscriptKeyType,
    mode: ParseMode,
) -> Result<MiniscriptInfoView, Seq<char>> {
    match reading.outcome {
        Err(e) => Err(e),
        Ok(a) => match a.sanity(context) {
            Err(e) if mode == ParseMode::Sane => Err(e.spec_message()),
            _ => Ok(MiniscriptInfoView::of(context, a, key_type, reading.script)),
        },
    }
}

/// The report of an accepted reading.
pub open spec fn accepted(r: Result<MiniscriptInfoView, Seq<char>>) -> Option<MiniscriptInfoView> {
    match r {
        Ok(info) => Some(info),
        Err(_) => None,
    }
}

/// The reason of a refused reading; empty for an accepted one.
pub open spec fn refusal(r: Result<MiniscriptInfoView, Seq<char>>) -> Seq<char> {
    match r {
        Ok(_) => Seq::empty(),
        Err(e) => e,
    }
}

/// The merge of the four readings, bare first: the merged report of the
/// contexts that accept the input, or the failure that holds every
/// context's reason.
pub open spec fn combined(readings: ReadingsView, key_type: MiniscriptKeyType, mode: ParseMode) -> Result<
    MiniscriptInfoView,
    FailureView,
> {
    let bare = judged(ScriptContext::Bare, readings.bare, key_type, mode);
    let p2sh = judged(ScriptContext::Legacy, readings.p2sh, key_type, mode);
    let segwitv0 = judged(ScriptContext::SegwitV0, readings.segwitv0, key_type, mode);
    let tapscript = judged(ScriptContext::Tapscript, readings.tapscript, key_type, mode);
    match MiniscriptInfoView::combine(
        MiniscriptInfoView::combine(
            MiniscriptInfoView::combine(accepted(bare), accepted(p2sh)),
            accepted(segwitv0),
        ),
        accepted(tapscript),
    ) {
        Some(info) => Ok(info),
        None => Err(
            FailureView {
                bare: refusal(bare),
                p2sh: refusal(p2sh),
                segwitv0: refusal(segwitv0),
                tapscript: refusal(tapscript),
            },
        ),
    }
}

/// The value of a context's judgement.
pub open spec fn judgement_view(r: Result<MiniscriptInfo, String>) -> Result<
    MiniscriptInfoView,
    Seq<char>,
> {
    match r {
        Ok(info) => Ok(info@),
        Err(e) => Err(e@),
    }
}

/// Turns one context's reading into its report, or into the reason of the
/// refusal.
pub fn judge(context: ScriptContext, reading: Reading, key_type: MiniscriptKeyType, mode: ParseMode) -> (r:
    Result<MiniscriptInfo, String>)
    ensures
        judgement_view(r) == judged(context, reading@, key_type, mode),
        r matches Ok(info) ==> info@.wf() && info.key_type == key_type,
{
    match reading.outcome {
        Err(e) => Err(e),
        Ok(analysis) => {
            match analysis.sanity_check(context) {
                Err(e) if matches!(mode, ParseMode::Sane) => Err(String::from_str(e.message())),
                _ => Ok(MiniscriptInfo::from_context(context, analysis, key_type, reading.script)),
            }
        },
    }
}

fn split(r: Result<MiniscriptInfo, String>) -> (parts: (Option<MiniscriptInfo>, String))
    ensures
        match r {
            Ok(info) => parts.0 == Some(info) && parts.1@ == Seq::<char>::empty(),
            Err(e) => parts.0 is None && parts.1 == e,
        },
{
    match r {
        Ok(info) => (Some(info), String::new()),
        Err(e) => (None, e),
    }
}

/// Merges what the four contexts make of one input into one report. A
/// context that refuses the input adds nothing but its cleared flag; if all
/// four refuse it, the result is the one failure that holds their reasons.
pub fn combine_readings(readings: Readings, key_type: MiniscriptKeyType, mode: ParseMode) -> (r: Result<
    MiniscriptInfo,
    Failure,
>)
    ensures
        inspection_view(r) == combined(readings@, key_type, mode),
        r matches Ok(info) ==> info@.wf() && info.key_type == key_type && forall|c: ScriptContext|
            info.valid_script_contexts.spec_get(c) == (judged(
                c,
                #[trigger] readings@.get(c),
                key_type,
                mode,
            ) is Ok),
        r is Err <==> forall|c: ScriptContext|
            judged(c, #[trigger] readings@.get(c), key_type, mode) is Err,
{
    let ghost rv = readings@;
    let bare = judge(ScriptContext::Bare, readings.bare, key_type, mode);
    let p2sh = judge(ScriptContext::Legacy, readings.p2sh, key_type, mode);
    let segwitv0 = judge(ScriptContext::SegwitV0, readings.segwitv0, key_type, mode);
    let tapscript = judge(ScriptContext::Tapscript, readings.tapscript, key_type, mode);
    let (bare, bare_reason) = split(bare);
    let (p2sh, p2sh_reason) = split(p2sh);
    let (segwitv0, segwitv0_reason) = split(segwitv0);
    let (tapscript, tapscript_reason) = split(tapscript);
    proof {
        lemma_combined_flags(rv, key_type, mode);
    }
    let first = MiniscriptInfo::combine(bare, p2sh);
    let second = MiniscriptInfo::combine(first, segwitv0);
    let merged = MiniscriptInfo::combine(second, tapscript);
    match merged {
        Some(info) => Ok(info),
        None => Err(
            Failure {
                bare: bare_reason,
                p2sh: p2sh_reason,
                segwitv0: segwitv0_reason,
                tapscript: tapscript_reason,
            },
        ),
    }
}

/// The combiner's laws: a merged report is well formed, carries the key
/// type it was made with, and flags a context as valid exactly when that
/// context accepted the input; and there is a failure exactly when every
/// context refused it.
pub proof fn lemma_combined_flags(readings: ReadingsView, key_type: MiniscriptKeyType, mode: ParseMode)
    ensures
        combined(readings, key_type, mode) matches Ok(info) ==> info.wf() && info.key_type
            == key_type && forall|c: ScriptContext|
            info.valid_script_contexts.spec_get(c) == (judged(
                c,
                #[trigger] readings.get(c),
                key_type,
                mode,
            ) is Ok),
        combined(readings, key_type, mode) is Err <==> forall|c: ScriptContext|
            judged(c, #[trigger] readings.get(c), key_type, mode) is Err,
        combined(readings, key_type, mode) matches Err(f) ==> forall|c: ScriptContext|
            judged(c, #[trigger] readings.get(c), key_type, mode) == Err::<
                MiniscriptInfoView,
                Seq<char>,
            >(f.get(c)),
{
    let bare = judged(ScriptContext::Bare, readings.bare, key_type, mode);
    let p2sh = judged(ScriptContext::Legacy, readings.p2sh, key_type, mode);
    let segwitv0 = judged(ScriptContext::SegwitV0, readings.segwitv0, key_type, mode);
    let tapscript = judged(ScriptContext::Tapscript, readings.tapscript, key_type, mode);
    lemma_judged_wf(ScriptContext::Bare, readings.bare, key_type, mode);
    lemma_judged_wf(ScriptContext::Legacy, readings.p2sh, key_type, mode);
    lemma_judged_wf(ScriptContext::SegwitV0, readings.segwitv0, key_type, mode);
    lemma_judged_wf(ScriptContext::Tapscript, readings.tapscript, key_type, mode);
    let first = MiniscriptInfoView::combine(accepted(bare), accepted(p2sh));
    lemma_combine_wf(accepted(bare), accepted(p2sh));
    let second = MiniscriptInfoView::combine(first, accepted(segwitv0));
    lemma_combine_wf(first, accepted(segwitv0));
    let merged = MiniscriptInfoView::combine(second, accepted(tapscript));
    lemma_combine_wf(second, accepted(tapscript));
    assert(readings.get(ScriptContext::Bare) == readings.bare);
    assert(readings.get(ScriptContext::Legacy) == readings.p2sh);
    assert(readings.get(ScriptContext::SegwitV0) == readings.segwitv0);
    assert(readings.get(ScriptContext::Tapscript) == readings.tapscript);
    if merged is Some {
        let info = merged->0;
        assert forall|c: ScriptContext|
            info.valid_script_contexts.spec_get(c) == (judged(
                c,
                #[trigger] readings.get(c),
                key_type,
                mode,
            ) is Ok) by {
            match c {
                ScriptContext::Bare => {},
                ScriptContext::Legacy => {},
                ScriptContext::SegwitV0 => {},
                ScriptContext::Tapscript => {},
            }
        }
    }
}

/// What sane mode accepts is what insane mode reports as sane: a context
/// is valid in the sane report exactly when it is flagged sane in the insane
/// one, and sane mode fails exactly when insane mode fails or flags no
/// context as sane.
pub proof fn lemma_sane_mode(readings: ReadingsView, key_type: MiniscriptKeyType)
    ensures
        match (
            combined(readings, key_type, ParseMode::Sane),
            combined(readings, key_type, ParseMode::Insane),
        ) {
            (Ok(sane), Ok(insane)) => sane.valid_script_contexts == insane.sane_miniscript,
            (Err(_), Ok(insane)) => insane.sane_miniscript.spec_is_empty(),
            (Err(_), Err(_)) => true,
            (Ok(_), Err(_)) => false,
        },
{
    lemma_combined_flags(readings, key_type, ParseMode::Sane);
    lemma_combined_flags(readings, key_type, ParseMode::Insane);
    lemma_judged_wf(ScriptContext::Bare, readings.bare, key_type, ParseMode::Sane);
    lemma_judged_wf(ScriptContext::Legacy, readings.p2sh, key_type, ParseMode::Sane);
    lemma_judged_wf(ScriptContext::SegwitV0, readings.segwitv0, key_type, ParseMode::Sane);
    lemma_judged_wf(ScriptContext::Tapscript, readings.tapscript, key_type, ParseMode::Sane);
    lemma_judged_wf(ScriptContext::Bare, readings.bare, key_type, ParseMode::Insane);
    lemma_judged_wf(ScriptContext::Legacy, readings.p2sh, key_type, ParseMode::Insane);
    lemma_judged_wf(ScriptContext::SegwitV0, readings.segwitv0, key_type, ParseMode::Insane);
    lemma_judged_wf(ScriptContext::Tapscript, readings.tapscript, key_type, ParseMode::Insane);
    assert(readings.get(ScriptContext::Bare) == readings.bare);
    assert(readings.get(ScriptContext::Legacy) == readings.p2sh);
    assert(readings.get(ScriptContext::SegwitV0) == readings.segwitv0);
    assert(readings.get(ScriptContext::Tapscript) == readings.tapscript);
}

/// A report made of one reading is well formed, valid under its own context
/// only, and carries the key type it was made with.
pub proof fn lemma_judged_wf(
    context: ScriptContext,
    reading: ReadingView,
    key_type: MiniscriptKeyType,
    mode: ParseMode,
)
    ensures
        judged(context, reading, key_type, mode) matches Ok(info) ==> info.wf() && info.key_type
            == key_type && forall|c: ScriptContext|
            info.valid_script_contexts.spec_get(c) == (c == context),
        mode == ParseMode::Insane ==> (judged(context, reading, key_type, mode) is Ok
            <==> reading.outcome is Ok),
        mode == ParseMode::Sane ==> (judged(context, reading, key_type, mode) is Ok <==> (
        reading.outcome matches Ok(a) && a.sane(context))),
{
    if reading.outcome is Ok {
        lemma_of_wf(context, reading.outcome->Ok_0, key_type, reading.script);
    }
}

/// What the four contexts make of `text`, read with keys written as
/// `keys`. With public keys each accepted reading has its script.
pub open spec fn text_readings(text: Seq<char>, keys: MiniscriptKeyType) -> ReadingsView {
    ReadingsView {
        bare: text_reading(text, ScriptContext::Bare, keys),
        p2sh: text_reading(text, ScriptContext::Legacy, keys),
        segwitv0: text_reading(text, ScriptContext::SegwitV0, keys),
        tapscript: text_reading(text, ScriptContext::Tapscript, keys),
    }
}

/// What `context` makes of `text`.
pub open spec fn text_reading(text: Seq<char>, context: ScriptContext, keys: MiniscriptKeyType) -> ReadingView {
    ReadingView {
        outcome: text_analysis(text, context, keys),
        script: if keys == MiniscriptKeyType::PublicKey {
            text_script(text, context)
        } else {
            None
        },
    }
}

/// What the four contexts make of `script`. Each reading holds the script
/// itself.
pub open spec fn script_readings(script: Seq<u8>) -> ReadingsView {
    ReadingsView {
        bare: ReadingView {
            outcome: script_analysis(script, ScriptContext::Bare),
            script: Some(script),
        },
        p2sh: ReadingView {
            outcome: script_analysis(script, ScriptContext::Legacy),
            script: Some(script),
        },
        segwitv0: ReadingView {
            outcome: script_analysis(script, ScriptContext::SegwitV0),
            script: Some(script),
        },
        tapscript: ReadingView {
            outcome: script_analysis(script, ScriptContext::Tapscript),
            script: Some(script),
        },
    }
}

/// The report on `text` read with keys written as `keys`.
pub open spec fn inspected_as(text: Seq<char>, keys: MiniscriptKeyType, mode: ParseMode) -> Result<
    MiniscriptInfoView,
    FailureView,
> {
    combined(text_readings(text, keys), keys, mode)
}

/// The report on `text`: read with public keys; only if no context accepts
/// it so, read with placeholder names.
pub open spec fn inspected(text: Seq<char>, mode: ParseMode) -> Result<MiniscriptInfoView, FailureView> {
    match inspected_as(text, MiniscriptKeyType::PublicKey, mode) {
        Ok(info) => Ok(info),
        Err(_) => inspected_as(text, MiniscriptKeyType::String, mode),
    }
}

/// The report on `script`, whose keys are public keys.
pub open spec fn parsed(script: Seq<u8>) -> Result<MiniscriptInfoView, FailureView> {
    combined(script_readings(script), MiniscriptKeyType::PublicKey, ParseMode::Insane)
}

/// Reads `text` under each context.
pub fn read_text(text: &str, keys: MiniscriptKeyType) -> (r: Readings)
    ensures
        r@ == text_readings(text@, keys),
{
    match keys {
        MiniscriptKeyType::PublicKey => Readings {
            bare: Reading {
                outcome: analyze_text::<bitcoin::PublicKey, BareCtx>(text),
                script: encode_text::<BareCtx>(text),
            },
            p2sh: Reading {
                outcome: analyze_text::<bitcoin::PublicKey, Legacy>(text),
                script: encode_text::<Legacy>(text),
            },
            segwitv0: Reading {
                outcome: analyze_text::<bitcoin::PublicKey, Segwitv0>(text),
                script: encode_text::<Segwitv0>(text),
            },
            tapscript: Reading {
                outcome: analyze_text::<bitcoin::PublicKey, Tap>(text),
                script: encode_text::<Tap>(text),
            },
        },
        MiniscriptKeyType::String => Readings {
            bare: Reading { outcome: analyze_text::<String, BareCtx>(text), script: None },
            p2sh: Reading { outcome: analyze_text::<String, Legacy>(text), script: None },
            segwitv0: Reading { outcome: analyze_text::<String, Segwitv0>(text), script: None },
            tapscript: Reading { outcome: analyze_text::<String, Tap>(text), script: None },
        },
    }
}

/// Decodes `script` under each context.
pub fn read_script(script: &Vec<u8>) -> (r: Readings)
    ensures
        r@ == script_readings(script@),
{
    let bare = analyze_script::<BareCtx>(script.as_slice());
    let p2sh = analyze_script::<Legacy>(script.as_slice());
    let segwitv0 = analyze_script::<Segwitv0>(script.as_slice());
    let tapscript = analyze_script::<Tap>(script.as_slice());
    let r = Readings {
        bare: Reading { outcome: bare, script: Some(script.clone()) },
        p2sh: Reading { outcome: p2sh, script: Some(script.clone()) },
        segwitv0: Reading { outcome: segwitv0, script: Some(script.clone()) },
        tapscript: Reading { outcome: tapscript, script: Some(script.clone()) },
    };
    assert(r.bare.script.deep_view() == Some(script@)) by {
        assert(r.bare.script->0.deep_view() =~= script@);
    }
    assert(r.p2sh.script.deep_view() == Some(script@)) by {
        assert(r.p2sh.script->0.deep_view() =~= script@);
    }
    assert(r.segwitv0.script.deep_view() == Some(script@)) by {
        assert(r.segwitv0.script->0.deep_view() =~= script@);
    }
    assert(r.tapscript.script.deep_view() == Some(script@)) by {
        assert(r.tapscript.script->0.deep_view() =~= script@);
    }
    r
}

/// Reads `text` with keys written as `keys` under every context and merges
/// what the contexts make of it.
pub fn inspect_as(text: &str, keys: MiniscriptKeyType, mode: ParseMode) -> (r: Result<
    MiniscriptInfo,
    Failure,
>)
    ensures
        inspection_view(r) == inspected_as(text@, keys, mode),
        r matches Ok(info) ==> info@.wf() && info.key_type == keys,
{
    combine_readings(read_text(text, keys), keys, mode)
}

/// Inspects an expression given as text: under which contexts it is valid,
/// and its cost and safety figures. Keys are taken as public keys first, and
/// as placeholder names if no context accepts the text with public keys.
pub fn inspect(text: &str, mode: ParseMode) -> (r: Result<MiniscriptInfo, Failure>)
    ensures
        inspection_view(r) == inspected(text@, mode),
        r matches Ok(info) ==> info@.wf(),
{
    match inspect_as(text, MiniscriptKeyType::PublicKey, mode) {
        Ok(info) => Ok(info),
        Err(_) => inspect_as(text, MiniscriptKeyType::String, mode),
    }
}

/// Decodes a script under every context and merges what the contexts make
/// of it. Scripts that are not sane are decoded too, and reported as such.
pub fn parse(script: &Vec<u8>) -> (r: Result<MiniscriptInfo, Failure>)
    ensures
        inspection_view(r) == parsed(script@),
        r matches Ok(info) ==> info@.wf() && info.key_type == MiniscriptKeyType::PublicKey
            && info@.script == Some(script@),
{
    proof {
        lemma_parsed_script(script@);
    }
    combine_readings(read_script(script), MiniscriptKeyType::PublicKey, ParseMode::Insane)
}

/// The report on a script holds that script.
pub proof fn lemma_parsed_script(script: Seq<u8>)
    ensures
        parsed(script) matches Ok(info) ==> info.script == Some(script),
{
}

/// What a context accepts is reported: where decoding `script` under
/// `context` succeeds, `parse` gives a report that flags `context` as valid
/// and holds the script.
pub proof fn lemma_accepted_script_is_reported(script: Seq<u8>, context: ScriptContext)
    requires
        script_analysis(script, context) is Ok,
    ensures
        parsed(script) matches Ok(info) && info.valid_script_contexts.spec_get(context)
            && info.script == Some(script) && info.key_type == MiniscriptKeyType::PublicKey,
{
    let readings = script_readings(script);
    lemma_combined_flags(readings, MiniscriptKeyType::PublicKey, ParseMode::Insane);
    lemma_judged_wf(
        context,
        readings.get(context),
        MiniscriptKeyType::PublicKey,
        ParseMode::Insane,
    );
    lemma_parsed_script(script);
    assert(readings.get(context).outcome == script_analysis(script, context));
}

/// What a context accepts is reported: where reading `text` under
/// `context` with keys written as `keys` succeeds, the inspection with those
/// keys gives a report that flags `context` as valid.
pub proof fn lemma_accepted_text_is_reported(
    text: Seq<char>,
    context: ScriptContext,
    keys: MiniscriptKeyType,
)
    requires
        text_analysis(text, context, keys) is Ok,
    ensures
        inspected_as(text, keys, ParseMode::Insane) matches Ok(info)
            && info.valid_script_contexts.spec_get(context) && info.key_type == keys,
{
    let readings = text_readings(text, keys);
    lemma_combined_flags(readings, keys, ParseMode::Insane);
    lemma_judged_wf(context, readings.get(context), keys, ParseMode::Insane);
    assert(readings.get(context).outcome == text_analysis(text, context, keys));
}

/// Why a script given in hexadecimal gives no report.
#[derive(Clone, Debug, PartialEq, Eq)]
pub enum ParseError {
    /// The text is no hexadecimal text.
    InvalidHex,
    /// No context accepts the script.
    Invalid(Failure),
}

/// The mathematical value of a [`ParseError`].
pub enum ParseErrorView {
    InvalidHex,
    Invalid(FailureView),
}

impl View for ParseError {
    type V = ParseErrorView;

    open spec fn view(&self) -> ParseErrorView {
        match self {
            ParseError::InvalidHex => ParseErrorView::InvalidHex,
            ParseError::Invalid(f) => ParseErrorView::Invalid(f@),
        }
    }
}

/// The report on the script written as `script_hex`.
pub open spec fn parsed_hex(script_hex: Seq<char>) -> Result<MiniscriptInfoView, ParseErrorView> {
    match hex_decoded(script_hex) {
        None => Err(ParseErrorView::InvalidHex),
        Some(script) => match parsed(script) {
            Ok(info) => Ok(info),
            Err(f) => Err(ParseErrorView::Invalid(f)),
        },
    }
}

/// The value of the report on a script given in hexadecimal.
pub open spec fn parse_view(r: Result<MiniscriptInfo, ParseError>) -> Result<
    MiniscriptInfoView,
    ParseErrorView,
> {
    match r {
        Ok(info) => Ok(info@),
        Err(e) => Err(e@),
    }
}

/// Decodes a script given in hexadecimal under every context.
pub fn parse_hex(script_hex: &str) -> (r: Result<MiniscriptInfo, ParseError>)
    ensures
        parse_view(r) == parsed_hex(script_hex@),
{
    let script = match decode_hex(script_hex) {
        Some(script) => script,
        None => {
            return Err(ParseError::InvalidHex);
        },
    };
    match parse(&script) {
        Ok(info) => Ok(info),
        Err(f) => Err(ParseError::Invalid(f)),
    }
}

/// The hexadecimal text of a script is read as that script: its report is
/// the report on the script.
pub proof fn lemma_parse_hex_of_encoding(script: Seq<u8>)
    ensures
        parsed_hex(hex_encoded(script)) == (match parsed(script) {
            Ok(info) => Ok::<MiniscriptInfoView, ParseErrorView>(info),
            Err(f) => Err::<MiniscriptInfoView, ParseErrorView>(ParseErrorView::Invalid(f)),
        }),
{
    crate::encoding::lemma_hex_round_trip(script);
}

} // verus!
