use hal::compile::{
    check_shape, compile, script_type, script_type_name, CompileError, ScriptOutput,
};
use hal::context::{MiniscriptKeyType, ScriptContext};
use hal::inspect::{inspect, parse, read_text, ParseMode};
use hal::policy::{analyze_policy, NodeKind, PolicyShape};
use miniscript::policy::{Concrete, Liftable};
use std::str::FromStr;

const A: &str = "02c79ef3ede6d14f72a00d0e49b4becfb152197b64c0707425c4f231df29500ee7";
const B: &str = "03d008a849fbf474bd17e9d2c1a827077a468150e58221582ec3410ab309f5afe4";
const C: &str = "02a5613bd857b7048924264d1e70e08fb2a7e6527d32b7ab1bb993ac59964ff397";

const ALL: [ScriptContext; 4] = [
    ScriptContext::Bare,
    ScriptContext::Legacy,
    ScriptContext::SegwitV0,
    ScriptContext::Tapscript,
];

#[test]
fn key_or_key_after_a_delay() {
    let text = format!("or(pk({}),and(pk({}),older(10)))", A, B);
    let script = compile(&text, ScriptContext::SegwitV0).unwrap();
    let output = ScriptOutput::of(&script);
    let key_then_delay = format!("OP_PUSHBYTES_33 {} OP_CHECKSIGVERIFY OP_PUSHNUM_10 OP_CSV", B);
    assert_eq!(
        output.assembly,
        format!(
            "OP_PUSHBYTES_33 {} OP_CHECKSIG OP_IFDUP OP_NOTIF {} OP_ENDIF",
            A, key_then_delay
        )
    );
    assert!(output.assembly.contains(&key_then_delay));
    assert_eq!(
        output.hex,
        format!("21{}ac736421{}ad5ab268", A, B)
    );
    assert_eq!(hal::encoding::from_hex(&output.hex), Some(script.clone()));
    let info = parse(&script).unwrap();
    assert!(info.valid_script_contexts.segwitv0);
    assert!(info.non_malleable.segwitv0);
    assert!(info.requires_sig);
    assert!(!info.has_mixed_timelocks);
    assert!(info.sane_miniscript.segwitv0);
    assert_eq!(info.script, Some(script));
}

#[test]
fn the_expression_implements_the_policy() {
    let policies = [
        format!("or(pk({}),and(pk({}),older(10)))", A, B),
        format!("and(pk({}),pk({}))", A, B),
        format!("thresh(2,pk({}),pk({}),pk({}))", A, B, C),
        format!("or(99@pk({}),1@and(pk({}),after(1000)))", A, B),
        format!("and(pk({}),sha256(0000000000000000000000000000000000000000000000000000000000000001))", A),
    ];
    for text in policies {
        let policy = Concrete::<bitcoin::PublicKey>::from_str(&text).unwrap();
        let wanted = policy.lift().unwrap().sorted().to_string();
        let compiled = analyze_policy(&text).unwrap().miniscript.unwrap();
        let targets = [
            (ScriptContext::Legacy, compiled.p2sh),
            (ScriptContext::SegwitV0, compiled.segwitv0),
            (ScriptContext::Tapscript, compiled.tapscript),
        ];
        for (target, expression) in targets {
            let expression = expression.unwrap();
            let info = inspect(&expression, ParseMode::Sane).unwrap();
            assert!(info.valid_script_contexts.get(target));
            assert!(info.within_resource_limits.get(target));
            assert!(info.sane_miniscript.get(target));
            let lifted = info.policy.unwrap();
            let lifted = miniscript::policy::Semantic::<bitcoin::PublicKey>::from_str(&lifted)
                .unwrap()
                .sorted()
                .to_string();
            assert_eq!(lifted, wanted);
            if target == ScriptContext::SegwitV0 {
                assert_eq!(info.script, Some(compile(&text, target).unwrap()));
            }
        }
    }
}

#[test]
fn a_key_hash_does_not_come_back_from_its_script() {
    let expression = format!("and_v(v:pkh({}),older(10))", A);
    let info = inspect(&expression, ParseMode::Sane).unwrap();
    let failure = parse(&info.script.unwrap()).unwrap_err();
    assert_eq!(failure.reason(ScriptContext::SegwitV0), "Miniscript contains raw pkh");
}

fn cost(text: &str) -> usize {
    let expression = analyze_policy(text).unwrap().miniscript.unwrap().segwitv0.unwrap();
    let readings = read_text(&expression, MiniscriptKeyType::PublicKey);
    readings.segwitv0.outcome.unwrap().max_satisfaction_size.unwrap()
}

#[test]
fn a_further_condition_does_not_lower_the_cost() {
    let base = format!("pk({})", A);
    let and = format!("and(pk({}),pk({}))", A, B);
    let and_more = format!("and(pk({}),and(pk({}),pk({})))", A, B, C);
    let and_lock = format!("and(pk({}),older(10))", A);
    assert_eq!(cost(&base), 73);
    assert_eq!(cost(&and), 146);
    assert_eq!(cost(&and_more), 219);
    assert_eq!(cost(&and_lock), 73);
    assert!(cost(&and) >= cost(&base));
    assert!(cost(&and_more) >= cost(&and));
    assert!(cost(&and_lock) >= cost(&base));
}

#[test]
fn the_largest_satisfaction_of_a_choice() {
    let both = format!("and(pk({}),pk({}))", A, B);
    let choice = format!("or(and(pk({}),pk({})),pk({}))", A, B, C);
    assert_eq!(cost(&both), 146);
    assert_eq!(cost(&choice), 146);
    let one = format!("pk({})", A);
    let wider = format!("or(pk({}),and(pk({}),pk({})))", A, B, C);
    assert_eq!(cost(&one), 73);
    assert_eq!(cost(&wider), 146);
}

#[test]
fn every_context_is_a_target() {
    let text = format!("pk({})", A);
    for target in ALL {
        let script = compile(&text, target).unwrap();
        let info = parse(&script).unwrap();
        if target != ScriptContext::Tapscript {
            assert!(info.valid_script_contexts.get(target));
        }
    }
    assert_eq!(
        ScriptOutput::of(&compile(&text, ScriptContext::Bare).unwrap()).hex,
        format!("21{}ac", A)
    );
    let tap = compile(&text, ScriptContext::Tapscript).unwrap();
    assert_eq!(tap.len(), 34);
    assert_eq!(tap[0], 0x20);
}

#[test]
fn what_does_not_compile() {
    let error = compile("pk(A)", ScriptContext::SegwitV0).unwrap_err();
    assert!(matches!(error, CompileError::InvalidPolicy(_)));
    assert!(error.message().starts_with("Invalid concrete policy: "));
    let error = compile("", ScriptContext::Bare).unwrap_err();
    assert!(matches!(error, CompileError::InvalidPolicy(_)));
    let text = format!("or(0@pk({}),0@pk({}))", A, B);
    for target in ALL {
        assert_eq!(compile(&text, target), Err(CompileError::ZeroOdds));
    }
    assert_eq!(
        CompileError::ZeroOdds.message(),
        "Compilation error: an or needs a branch with odds above zero"
    );
    let key = bitcoin::PublicKey::from_str(A).unwrap();
    let uncompressed = bitcoin::PublicKey { compressed: false, inner: key.inner };
    let text = format!("pk({})", uncompressed);
    assert!(compile(&text, ScriptContext::Bare).is_ok());
    assert!(compile(&text, ScriptContext::Legacy).is_ok());
    assert_eq!(compile(&text, ScriptContext::SegwitV0), Err(CompileError::UncompressedKey));
    assert_eq!(compile(&text, ScriptContext::Tapscript), Err(CompileError::UncompressedKey));
    assert_eq!(
        CompileError::UncompressedKey.message(),
        "Compilation error: uncompressed keys cannot be used in a witness context"
    );
    let unsafe_policy = "older(10)";
    let error = compile(unsafe_policy, ScriptContext::SegwitV0).unwrap_err();
    assert_eq!(
        error,
        CompileError::Impossible("Top Level script is not safe on some spendpath".to_string())
    );
    assert_eq!(
        error.message(),
        "Compilation error: Top Level script is not safe on some spendpath"
    );
    assert_eq!(CompileError::InvalidPolicy("x".to_string()).message(), "Invalid concrete policy: x");
}

#[test]
fn too_many_keys_for_one_script() {
    let keys: Vec<String> = (1..=25u8)
        .map(|i| {
            let mut secret = [0u8; 32];
            secret[31] = i;
            let secp = bitcoin::secp256k1::Secp256k1::new();
            let sk = bitcoin::secp256k1::SecretKey::from_slice(&secret).unwrap();
            format!("pk({})", bitcoin::secp256k1::PublicKey::from_secret_key(&secp, &sk))
        })
        .collect();
    let text = format!("thresh(25,{})", keys.join(","));
    assert!(matches!(compile(&text, ScriptContext::Legacy), Err(CompileError::Impossible(_))));
    assert!(compile(&text, ScriptContext::SegwitV0).is_ok());
    let fifteen = format!("thresh(15,{})", keys[..15].join(","));
    assert!(matches!(compile(&fifteen, ScriptContext::Legacy), Err(CompileError::Impossible(_))));
    for n in [16, 20] {
        let text = format!("thresh(3,{})", keys[..n].join(","));
        assert_eq!(compile(&text, ScriptContext::Legacy), Err(CompileError::TooManyKeys));
        assert!(compile(&text, ScriptContext::Bare).is_ok());
        assert!(compile(&text, ScriptContext::SegwitV0).is_ok());
        assert!(compile(&text, ScriptContext::Tapscript).is_ok());
        let nested = format!("and({},older(5))", text);
        assert_eq!(compile(&nested, ScriptContext::Legacy), Err(CompileError::TooManyKeys));
    }
    let mixed = format!("thresh(3,{},older(5))", keys[..16].join(","));
    assert!(compile(&mixed, ScriptContext::Legacy) != Err(CompileError::TooManyKeys));
    assert_eq!(
        CompileError::TooManyKeys.message(),
        "Compilation error: a threshold of 16 to 20 keys does not fit behind a script hash"
    );
}

fn or_shape(odds: Vec<usize>, second: NodeKind, uncompressed: bool) -> PolicyShape {
    PolicyShape {
        kinds: vec![NodeKind::Or, NodeKind::Key, second],
        children: vec![2, 0, 0],
        odds: vec![odds, vec![], vec![]],
        uncompressed: vec![uncompressed],
    }
}

#[test]
fn the_shape_is_checked_first() {
    let fine = or_shape(vec![1, 2], NodeKind::Key, false);
    for target in ALL {
        assert_eq!(check_shape(&fine, target), Ok(()));
    }
    let both = or_shape(vec![0, 0], NodeKind::Unsatisfiable, true);
    for target in ALL {
        assert_eq!(check_shape(&both, target), Err(CompileError::ZeroOdds));
    }
    let unbounded = PolicyShape {
        kinds: vec![NodeKind::Or, NodeKind::Unsatisfiable, NodeKind::Unsatisfiable],
        children: vec![2, 0, 0],
        odds: vec![vec![1, 1], vec![], vec![]],
        uncompressed: vec![true],
    };
    for target in ALL {
        assert_eq!(check_shape(&unbounded, target), Err(CompileError::UnboundedCost));
    }
    let one_leaf = or_shape(vec![0, 1], NodeKind::Unsatisfiable, false);
    for target in ALL {
        assert_eq!(check_shape(&one_leaf, target), Ok(()));
    }
    let key = or_shape(vec![0, 1], NodeKind::Key, true);
    assert_eq!(check_shape(&key, ScriptContext::Bare), Ok(()));
    assert_eq!(check_shape(&key, ScriptContext::Tapscript), Err(CompileError::UncompressedKey));
    let mut kinds = vec![NodeKind::Thresh];
    kinds.extend(vec![NodeKind::Key; 18]);
    let mut children = vec![18];
    children.extend(vec![0; 18]);
    let many = PolicyShape { kinds, children, odds: vec![vec![]; 19], uncompressed: vec![] };
    assert_eq!(check_shape(&many, ScriptContext::Legacy), Err(CompileError::TooManyKeys));
    assert_eq!(check_shape(&many, ScriptContext::Bare), Ok(()));
    assert_eq!(check_shape(&many, ScriptContext::SegwitV0), Ok(()));
}

#[test]
fn two_unsatisfiable_leaves() {
    let text = format!("or(0@and(UNSATISFIABLE,UNSATISFIABLE),1@pk({}))", A);
    for target in ALL {
        assert_eq!(compile(&text, target), Err(CompileError::UnboundedCost));
    }
    let weighed = format!("or(1@and(UNSATISFIABLE,UNSATISFIABLE),1@pk({}))", A);
    assert_eq!(compile(&weighed, ScriptContext::SegwitV0), Err(CompileError::UnboundedCost));
    let one = format!("or(0@UNSATISFIABLE,1@pk({}))", A);
    assert_eq!(
        compile(&one, ScriptContext::SegwitV0),
        Err(CompileError::Impossible(
            "At least one spending path has exceeded the standardness or consensus limits"
                .to_string()
        ))
    );
    let one_in_a_branch = format!("or(0@and(pk({}),UNSATISFIABLE),1@pk({}))", B, A);
    assert!(compile(&one_in_a_branch, ScriptContext::SegwitV0) != Err(CompileError::UnboundedCost));
    let no_leaf = format!("or(0@pk({}),1@pk({}))", B, A);
    assert!(compile(&no_leaf, ScriptContext::SegwitV0).is_ok());
    assert_eq!(
        CompileError::UnboundedCost.message(),
        "Compilation error: two unsatisfiable leaves cannot be weighed"
    );
}

#[test]
fn names_of_script_types() {
    assert_eq!(script_type("bare"), Some(ScriptContext::Bare));
    assert_eq!(script_type("p2sh"), Some(ScriptContext::Legacy));
    assert_eq!(script_type("segwitv0"), Some(ScriptContext::SegwitV0));
    assert_eq!(script_type("tapscript"), Some(ScriptContext::Tapscript));
    assert_eq!(script_type("legacy"), None);
    assert_eq!(script_type(""), None);
    assert_eq!(script_type("Bare"), None);
    for c in ALL {
        assert_eq!(script_type(script_type_name(c)), Some(c));
    }
}

#[test]
fn inspecting_what_was_compiled() {
    let text = format!("or(pk({}),and(pk({}),older(10)))", A, B);
    let script = compile(&text, ScriptContext::SegwitV0).unwrap();
    let expression = format!("or_d(pk({}),and_v(v:pk({}),older(10)))", A, B);
    let info = inspect(&expression, ParseMode::Sane).unwrap();
    assert_eq!(info.script, Some(script));
    assert!(info.non_malleable.segwitv0);
    assert!(info.requires_sig);
    assert!(!info.has_mixed_timelocks);
}
