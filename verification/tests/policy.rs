use hal::context::{MiniscriptKeyType, ScriptContext};
use hal::policy::{
    analyze_policy, get_policy_info, policy_info_from, read_shape, Miniscripts, NodeKind,
    PolicyAnalysis, PolicyError, PolicyInfo, PolicyShape,
};
use miniscript::policy::{Concrete, Liftable, Semantic};
use std::str::FromStr;

const A: &str = "02c79ef3ede6d14f72a00d0e49b4becfb152197b64c0707425c4f231df29500ee7";
const B: &str = "03d008a849fbf474bd17e9d2c1a827077a468150e58221582ec3410ab309f5afe4";

#[test]
fn a_concrete_policy_with_names() {
    let info = analyze_policy("or(pk(A),and(pk(B),older(10)))").unwrap();
    assert_eq!(
        info,
        PolicyInfo {
            is_concrete: true,
            key_type: MiniscriptKeyType::String,
            is_trivial: false,
            is_unsatisfiable: false,
            relative_timelocks: vec![10],
            n_keys: 2,
            minimum_n_keys: Some(1),
            sorted: "or(pk(A),and(pk(B),older(10)))".to_string(),
            normalized: "or(pk(A),and(pk(B),older(10)))".to_string(),
            miniscript: Some(Miniscripts {
                bare: Some("or_d(pk(A),and_v(v:pk(B),older(10)))".to_string()),
                p2sh: Some("or_d(pk(A),and_v(v:pk(B),older(10)))".to_string()),
                segwitv0: Some("or_d(pk(A),and_v(v:pk(B),older(10)))".to_string()),
                tapscript: Some("or_d(pk(A),and_v(v:pk(B),older(10)))".to_string()),
            }),
        }
    );
}

#[test]
fn a_concrete_policy_with_keys() {
    let text = format!("and(pk({}),pk({}))", A, B);
    let info = analyze_policy(&text).unwrap();
    assert!(info.is_concrete);
    assert_eq!(info.key_type, MiniscriptKeyType::PublicKey);
    assert_eq!(info.n_keys, 2);
    assert_eq!(info.minimum_n_keys, Some(2));
    assert!(info.relative_timelocks.is_empty());
    assert_eq!(info.normalized, text);
    let compiled = info.miniscript.unwrap();
    assert_eq!(compiled.segwitv0, Some(format!("and_v(v:pk({}),pk({}))", A, B)));
    assert_eq!(compiled.tapscript, Some(format!("and_v(v:pk({}),pk({}))", A, B)));
    let named = get_policy_info(&text, MiniscriptKeyType::String).unwrap();
    assert_eq!(named.key_type, MiniscriptKeyType::String);
}

#[test]
fn an_abstract_policy() {
    let info = analyze_policy("thresh(2,pk(A),pk(B),older(5),older(5))").unwrap();
    assert_eq!(info.n_keys, 2);
    assert_eq!(info.relative_timelocks, vec![5]);
    let info = analyze_policy("and(pk(A),pk(B),pk(C))").unwrap();
    assert!(!info.is_concrete);
    assert_eq!(info.key_type, MiniscriptKeyType::String);
    assert_eq!(info.miniscript, None);
    assert_eq!(info.n_keys, 3);
    assert_eq!(info.minimum_n_keys, Some(3));
    assert_eq!(info.sorted, "and(pk(A),pk(B),pk(C))");
}

#[test]
fn normalizing_twice_changes_nothing() {
    for text in [
        "and(pk(A),and(pk(B),pk(C)))",
        "or(pk(A),or(pk(B),or(pk(C),pk(D))))",
        "and(pk(A),or(pk(B),and(TRIVIAL,pk(C))))",
        "or(and(pk(A),UNSATISFIABLE),pk(B))",
        "thresh(2,pk(A),and(pk(B),pk(C)),or(older(3),older(4)))",
        "and(TRIVIAL,TRIVIAL)",
    ] {
        let once = analyze_policy(text).map(|i| i.normalized);
        let once = match once {
            Ok(n) => n,
            Err(_) => continue,
        };
        let twice = analyze_policy(&once).unwrap().normalized;
        assert_eq!(twice, once);
        let policy = Concrete::<String>::from_str(text).unwrap().lift().unwrap();
        assert_eq!(policy.clone().normalized().normalized(), policy.normalized());
    }
    let flat = analyze_policy("and(pk(A),and(pk(B),pk(C)))").unwrap();
    assert_eq!(flat.normalized, "and(pk(A),pk(B),pk(C))");
    let pruned = analyze_policy("and(pk(A),or(pk(B),and(TRIVIAL,pk(C))))").unwrap();
    assert_eq!(pruned.normalized, "and(pk(A),or(pk(B),pk(C)))");
}

#[test]
fn the_order_of_children_does_not_change_the_sorted_form() {
    let pairs = [
        ("and(pk(A),pk(B))", "and(pk(B),pk(A))"),
        ("or(pk(B),and(older(10),pk(A)))", "or(and(pk(A),older(10)),pk(B))"),
        ("thresh(2,pk(C),pk(A),pk(B))", "thresh(2,pk(A),pk(B),pk(C))"),
        ("or(older(10),after(20))", "or(after(20),older(10))"),
    ];
    for (one, other) in pairs {
        let a = analyze_policy(one).unwrap();
        let b = analyze_policy(other).unwrap();
        assert_eq!(a.sorted, b.sorted);
    }
    assert_eq!(analyze_policy("and(pk(B),pk(A))").unwrap().sorted, "and(pk(A),pk(B))");
    assert_eq!(analyze_policy("and(pk(B),pk(A))").unwrap().normalized, "and(pk(B),pk(A))");
}

#[test]
fn two_absolute_locks_can_both_hold() {
    let info = analyze_policy("and(after(100),after(50))").unwrap();
    assert!(!info.is_unsatisfiable);
    assert!(!info.is_trivial);
    assert_eq!(info.n_keys, 0);
    assert_eq!(info.minimum_n_keys, Some(0));
    assert_eq!(info.normalized, "and(after(100),after(50))");
}

#[test]
fn what_nothing_satisfies_is_reported_as_such() {
    for text in ["UNSATISFIABLE", "and(pk(A),UNSATISFIABLE)", "thresh(2,pk(A),UNSATISFIABLE)"] {
        let info = analyze_policy(text).unwrap();
        assert!(info.is_unsatisfiable);
        assert_eq!(info.minimum_n_keys, None);
        assert!(info.is_concrete);
        assert_eq!(info.normalized, "UNSATISFIABLE");
    }
    let abstract_only = analyze_policy("and(pk(A),pk(B),UNSATISFIABLE)").unwrap();
    assert!(!abstract_only.is_concrete);
    assert!(abstract_only.is_unsatisfiable);
    assert_eq!(abstract_only.minimum_n_keys, None);
    let policy = Concrete::<String>::from_str("and(pk(A),UNSATISFIABLE)").unwrap().lift().unwrap();
    assert!(policy.is_unsatisfiable());
    assert_eq!(policy.minimum_n_keys(), None);
    let trivial = analyze_policy("or(pk(A),TRIVIAL)").unwrap();
    assert!(trivial.is_trivial);
    assert!(!trivial.is_unsatisfiable);
    assert_eq!(trivial.minimum_n_keys, Some(0));
    let fine = analyze_policy("or(pk(A),UNSATISFIABLE)").unwrap();
    assert!(!fine.is_unsatisfiable);
    assert_eq!(fine.minimum_n_keys, Some(1));
}

#[test]
fn what_is_no_policy() {
    let error = analyze_policy("foo").unwrap_err();
    assert!(matches!(error, PolicyError::Invalid(_)));
    assert_eq!(error.message(), Semantic::<String>::from_str("foo").unwrap_err().to_string());
    assert!(matches!(analyze_policy(""), Err(PolicyError::Invalid(_))));
    assert!(matches!(analyze_policy("and(pk(A))"), Err(PolicyError::Invalid(_))));
}

#[test]
fn mixed_locks_are_read_as_an_abstract_policy() {
    let text = "and(after(100),after(500000001))";
    assert!(Concrete::<String>::from_str(text).is_err());
    let info = analyze_policy(text).unwrap();
    assert!(!info.is_concrete);
    assert_eq!(info.miniscript, None);
}

#[test]
fn odds_of_zero_are_not_compiled() {
    let info = analyze_policy("or(0@pk(A),0@pk(B))").unwrap();
    assert!(info.is_concrete);
    assert_eq!(
        info.miniscript,
        Some(Miniscripts { bare: None, p2sh: None, segwitv0: None, tapscript: None })
    );
    let info = analyze_policy("or(0@pk(A),1@pk(B))").unwrap();
    assert!(info.miniscript.unwrap().segwitv0.is_some());
}

#[test]
fn uncompressed_keys_are_compiled_outside_the_witness_contexts_only() {
    let key = bitcoin::PublicKey::from_str(A).unwrap();
    let uncompressed = bitcoin::PublicKey { compressed: false, inner: key.inner };
    let text = format!("pk({})", uncompressed);
    let info = analyze_policy(&text).unwrap();
    assert_eq!(info.key_type, MiniscriptKeyType::PublicKey);
    let compiled = info.miniscript.unwrap();
    assert_eq!(compiled.bare, Some(text.clone()));
    assert_eq!(compiled.p2sh, Some(text));
    assert_eq!(compiled.segwitv0, None);
    assert_eq!(compiled.tapscript, None);
}

fn shape(kinds: Vec<NodeKind>, children: Vec<usize>, odds: Vec<Vec<usize>>) -> PolicyShape {
    PolicyShape { kinds, children, odds, uncompressed: vec![] }
}

#[test]
fn the_shape_of_a_policy() {
    let read = read_shape("or(3@pk(A),0@and(pk(B),thresh(1,older(5),UNSATISFIABLE)))", MiniscriptKeyType::String)
        .unwrap();
    assert_eq!(
        read,
        PolicyShape {
            kinds: vec![
                NodeKind::Or,
                NodeKind::Key,
                NodeKind::And,
                NodeKind::Key,
                NodeKind::Thresh,
                NodeKind::Older,
                NodeKind::Unsatisfiable
            ],
            children: vec![2, 0, 2, 0, 2, 0, 0],
            odds: vec![vec![3, 0], vec![], vec![], vec![], vec![], vec![], vec![]],
            uncompressed: vec![false, false],
        }
    );
    assert!(!read.has_zero_odds());
    assert!(!read.has_unbounded_cost());
    assert!(read.compilable(ScriptContext::SegwitV0));
    let leaves = read_shape(
        "and(or(sha256(0000000000000000000000000000000000000000000000000000000000000001),hash256(0000000000000000000000000000000000000000000000000000000000000001)),or(ripemd160(0000000000000000000000000000000000000001),or(hash160(0000000000000000000000000000000000000001),or(after(7),TRIVIAL))))",
        MiniscriptKeyType::String,
    )
    .unwrap();
    assert_eq!(
        leaves.kinds,
        vec![
            NodeKind::And,
            NodeKind::Or,
            NodeKind::Sha256,
            NodeKind::Hash256,
            NodeKind::Or,
            NodeKind::Ripemd160,
            NodeKind::Or,
            NodeKind::Hash160,
            NodeKind::Or,
            NodeKind::After,
            NodeKind::Trivial
        ]
    );
    assert_eq!(leaves.odds[1], vec![1, 1]);
    assert!(read_shape("pk(A", MiniscriptKeyType::String).is_err());
    assert!(read_shape("pk(A)", MiniscriptKeyType::PublicKey).is_err());
}

#[test]
fn odds_that_cannot_be_weighed() {
    let none = shape(vec![], vec![], vec![]);
    assert!(!none.has_zero_odds());
    assert!(!none.has_unbounded_cost());
    assert!(!none.has_uncompressed_key());
    assert!(none.compilable(ScriptContext::Tapscript));
    let or = |odds: Vec<usize>| {
        shape(vec![NodeKind::Or, NodeKind::Key, NodeKind::Key], vec![2, 0, 0], vec![odds, vec![], vec![]])
    };
    assert!(or(vec![0, 0]).has_zero_odds());
    assert!(!or(vec![0, 0]).compilable(ScriptContext::Bare));
    assert!(!or(vec![0, 1]).has_zero_odds());
    assert!(!or(vec![3, 0]).has_zero_odds());
    assert!(or(vec![0, 1]).compilable(ScriptContext::SegwitV0));
    let no_odds = shape(vec![NodeKind::And, NodeKind::Key, NodeKind::Key], vec![2, 0, 0], vec![vec![]; 3]);
    assert!(!no_odds.has_zero_odds());
    let key = PolicyShape {
        kinds: vec![NodeKind::Key],
        children: vec![0],
        odds: vec![vec![]],
        uncompressed: vec![true],
    };
    assert!(key.has_uncompressed_key());
    assert!(!key.has_zero_odds());
    assert!(key.compilable(ScriptContext::Bare));
    assert!(key.compilable(ScriptContext::Legacy));
    assert!(!key.compilable(ScriptContext::SegwitV0));
    assert!(!key.compilable(ScriptContext::Tapscript));
}

#[test]
fn costs_without_bound() {
    let leaves = |kinds: Vec<NodeKind>| {
        let n = kinds.len();
        shape(kinds, vec![0; n], vec![vec![]; n])
    };
    assert!(!leaves(vec![NodeKind::Unsatisfiable]).has_unbounded_cost());
    assert!(!leaves(vec![NodeKind::Or, NodeKind::Unsatisfiable, NodeKind::Key]).has_unbounded_cost());
    assert!(leaves(vec![NodeKind::And, NodeKind::Unsatisfiable, NodeKind::Unsatisfiable])
        .has_unbounded_cost());
    assert!(leaves(vec![
        NodeKind::Unsatisfiable,
        NodeKind::Key,
        NodeKind::Trivial,
        NodeKind::Unsatisfiable
    ])
    .has_unbounded_cost());
    let two = leaves(vec![NodeKind::And, NodeKind::Unsatisfiable, NodeKind::Unsatisfiable]);
    for c in [ScriptContext::Bare, ScriptContext::Legacy, ScriptContext::SegwitV0, ScriptContext::Tapscript] {
        assert!(!two.compilable(c));
        assert!(leaves(vec![NodeKind::Unsatisfiable]).compilable(c));
    }
}

fn threshold(n: usize, keys: usize) -> PolicyShape {
    let mut kinds = vec![NodeKind::Thresh];
    let mut children = vec![n];
    for i in 0..n {
        kinds.push(if i < keys { NodeKind::Key } else { NodeKind::Older });
        children.push(0);
    }
    let odds = vec![vec![]; n + 1];
    shape(kinds, children, odds)
}

#[test]
fn thresholds_of_keys_that_no_script_hash_holds() {
    assert!(!threshold(15, 15).has_oversized_multi());
    assert!(threshold(16, 16).has_oversized_multi());
    assert!(threshold(20, 20).has_oversized_multi());
    assert!(!threshold(21, 21).has_oversized_multi());
    assert!(!threshold(16, 15).has_oversized_multi());
    let mut cut = threshold(16, 16);
    cut.kinds.pop();
    assert!(!cut.has_oversized_multi());
    let mut nested = shape(vec![NodeKind::And, NodeKind::Older], vec![2, 0], vec![vec![], vec![]]);
    let inner = threshold(17, 17);
    nested.kinds.extend(inner.kinds);
    nested.children.extend(inner.children);
    nested.odds.extend(inner.odds);
    assert!(nested.has_oversized_multi());
    let long = threshold(16, 16);
    assert!(long.compilable(ScriptContext::Bare));
    assert!(!long.compilable(ScriptContext::Legacy));
    assert!(long.compilable(ScriptContext::SegwitV0));
    assert!(long.compilable(ScriptContext::Tapscript));
    let names: Vec<String> = (0..16).map(|i| format!("pk(K{})", i)).collect();
    let info = analyze_policy(&format!("thresh(3,{})", names.join(","))).unwrap();
    let compiled = info.miniscript.unwrap();
    assert_eq!(compiled.p2sh, None);
    assert!(compiled.bare.is_some());
    assert!(compiled.segwitv0.is_some());
    assert!(compiled.tapscript.is_some());
}

#[test]
fn two_unsatisfiable_leaves_are_not_compiled() {
    let info = analyze_policy("or(0@and(UNSATISFIABLE,UNSATISFIABLE),1@pk(K))").unwrap();
    assert!(info.is_concrete);
    assert_eq!(
        info.miniscript,
        Some(Miniscripts { bare: None, p2sh: None, segwitv0: None, tapscript: None })
    );
    assert_eq!(info.minimum_n_keys, Some(1));
    let one = analyze_policy("or(0@UNSATISFIABLE,1@pk(K))").unwrap();
    assert_eq!(one.minimum_n_keys, Some(1));
    assert_eq!(one.miniscript.unwrap().segwitv0, None);
    let shape = read_shape("or(0@UNSATISFIABLE,1@pk(K))", MiniscriptKeyType::String).unwrap();
    assert!(shape.compilable(ScriptContext::SegwitV0));
}

fn found() -> PolicyAnalysis {
    PolicyAnalysis {
        is_trivial: false,
        is_unsatisfiable: false,
        relative_timelocks: vec![1, 2],
        n_keys: 3,
        minimum_n_keys: Some(2),
        sorted: "s".to_string(),
        normalized: "n".to_string(),
    }
}

#[test]
fn a_report_from_what_was_found() {
    let compiled = Miniscripts { bare: None, p2sh: None, segwitv0: Some("x".to_string()), tapscript: None };
    let info = policy_info_from(true, Ok(found()), MiniscriptKeyType::String, Some(compiled.clone()))
        .unwrap();
    assert_eq!(
        info,
        PolicyInfo {
            is_concrete: true,
            key_type: MiniscriptKeyType::String,
            is_trivial: false,
            is_unsatisfiable: false,
            relative_timelocks: vec![1, 2],
            n_keys: 3,
            minimum_n_keys: Some(2),
            sorted: "s".to_string(),
            normalized: "n".to_string(),
            miniscript: Some(compiled.clone()),
        }
    );
    let info = policy_info_from(false, Ok(found()), MiniscriptKeyType::PublicKey, Some(compiled))
        .unwrap();
    assert!(!info.is_concrete);
    assert_eq!(info.miniscript, None);
    let mut unsat = found();
    unsat.minimum_n_keys = None;
    let info = policy_info_from(true, Ok(unsat), MiniscriptKeyType::String, None).unwrap();
    assert!(info.is_unsatisfiable);
    assert_eq!(info.minimum_n_keys, None);
    let mut flagged = found();
    flagged.is_unsatisfiable = true;
    let info = policy_info_from(false, Ok(flagged), MiniscriptKeyType::String, None).unwrap();
    assert!(info.is_unsatisfiable);
    assert_eq!(info.minimum_n_keys, Some(2));
    assert_eq!(
        policy_info_from(true, Err("e".to_string()), MiniscriptKeyType::String, None),
        Err(PolicyError::Lift("e".to_string()))
    );
    assert_eq!(
        policy_info_from(false, Err("e".to_string()), MiniscriptKeyType::String, None),
        Err(PolicyError::Invalid("e".to_string()))
    );
    assert_eq!(PolicyError::Lift("e".to_string()).message(), "e");
    assert_eq!(PolicyError::Invalid("f".to_string()).message(), "f");
}
