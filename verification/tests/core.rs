use psp5d::audit::{make_ledger, verify_ledger_head, LedgerEntry};
use psp5d::canon_jcs::{canonicalize_jcs, canonicalize_with_rd, q16_decimal_text};
use psp5d::digest::digest_sha256_jcs;
use psp5d::errors::CoreError;
use psp5d::evidence::build_evidence;
use psp5d::json::{JsonNumber, JsonValue};
use psp5d::manifest::build_manifest;
use psp5d::rd::{CanonSettings, FloatPolicy, RunDescriptor, SeedPolicy};
use psp5d::replay::verify_manifest_consistency;
use psp5d::state::init_sigma_from_uir;
use psp5d::tie_break::sort_by_score_then_digest;
use psp5d::trace::TraceEntry;
use psp5d::types::ScoredValue;
use psp5d::uir::{EdgeType, NodeType, UirEdge, UirGraph, UirNode};

fn rd() -> RunDescriptor {
    RunDescriptor {
        spec_version: "1.1".to_string(),
        engine_version: "0.1.0".to_string(),
        model_pack_version: "0.1.0".to_string(),
        seed_policy: SeedPolicy::Unseeded,
        io_policy: vec![],
        normalization_profile: "default".to_string(),
        canon: CanonSettings {
            float_policy: FloatPolicy::Q16_16RoundHalfEven,
        },
    }
}

fn s(x: &str) -> JsonValue {
    JsonValue::Str(x.to_string())
}

fn obj(members: Vec<(&str, JsonValue)>) -> JsonValue {
    JsonValue::Object(members.into_iter().map(|(k, v)| (k.to_string(), v)).collect())
}

/// A number in Q16.16, as the float policy leaves a fraction.
fn q(x: f64) -> JsonValue {
    JsonValue::Number(JsonNumber::Q16((x * 65536.0).round() as i64))
}

fn num(x: i64) -> JsonValue {
    JsonValue::Number(JsonNumber::I64(x))
}

/// Reads canonical JSON back into a document, fractions in Q16.16.
fn parse(bytes: &[u8]) -> JsonValue {
    fn conv(v: &serde_json::Value) -> JsonValue {
        match v {
            serde_json::Value::Null => JsonValue::Null,
            serde_json::Value::Bool(b) => JsonValue::Bool(*b),
            serde_json::Value::Number(n) => {
                if let Some(i) = n.as_i64() {
                    JsonValue::Number(JsonNumber::I64(i))
                } else if let Some(u) = n.as_u64() {
                    JsonValue::Number(JsonNumber::U64(u))
                } else {
                    q(n.as_f64().unwrap())
                }
            }
            serde_json::Value::String(t) => JsonValue::Str(t.clone()),
            serde_json::Value::Array(items) => JsonValue::Array(items.iter().map(conv).collect()),
            serde_json::Value::Object(m) => {
                JsonValue::Object(m.iter().map(|(k, x)| (k.clone(), conv(x))).collect())
            }
        }
    }
    conv(&serde_json::from_slice(bytes).unwrap())
}

fn entry(step: u64, role: &str, name: &str, i: &str, o: &str, e: &str) -> TraceEntry {
    TraceEntry {
        step,
        role: role.to_string(),
        operator_name: name.to_string(),
        in_digest: i.to_string(),
        out_digest: o.to_string(),
        op_evidence_digest: e.to_string(),
    }
}

#[test]
fn deterministic_tie_break_uses_digest_ascending() {
    let mut values = vec![
        ScoredValue {
            score: 10 * 65536,
            payload: obj(vec![("id", s("b"))]),
        },
        ScoredValue {
            score: 10 * 65536,
            payload: obj(vec![("id", s("a"))]),
        },
        ScoredValue {
            score: 11 * 65536,
            payload: obj(vec![("id", s("top"))]),
        },
    ];

    sort_by_score_then_digest(&mut values, &rd()).expect("sort should pass");

    assert_eq!(values[0].payload, obj(vec![("id", s("top"))]));
    assert_eq!(values[1].payload, obj(vec![("id", s("a"))]));
    assert_eq!(values[2].payload, obj(vec![("id", s("b"))]));
}

#[test]
fn canon_is_idempotent_structurally() {
    let input = obj(vec![
        ("z", JsonValue::Array(vec![q(1.2345678), q(1.5), q(-2.5)])),
        ("a", obj(vec![("k", s("v")), ("n", q(1.0))])),
    ]);

    let c1 = canonicalize_with_rd(&input, &rd()).expect("canonicalization 1");
    let parsed = parse(&c1);
    let c2 = canonicalize_with_rd(&parsed, &rd()).expect("canonicalization 2");

    assert_eq!(c1, c2);
}

#[test]
fn same_object_and_rd_produce_stable_digest() {
    let obj = obj(vec![("b", num(2)), ("a", q(1.3333333333))]);
    let d1 = digest_sha256_jcs(&obj, &rd()).expect("digest 1");
    let d2 = digest_sha256_jcs(&obj, &rd()).expect("digest 2");

    assert_eq!(d1, d2);
    assert!(d1.starts_with("sha256:"));
    assert_eq!(d1.len(), 71);
}

#[test]
fn canonical_text_orders_members_and_prints_fractions() {
    let v = obj(vec![
        ("b", num(-3)),
        ("a", JsonValue::Array(vec![q(1.5), q(-2.5), q(1.0), JsonValue::Null, JsonValue::Bool(true)])),
        ("c", s("x\"y")),
    ]);
    let text = String::from_utf8(canonicalize_jcs(&v).unwrap()).unwrap();
    assert_eq!(text, r#"{"a":[1.5,-2.5,1,null,true],"b":-3,"c":"x\"y"}"#);
}

#[test]
fn q16_decimal_text_is_exact() {
    assert_eq!(q16_decimal_text(98304), "1.5");
    assert_eq!(q16_decimal_text(-163840), "-2.5");
    assert_eq!(q16_decimal_text(65536), "1.0");
    assert_eq!(q16_decimal_text(1), "0.0000152587890625");
}

#[test]
fn canonical_text_of_a_fraction_is_its_nearest_double() {
    // 2^46 + 2^-16 has no exact double; the text is that of the nearest one.
    let v = JsonValue::Array(vec![JsonValue::Number(JsonNumber::Q16((1i64 << 62) + 1)), q(0.25)]);
    let text = String::from_utf8(canonicalize_jcs(&v).unwrap()).unwrap();
    assert_eq!(text, "[70368744177664,0.25]");
}

#[test]
fn canonical_members_follow_utf16_code_units() {
    let v = obj(vec![("\u{FFFF}", num(2)), ("\u{10000}", num(1)), ("a", num(0))]);
    let text = String::from_utf8(canonicalize_jcs(&v).unwrap()).unwrap();
    assert_eq!(text, "{\"a\":0,\"\u{10000}\":1,\"\u{FFFF}\":2}");
}

#[test]
fn canonical_strings_are_in_normalization_form_c() {
    let decomposed = s("e\u{301}");
    let precomposed = s("\u{e9}");
    assert_eq!(canonicalize_jcs(&decomposed).unwrap(), canonicalize_jcs(&precomposed).unwrap());
    assert_eq!(digest_sha256_jcs(&decomposed, &rd()).unwrap(), digest_sha256_jcs(&precomposed, &rd()).unwrap());
    let text = |v: JsonValue| String::from_utf8(canonicalize_jcs(&v).unwrap()).unwrap();
    assert_eq!(text(s("a\u{301}\u{323}")), "\"\u{1ea1}\u{301}\"");
    assert_eq!(text(s("\u{1100}\u{1161}\u{11a8}")), "\"\u{ac01}\"");
    assert_eq!(text(s("\u{212b}")), "\"\u{c5}\"");
    assert_eq!(text(s("\u{344}")), "\"\u{308}\u{301}\"");
    assert_eq!(text(obj(vec![("e\u{301}", num(1))])), "{\"\u{e9}\":1}");
}

#[test]
fn digest_of_empty_object_is_its_sha256() {
    let d = digest_sha256_jcs(&obj(vec![]), &rd()).unwrap();
    assert_eq!(
        d,
        "sha256:44136fa355b3678a1146ad16f7e8649e94fb4fc21fe77e8310c060f61caaff8a"
    );
}

#[test]
fn ledger_of_a_trace_audits_against_its_last_digest() {
    let trace = vec![
        entry(0, "ingest", "ingest_v1", "sha256:a", "sha256:b", "sha256:c"),
        entry(1, "canon", "canon_v1", "sha256:b", "sha256:d", "sha256:e"),
    ];
    let ledger = make_ledger(&trace);
    assert_eq!(ledger.len(), 2);
    assert_eq!(
        ledger[0].prev_digest,
        "sha256:0000000000000000000000000000000000000000000000000000000000000000"
    );
    assert_eq!(ledger[1].prev_digest, "sha256:b");
    assert_eq!(ledger[1].kind, "canon");
    assert!(verify_ledger_head(&ledger, "sha256:d").is_ok());
    match verify_ledger_head(&ledger, "sha256:b") {
        Err(CoreError::AuditFailure(m)) => assert_eq!(m, "head digest does not match ledger tip"),
        other => panic!("unexpected {:?}", other),
    }
}

#[test]
fn ledger_audit_reports_empty_and_broken_chains() {
    match verify_ledger_head(&[], "sha256:x") {
        Err(CoreError::AuditFailure(m)) => assert_eq!(m, "empty ledger"),
        other => panic!("unexpected {:?}", other),
    }
    let broken = vec![
        LedgerEntry {
            seq: 0,
            digest: "sha256:b".to_string(),
            prev_digest: "sha256:0".to_string(),
            kind: "ingest".to_string(),
            payload_digest: "sha256:c".to_string(),
        },
        LedgerEntry {
            seq: 7,
            digest: "sha256:d".to_string(),
            prev_digest: "sha256:zz".to_string(),
            kind: "canon".to_string(),
            payload_digest: "sha256:e".to_string(),
        },
    ];
    match verify_ledger_head(&broken, "sha256:d") {
        Err(CoreError::AuditFailure(m)) => assert_eq!(m, "broken chain at seq 7"),
        other => panic!("unexpected {:?}", other),
    }
}

#[test]
fn evidence_and_manifest_agree() {
    let trace = vec![entry(0, "ingest", "ingest_v1", "sha256:a", "sha256:b", "sha256:c")];
    let ev = build_evidence(&trace, &rd(), "sha256:in".to_string()).unwrap();
    assert_eq!(ev.steps.len(), 1);
    assert_eq!(ev.input_digest, "sha256:in");
    let m = build_manifest(&rd(), "sha256:in", &ev.trace_digest, &ev, "sha256:b").unwrap();
    assert_eq!(m.hash_algorithm, "sha256");
    assert!(verify_manifest_consistency(&ev, &m).is_ok());
    let other = build_manifest(&rd(), "sha256:other", &ev.trace_digest, &ev, "sha256:b").unwrap();
    match verify_manifest_consistency(&ev, &other) {
        Err(CoreError::DeterminismViolation(msg)) => {
            assert_eq!(msg, "manifest/evidence digest mismatch")
        }
        r => panic!("unexpected {:?}", r),
    }
}

fn sample_graph() -> UirGraph {
    UirGraph {
        uir_version: "1".to_string(),
        nodes: vec![
            UirNode {
                id: "module:sample".to_string(),
                node_type: NodeType::Module,
                props: vec![],
            },
            UirNode {
                id: "symbol:0:hello".to_string(),
                node_type: NodeType::Symbol,
                props: vec![],
            },
        ],
        edges: vec![UirEdge {
            id: "contains:0".to_string(),
            edge_type: EdgeType::Contains,
            src: "module:sample".to_string(),
            dst: "symbol:0:hello".to_string(),
            props: vec![],
        }],
    }
}

#[test]
fn sigma_initialization_is_stable_and_schema_valid() {
    let graph = sample_graph();
    let s1 = init_sigma_from_uir("sigma0", &graph, &rd()).expect("sigma init 1");
    let s2 = init_sigma_from_uir("sigma0", &graph, &rd()).expect("sigma init 2");
    assert_eq!(s1.digest, s2.digest);
    assert_eq!(s1.sigma_id, "sigma0");
    assert_eq!(s1.payload, graph.to_json());
}

#[test]
fn sigma_initialization_rejects_dangling_edges() {
    let mut graph = sample_graph();
    graph.edges[0].dst = "symbol:9:nowhere".to_string();
    match init_sigma_from_uir("sigma0", &graph, &rd()) {
        Err(CoreError::InvariantViolation(m)) => {
            assert_eq!(m, "edge 'contains:0' references missing node(s)")
        }
        other => panic!("unexpected {:?}", other),
    }
}

#[test]
fn graph_invariants_report_duplicates() {
    let mut graph = sample_graph();
    graph.nodes[1].id = "module:sample".to_string();
    match graph.validate_invariants() {
        Err(CoreError::InvariantViolation(m)) => assert_eq!(m, "duplicate node id 'module:sample'"),
        other => panic!("unexpected {:?}", other),
    }
    let mut graph = sample_graph();
    let dup = UirEdge {
        id: "contains:0".to_string(),
        edge_type: EdgeType::Contains,
        src: "module:sample".to_string(),
        dst: "symbol:0:hello".to_string(),
        props: vec![],
    };
    graph.edges.push(dup);
    match graph.validate_invariants() {
        Err(CoreError::InvariantViolation(m)) => assert_eq!(m, "duplicate edge id 'contains:0'"),
        other => panic!("unexpected {:?}", other),
    }
}

#[test]
fn canonical_order_sorts_by_identifier() {
    let mut graph = sample_graph();
    graph.nodes.reverse();
    graph.canonicalize_order();
    assert_eq!(graph.nodes[0].id, "module:sample");
    assert_eq!(graph.nodes[1].id, "symbol:0:hello");
}

#[test]
fn error_messages_name_their_cause() {
    assert_eq!(
        CoreError::InvariantViolation("x".to_string()).message(),
        "invariant violation: x"
    );
    assert_eq!(
        CoreError::SchemaValidation {
            schema_name: "rd".to_string(),
            message: "bad".to_string()
        }
        .message(),
        "schema 'rd' validation failed: bad"
    );
    assert_eq!(
        CoreError::UnsupportedSchema("q".to_string()).message(),
        "unsupported schema 'q'"
    );
    assert_eq!(
        CoreError::NumberCanonicalizationFailed.message(),
        "failed to canonicalize number during float policy application"
    );
    assert_eq!(CoreError::NonFiniteNumber.message(), "json number is not finite");
}
