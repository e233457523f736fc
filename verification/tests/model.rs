use psp5d::model::cube::{enforce_local_move, neighbors_local_moves, CubeConfig};
use psp5d::model::time_trimoebius::{K1Policy, TriMoebiusState};

#[test]
fn enforces_local_move_invariant() {
    let cfg = CubeConfig { n: 3, m: 4 };
    let n = neighbors_local_moves(&[2, 2, 2], &cfg).expect("neighbors");
    assert!(n.contains(&vec![1, 2, 2]));
    assert!(n.contains(&vec![2, 3, 2]));

    enforce_local_move(&[1, 1, 1], &[1, 2, 1]).expect("valid local move");
    assert!(enforce_local_move(&[1, 1, 1], &[2, 2, 1]).is_err());
}

#[test]
fn k1_k2_bridge_policy_is_deterministic() {
    let mut s = TriMoebiusState {
        k1: 0,
        k2: 0,
        nc_tag: "nc-default".to_string(),
        policy: K1Policy::MirrorOnCommit,
    };
    s.tick();
    s.tick();
    assert_eq!(s.k1, 0);
    assert_eq!(s.k2, 2);
    s.commit();
    assert_eq!(s.k1, 2);
    assert_eq!(s.k2, 2);
}

use psp5d::digest::digest_sha256_jcs;
use psp5d::errors::CoreError;
use psp5d::json::{JsonNumber, JsonValue};
use psp5d::model::block::{make_block, BlockHeader, BlockPayload};
use psp5d::model::frontends::generic_text::text_to_uir;
use psp5d::model::frontends::json_uir::load_uir_graph;
use psp5d::model::frontends::python_ts::python_to_uir;
use psp5d::model::hdag::{enforce_acyclic_active_edges, topo_rank};
use psp5d::model::observer_r5::observe_r5_residues;
use psp5d::model::pack::{run_10_steps, run_with_input};
use psp5d::model::projection_pi::project_pi_sum;
use psp5d::model::FrontendError;
use psp5d::model::cube::validate_coord;
use psp5d::rd::{CanonSettings, FloatPolicy, RunDescriptor, SeedPolicy};
use psp5d::uir::{EdgeType, NodeType, UirEdge, UirGraph, UirNode};

fn rd() -> RunDescriptor {
    RunDescriptor {
        spec_version: "1.1".to_string(),
        engine_version: "0.1.0".to_string(),
        model_pack_version: "0.1.0".to_string(),
        seed_policy: SeedPolicy::Unseeded,
        io_policy: vec![],
        normalization_profile: "default".to_string(),
        canon: CanonSettings {
            float_policy: FloatPolicy::Q16_16RoundHalfEven,
        },
    }
}

fn sv(s: &str) -> JsonValue {
    JsonValue::Str(s.to_string())
}

fn obj(members: Vec<(&str, JsonValue)>) -> JsonValue {
    JsonValue::Object(members.into_iter().map(|(k, v)| (k.to_string(), v)).collect())
}

fn q(x: f64) -> JsonValue {
    JsonValue::Number(JsonNumber::Q16((x * 65536.0).round() as i64))
}

fn node(id: &str) -> UirNode {
    UirNode {
        id: id.to_string(),
        node_type: NodeType::Symbol,
        props: vec![],
    }
}

fn edge(id: &str, src: &str, dst: &str) -> UirEdge {
    UirEdge {
        id: id.to_string(),
        edge_type: EdgeType::FlowsTo,
        src: src.to_string(),
        dst: dst.to_string(),
        props: vec![],
    }
}

#[test]
fn detects_hdag_cycles() {
    let mut g = UirGraph {
        uir_version: "1".to_string(),
        nodes: vec![node("a"), node("b")],
        edges: vec![edge("e1", "a", "b"), edge("e2", "b", "a")],
    };
    g.canonicalize_order();
    assert!(enforce_acyclic_active_edges(&g, &rd()).is_err());
    match topo_rank(&g, &rd()) {
        Err(CoreError::InvariantViolation(m)) => assert_eq!(m, "HDAG has cycle"),
        other => panic!("unexpected {:?}", other),
    }
}

#[test]
fn hdag_ranks_follow_the_edges() {
    let g = UirGraph {
        uir_version: "1".to_string(),
        nodes: vec![node("c"), node("a"), node("b")],
        edges: vec![edge("e1", "a", "b"), edge("e2", "b", "c")],
    };
    let ranks = topo_rank(&g, &rd()).unwrap();
    assert_eq!(
        ranks,
        vec![("c".to_string(), 2), ("a".to_string(), 0), ("b".to_string(), 1)]
    );
    assert!(enforce_acyclic_active_edges(&g, &rd()).is_ok());
    let free = UirGraph {
        uir_version: "1".to_string(),
        nodes: vec![node("x"), node("y")],
        edges: vec![],
    };
    let r = topo_rank(&free, &rd()).unwrap();
    let mut seen: Vec<usize> = r.iter().map(|p| p.1).collect();
    seen.sort();
    assert_eq!(seen, vec![0, 1]);
}

#[test]
fn hdag_ranks_ignore_the_listing_order() {
    let g1 = UirGraph {
        uir_version: "1".to_string(),
        nodes: vec![node("p"), node("q"), node("r"), node("s")],
        edges: vec![edge("e1", "p", "r"), edge("e2", "q", "r"), edge("e3", "r", "s")],
    };
    let g2 = UirGraph {
        uir_version: "1".to_string(),
        nodes: vec![node("s"), node("r"), node("p"), node("q")],
        edges: vec![edge("e3", "r", "s"), edge("e1", "p", "r"), edge("e2", "q", "r")],
    };
    let mut r1 = topo_rank(&g1, &rd()).unwrap();
    let mut r2 = topo_rank(&g2, &rd()).unwrap();
    r1.sort();
    r2.sort();
    assert_eq!(r1, r2);
}

#[test]
fn generic_text_frontend_is_deterministic_and_schema_valid() {
    let text = "hello deterministic world";
    let g1 = text_to_uir("sample", text);
    let g2 = text_to_uir("sample", text);
    assert_eq!(g1, g2);
    let d1 = digest_sha256_jcs(&g1.to_json(), &rd()).expect("digest1");
    let d2 = digest_sha256_jcs(&g2.to_json(), &rd()).expect("digest2");
    assert_eq!(d1, d2);
}

#[test]
fn text_frontend_links_tokens_in_order() {
    let g = text_to_uir("m", "  hello   world ");
    let ids: Vec<&str> = g.nodes.iter().map(|n| n.id.as_str()).collect();
    assert_eq!(ids, vec!["module:m", "symbol:0:hello", "symbol:1:world"]);
    let eids: Vec<&str> = g.edges.iter().map(|e| e.id.as_str()).collect();
    assert_eq!(eids, vec!["contains:0", "contains:1", "flow:1"]);
    assert_eq!(g.edges[2].src, "symbol:0:hello");
    assert_eq!(g.nodes[1].props, vec![("token".to_string(), sv("hello"))]);
}

#[test]
fn text_frontend_graphs_are_always_valid() {
    let inputs = ["", "a a a", "1:x 1 :x 12 x", "module:m m", "tab\there\nnew line"];
    for input in inputs {
        let g = text_to_uir("m", input);
        assert!(g.validate_invariants().is_ok(), "{input:?}");
        assert!(topo_rank(&g, &rd()).is_ok(), "{input:?}");
        assert!(run_with_input(input, 9, &rd()).is_ok());
    }
}

#[test]
fn json_frontend_outputs_schema_valid_uir_and_stable_digest() {
    let decoded = UirGraph {
        uir_version: "1".to_string(),
        nodes: vec![node("b"), node("a")],
        edges: vec![edge("e", "a", "b")],
    };
    let graph = load_uir_graph(decoded).expect("json frontend should parse");
    assert_eq!(graph.nodes[0].id, "a");
    let value = graph.to_json();
    let d1 = digest_sha256_jcs(&value, &rd()).expect("digest1");
    let d2 = digest_sha256_jcs(&value, &rd()).expect("digest2");
    assert_eq!(d1, d2);
    let bad = UirGraph {
        uir_version: "1".to_string(),
        nodes: vec![node("a")],
        edges: vec![edge("e", "a", "zz")],
    };
    match load_uir_graph(bad) {
        Err(e @ FrontendError::Core(CoreError::InvariantViolation(_))) => assert_eq!(
            e.message(),
            "core error: invariant violation: edge 'e' references missing node(s)"
        ),
        other => panic!("unexpected {:?}", other),
    }
}

#[test]
fn python_frontend_records_the_root_kind() {
    let g = python_to_uir("demo", "x = 1\n").expect("python");
    let ids: Vec<&str> = g.nodes.iter().map(|n| n.id.as_str()).collect();
    assert_eq!(ids, vec!["module:demo", "root:0"]);
    assert_eq!(g.edges.len(), 1);
    assert_eq!(g.edges[0].src, "module:demo");
    assert_eq!(g.edges[0].props, vec![("kind".to_string(), sv("module"))]);
}

#[test]
fn block_digest_is_stable_when_gate_passes() {
    let rd = rd();
    let rd_digest = digest_sha256_jcs(&rd.to_json(), &rd).expect("rd digest");
    let header = || BlockHeader {
        k1: 1,
        k2: 1,
        nc_tag: "nc-default".to_string(),
        prev_digest: "sha256:0000000000000000000000000000000000000000000000000000000000000000".to_string(),
        rd_digest: rd_digest.clone(),
        pi_id: "pi_projection_v1".to_string(),
        pi_params_digest: "sha256:1111111111111111111111111111111111111111111111111111111111111111"
            .to_string(),
    };
    let payload = || BlockPayload {
        uir_digest: "sha256:2222222222222222222222222222222222222222222222222222222222222222".to_string(),
        astar_digest: "sha256:3333333333333333333333333333333333333333333333333333333333333333".to_string(),
        metrics: obj(vec![("diam", q(0.5)), ("delta_pi", q(0.5))]),
        consensus_report: obj(vec![
            ("tic_diam", JsonValue::Bool(true)),
            ("tic_pi", JsonValue::Bool(true)),
            ("score", q(2.0)),
            ("passed", JsonValue::Bool(true)),
        ]),
        artifact_digests: vec![
            "sha256:4444444444444444444444444444444444444444444444444444444444444444".to_string(),
        ],
    };
    let b1 = make_block(header(), payload(), &rd).expect("block1");
    let b2 = make_block(header(), payload(), &rd).expect("block2");
    assert_eq!(b1.block_digest, b2.block_digest);
    let doc = obj(vec![("header", b1.header.to_json()), ("payload", b1.payload.to_json())]);
    assert_eq!(b1.block_digest, digest_sha256_jcs(&doc, &rd).unwrap());
}

#[test]
fn pi_projection_sums_digest_bytes() {
    let uir = obj(vec![("x", sv("y"))]);
    let p = project_pi_sum(&uir, &rd()).unwrap();
    let d = digest_sha256_jcs(&uir, &rd()).unwrap();
    let expected: u64 = d.as_bytes().iter().map(|b| *b as u64).sum();
    assert_eq!(p.byte_sum, expected);
    assert_eq!(p.pi_id, "pi_projection_v1");
    let params = obj(vec![("method", sv("stable-byte-sum"))]);
    assert_eq!(p.pi_params_digest, digest_sha256_jcs(&params, &rd()).unwrap());
}

#[test]
fn observer_and_consensus_gate_are_deterministic() {
    let (_state, trace) = run_10_steps(&rd()).expect("engine run");
    let (_state2, trace2) = run_10_steps(&rd()).expect("engine run 2");
    assert_eq!(trace, trace2);
    let r1 = observe_r5_residues(&trace, &rd(), 5);
    let r2 = observe_r5_residues(&trace2, &rd(), 5);
    assert_eq!(r1, r2);
    assert!(r1.0 < 10_000 && r1.1 < 10_000 && r1.2 < 10_000);
}

#[test]
fn observer_reads_stride_sums_of_the_window_digest() {
    let (_state, trace) = run_10_steps(&rd()).unwrap();
    let window = &trace[trace.len() - 3..];
    let mut items = Vec::new();
    for e in window {
        items.push(obj(vec![
            ("step", JsonValue::Number(JsonNumber::U64(e.step))),
            ("role", sv(&e.role)),
            ("operator_name", sv(&e.operator_name)),
            ("in_digest", sv(&e.in_digest)),
            ("out_digest", sv(&e.out_digest)),
            ("op_evidence_digest", sv(&e.op_evidence_digest)),
        ]));
    }
    let d = digest_sha256_jcs(&JsonValue::Array(items), &rd()).unwrap();
    let b = d.as_bytes();
    let sum = |r: usize| -> u64 { b.iter().enumerate().filter(|(i, _)| i % 3 == r).map(|(_, x)| *x as u64).sum::<u64>() % 10_000 };
    assert_eq!(observe_r5_residues(&trace, &rd(), 3), (sum(0), sum(1), sum(2)));
}

#[test]
fn patch_engine_counts_steps() {
    let (state, trace) = run_10_steps(&rd()).unwrap();
    assert_eq!(trace.len(), 10);
    assert_eq!(trace[0].role, "ingest");
    assert_eq!(trace[8].operator_name, "emit_v1");
    assert_eq!(trace[9].role, "ingest");
    for k in 0..9 {
        assert_eq!(trace[k].out_digest, trace[k + 1].in_digest);
    }
    match state {
        JsonValue::Object(f) => {
            assert!(f.iter().any(|(k, v)| k == "count" && *v == JsonValue::Number(JsonNumber::U64(10))));
            assert!(f.iter().any(|(k, v)| k == "last_role" && *v == sv("ingest")));
        }
        other => panic!("unexpected {:?}", other),
    }
    let (_, t) = run_with_input("one two", 3, &rd()).unwrap();
    assert_eq!(t.len(), 3);
}

#[test]
fn coordinates_must_fit_the_cube() {
    let cfg = CubeConfig { n: 2, m: 3 };
    assert!(validate_coord(&[1, 3], &cfg).is_ok());
    assert!(validate_coord(&[0, 1], &cfg).is_err());
    assert!(validate_coord(&[1, 4], &cfg).is_err());
    assert!(validate_coord(&[1], &cfg).is_err());
}
