//! Scenarios of the command database and pipeline, with the similarities
//! that the embedding side would supply given as `f64` bit patterns.

use lever_runner_wasm::db::{clear_commands, command_count, export_commands, load_commands, seed_commands, teach, CommandDb, CommandEntry};
use lever_runner_wasm::hashing::hash_intent;
use lever_runner_wasm::pipeline::{gate_pipeline, vector_search, GateMatch};

fn bits(x: f64) -> u64 {
    x.to_bits()
}

fn rounded_bits(x: f64) -> u64 {
    ((x * 1000.0).round() / 1000.0).to_bits()
}

#[test]
fn test_hash_intent_deterministic() {
    let h1 = hash_intent("check disk usage");
    let h2 = hash_intent("check disk usage");
    assert_eq!(h1, h2, "hash must be deterministic");
    assert_eq!(h1.len(), 32, "hash must be 32 hex chars (BLAKE2b-128)");
}

#[test]
fn test_hash_intent_different_inputs() {
    let h1 = hash_intent("check disk usage");
    let h2 = hash_intent("show memory");
    assert_ne!(h1, h2, "different inputs must produce different hashes");
}

#[test]
fn test_teach_and_search() {
    let mut db = CommandDb::new();
    clear_commands(&mut db);
    teach(&mut db, "xcheck_disk_space_x", "df -h");
    teach(&mut db, "xshow_memory_usage_x", "free -h");
    teach(&mut db, "xlist_processes_x", "ps aux");

    // The query is the first intent itself: similarity 1 with it.
    let scores = [1.0, 0.62, 0.48];
    let raw: Vec<u64> = scores.iter().map(|s| bits(*s)).collect();
    let rounded: Vec<u64> = scores.iter().map(|s| rounded_bits(*s)).collect();
    let results = vector_search(&db, &raw, &rounded, 3);
    assert!(!results.is_empty());
    let commands: Vec<&str> = results.iter().map(|i| db.entries()[*i].command.as_str()).collect();
    assert!(commands.contains(&"df -h"), "should find df -h, got: {:?}", commands);
}

#[test]
fn test_gate_pipeline_exact() {
    let mut db = CommandDb::new();
    clear_commands(&mut db);
    teach(&mut db, "xunique_exact_test_42", "echo EXACT_HIT");
    let result = gate_pipeline(&db, "xunique_exact_test_42", &vec![bits(1.0)]);
    match result.answer {
        GateMatch::ExactHash(i) => assert_eq!(db.entries()[i].command, "echo EXACT_HIT"),
        _ => panic!("exact match → gate 1"),
    }
    assert_eq!(result.hash, hash_intent("xunique_exact_test_42"));
}

#[test]
fn test_gate_pipeline_similar() {
    let mut db = CommandDb::new();
    clear_commands(&mut db);
    teach(&mut db, "xcheck_disk_usage_sim", "df -h");
    let result = gate_pipeline(&db, "xcheck_disk_usage_sim similar", &vec![bits(0.91)]);
    match result.answer {
        GateMatch::Similar(i) => assert_eq!(db.entries()[i].command, "df -h"),
        _ => panic!("a similarity above 0.75 → gate 2"),
    }
}

#[test]
fn test_gate_pipeline_fallback() {
    let mut db = CommandDb::new();
    clear_commands(&mut db);
    let result = gate_pipeline(&db, "xyzzy_plugh_nothing_matchable", &vec![]);
    match result.answer {
        GateMatch::Keyword(command) => {
            assert_eq!(command, "echo 'Unknown intent: xyzzy_plugh_nothing_matchable'")
        }
        _ => panic!("unknown intent → gate 3"),
    }
}

#[test]
fn test_seed_commands() {
    let mut db = CommandDb::new();
    clear_commands(&mut db);
    let count = seed_commands(&mut db);
    assert!(count >= 25, "should seed at least 25 commands, got {}", count);
    assert_eq!(command_count(&db), count, "count should match after seed");
}

#[test]
fn test_export_commands() {
    let mut db = CommandDb::new();
    clear_commands(&mut db);
    teach(&mut db, "xexport_test", "echo export");
    let exported = export_commands(&db);
    assert!(exported.iter().any(|e| e.intent == "xexport_test"));
    assert!(exported.iter().any(|e| e.command == "echo export"));
}

#[test]
fn test_load_commands_json() {
    let mut db = CommandDb::new();
    clear_commands(&mut db);
    // [{"intent":"xload1","command":"echo 1"},{"intent":"xload2","command":"echo 2"}]
    let as_array = vec![CommandEntry::new("xload1", "echo 1"), CommandEntry::new("xload2", "echo 2")];
    let count = load_commands(&mut db, Some(as_array), None);
    assert_eq!(count, 2);
    assert_eq!(command_count(&db), 2);
}

#[test]
fn test_load_commands_wrapped() {
    let mut db = CommandDb::new();
    clear_commands(&mut db);
    // {"commands":[{"intent":"xwrap1","command":"echo w"}]}
    let as_wrapped = vec![CommandEntry::new("xwrap1", "echo w")];
    let count = load_commands(&mut db, None, Some(as_wrapped));
    assert_eq!(count, 1);
}
