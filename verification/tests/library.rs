//! Checks of the library's functions on concrete values.

use lever_runner_wasm::db::{clear_commands, command_count, export_commands, load_commands, seed_commands, teach, CommandDb, CommandEntry, SEED_COUNT};
use lever_runner_wasm::features::{char_index_of, intent_features};
use lever_runner_wasm::hashing::{hash_intent, to_hex_lower};
use lever_runner_wasm::keywords::keyword_fallback;
use lever_runner_wasm::pipeline::{gate_pipeline, vector_search, GateMatch};
use lever_runner_wasm::similarity::{best_similar, rank_hits, score_rank, GATE_SIMILARITY_BITS, SEARCH_SIMILARITY_BITS};
use lever_runner_wasm::text::{chars_of, contains_chars, to_ascii_lowercase};

fn bits(x: f64) -> u64 {
    x.to_bits()
}

#[test]
fn hash_matches_blake2b_128_vectors() {
    assert_eq!(hash_intent(""), "cae66941d9efbd404e4d88758ea67670");
    assert_eq!(hash_intent("abc"), "cf4ab791c62b8d2b2109c90275287816");
    assert_eq!(hash_intent("check disk usage"), "17dbe6000c6f2c2dcdc27e023cf964ad");
}

#[test]
fn hex_text_is_lower_case_two_digits_per_byte() {
    assert_eq!(to_hex_lower(&[0x00, 0x0f, 0xa0, 0xff]), "000fa0ff");
    assert_eq!(to_hex_lower(&[]), "");
}

#[test]
fn lower_casing_touches_only_ascii_letters() {
    assert_eq!(to_ascii_lowercase("Check DISK Über 42"), "check disk Über 42");
    assert_eq!(to_ascii_lowercase(""), "");
}

#[test]
fn chars_and_substrings() {
    assert_eq!(chars_of("añb"), vec!['a', 'ñ', 'b']);
    let hay = chars_of("show my ip address");
    assert!(contains_chars(&hay, &chars_of("my ip")));
    assert!(contains_chars(&hay, &chars_of("")));
    assert!(!contains_chars(&hay, &chars_of("my  ip")));
    assert!(!contains_chars(&chars_of("ab"), &chars_of("abc")));
}

#[test]
fn keyword_fallback_picks_first_matching_row() {
    assert_eq!(keyword_fallback("how much disk space"), "df -h");
    assert_eq!(keyword_fallback("memory usage"), "df -h");
    assert_eq!(keyword_fallback("free ram"), "free -h");
    assert_eq!(keyword_fallback("tail the logs"), "tail -f /var/log/syslog");
    assert_eq!(keyword_fallback("please compile"), "make");
    assert_eq!(keyword_fallback("zzz"), "echo 'Unknown intent: zzz'");
    assert_eq!(keyword_fallback(""), "echo 'Unknown intent: '");
}

#[test]
fn char_index_follows_the_character_set() {
    assert_eq!(char_index_of('a'), 0);
    assert_eq!(char_index_of('Z'), 25);
    assert_eq!(char_index_of('0'), 26);
    assert_eq!(char_index_of('9'), 35);
    assert_eq!(char_index_of(' '), 36);
    assert_eq!(char_index_of('_'), 37);
    assert_eq!(char_index_of('-'), 38);
    assert_eq!(char_index_of('.'), 39);
    assert_eq!(char_index_of('/'), 40);
    assert_eq!(char_index_of('#'), 40);
    // Characters outside the set, non-ASCII ones included, take the last slot.
    assert_eq!(char_index_of('\u{0161}'), 40);
    assert_eq!(char_index_of('é'), 40);
}

#[test]
fn features_of_a_short_intent() {
    let f = intent_features("Ls -la /tmp");
    assert_eq!(f.char_count, 11);
    assert_eq!(f.char_buckets, vec![5, 9, 18, 19, 5, 0, 18, 20, 9, 6, 7]);
    let chars: Vec<char> = "ls -la /tmp".chars().collect();
    let expected: Vec<usize> = (0..10).map(|i| ((chars[i] as usize) * 31 + chars[i + 1] as usize) % 16).collect();
    assert_eq!(f.bigram_buckets, expected);
    assert_eq!(f.words, 3);
    assert_eq!(f.word_bytes, 9);
    assert_eq!(f.distinct, 9);
    assert!(!f.has_digit);
    assert!(f.has_path);
    assert_eq!(f.separators, 3);
}

#[test]
fn features_of_the_empty_intent_are_zero() {
    let f = intent_features("");
    assert_eq!(f.char_count, 0);
    assert!(f.char_buckets.is_empty());
    assert!(f.bigram_buckets.is_empty());
    assert_eq!((f.words, f.word_bytes, f.distinct, f.separators), (0, 0, 0, 0));
    assert!(!f.has_digit && !f.has_path);
}

#[test]
fn features_count_unicode_words_and_bytes() {
    let f = intent_features("é\u{00A0}ab\tc9");
    assert_eq!(f.char_count, 7);
    assert_eq!(f.words, 3);
    assert_eq!(f.word_bytes, 2 + 2 + 2);
    assert!(f.has_digit);
    assert_eq!(f.bigram_buckets.len(), 6);
}

#[test]
fn thresholds_are_the_bits_of_their_floats() {
    assert_eq!(GATE_SIMILARITY_BITS, 0.75f64.to_bits());
    assert_eq!(SEARCH_SIMILARITY_BITS, 0.01f64.to_bits());
}

#[test]
fn score_rank_orders_like_floats() {
    let values = [
        f64::NEG_INFINITY, -1.0e300, -2.5, -1.0, -0.01, -1.0e-300, -0.0, 0.0, 1.0e-300, 0.01, 0.5,
        0.75, 0.7500000000000001, 1.0, 3.0, 1.0e300, f64::INFINITY,
    ];
    for a in values.iter() {
        for b in values.iter() {
            let (ra, rb) = (score_rank(bits(*a)), score_rank(bits(*b)));
            assert_eq!(a < b, ra < rb, "{} < {}", a, b);
            assert_eq!(a == b, ra == rb, "{} == {}", a, b);
        }
    }
    assert_eq!(score_rank(bits(f64::NAN)), 0);
    assert!(score_rank(bits(f64::NEG_INFINITY)) > 0);
}

#[test]
fn best_similar_takes_first_of_the_highest_above_threshold() {
    let scores: Vec<u64> = [0.5, 0.8, 0.9, 0.9, f64::NAN, 0.75].iter().map(|s| bits(*s)).collect();
    assert_eq!(best_similar(&scores), Some(2));
    let low: Vec<u64> = [0.75, 0.1, f64::NAN, -1.0].iter().map(|s| bits(*s)).collect();
    assert_eq!(best_similar(&low), None);
    assert_eq!(best_similar(&vec![]), None);
}

#[test]
fn rank_hits_filters_sorts_stably_and_truncates() {
    let raw_f = [0.5, 0.005, 0.9, 0.5004, f64::NAN, 0.2];
    let raw: Vec<u64> = raw_f.iter().map(|s| bits(*s)).collect();
    let rounded: Vec<u64> = raw_f.iter().map(|s| bits((s * 1000.0).round() / 1000.0)).collect();
    // 0.5 and 0.5004 both round to 0.5: entry 0 stays before entry 3.
    assert_eq!(rank_hits(&raw, &rounded, 10), vec![2, 0, 3, 5]);
    assert_eq!(rank_hits(&raw, &rounded, 2), vec![2, 0]);
    assert_eq!(rank_hits(&raw, &rounded, 0), Vec::<usize>::new());
}

#[test]
fn gate_one_prefers_the_first_entry_with_the_same_hash() {
    let mut db = CommandDb::new();
    teach(&mut db, "restart nginx", "systemctl restart nginx");
    teach(&mut db, "restart nginx", "service nginx restart");
    let result = gate_pipeline(&db, "restart nginx", &vec![bits(0.99), bits(0.99)]);
    assert!(matches!(result.answer, GateMatch::ExactHash(0)));
    assert_eq!(result.hash, hash_intent("restart nginx"));
}

#[test]
fn gate_three_lowercases_before_keywords() {
    let mut db = CommandDb::new();
    teach(&mut db, "something else", "true");
    let result = gate_pipeline(&db, "Show DOCKER images", &vec![bits(0.74)]);
    match result.answer {
        GateMatch::Keyword(c) => assert_eq!(c, "docker ps"),
        _ => panic!("no hash match and no similarity above 0.75 → gate 3"),
    }
}

#[test]
fn vector_search_returns_ranked_entry_indices() {
    let mut db = CommandDb::new();
    seed_commands(&mut db);
    let n = command_count(&db);
    let raw: Vec<u64> = (0..n).map(|i| bits(if i == 7 { 0.93 } else if i == 3 { 0.4 } else { 0.0 })).collect();
    let ranked = vector_search(&db, &raw, &raw.clone(), 5);
    assert_eq!(ranked, vec![7, 3]);
    assert_eq!(db.entries()[7].command, "docker ps");
}

#[test]
fn seed_then_clear() {
    let mut db = CommandDb::new();
    assert_eq!(seed_commands(&mut db), SEED_COUNT);
    assert_eq!(SEED_COUNT, 30);
    assert_eq!(db.entries()[0].intent, "check disk usage");
    assert_eq!(db.entries()[29].command, "tar czf ");
    clear_commands(&mut db);
    assert_eq!(command_count(&db), 0);
    assert!(export_commands(&db).is_empty());
}

#[test]
fn load_prefers_the_array_reading_and_ignores_failures() {
    let mut db = CommandDb::new();
    teach(&mut db, "a", "b");
    let n = load_commands(&mut db, Some(vec![CommandEntry::new("x", "1")]), Some(vec![CommandEntry::new("y", "2"), CommandEntry::new("z", "3")]));
    assert_eq!(n, 1);
    assert_eq!(load_commands(&mut db, None, None), 0);
    let exported = export_commands(&db);
    let pairs: Vec<(String, String)> = exported.into_iter().map(|e| (e.intent, e.command)).collect();
    assert_eq!(pairs, vec![("a".to_string(), "b".to_string()), ("x".to_string(), "1".to_string())]);
}
