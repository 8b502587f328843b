use tachyomancer::scores::{
    begin_submission, early_reply, finish_submission, hash_circuit_data, landing_page_text,
    solution_is_out_of_bounds, InMemoryScoreDatabase, SolutionData, SubmissionStep,
};

// Graph bounds of a small tutorial puzzle: area and score.
const MAX_AREA: i32 = 32;
const MAX_SCORE: u32 = 50;

fn solution(install_id: Option<u64>, puzzle: u32, score: u32, w: i32, h: i32, circuit: &str) -> SolutionData {
    SolutionData { install_id, puzzle, score, width: w, height: h, circuit: circuit.to_string() }
}

#[test]
fn out_of_bounds_solution() {
    let mut solution = solution(None, 1, 20, 5, 5, "");
    assert!(!solution_is_out_of_bounds(&solution, MAX_AREA, MAX_SCORE));

    solution.score = 5000;
    assert!(solution_is_out_of_bounds(&solution, MAX_AREA, MAX_SCORE));

    solution.score = 20;
    solution.width = 1000;
    solution.height = 1000;
    assert!(solution_is_out_of_bounds(&solution, MAX_AREA, MAX_SCORE));

    solution.width = i32::MAX;
    solution.height = i32::MAX;
    assert!(solution_is_out_of_bounds(&solution, MAX_AREA, MAX_SCORE));

    solution.width = i32::MIN;
    solution.height = i32::MIN;
    assert!(solution_is_out_of_bounds(&solution, MAX_AREA, MAX_SCORE));
}

#[test]
fn out_of_bounds_edges() {
    // Exactly at the bounds is inside.
    assert!(!solution_is_out_of_bounds(&solution(None, 1, 50, 4, 8, ""), MAX_AREA, MAX_SCORE));
    // One more cell of area is outside.
    assert!(solution_is_out_of_bounds(&solution(None, 1, 50, 3, 11, ""), MAX_AREA, MAX_SCORE));
    // Zero width is outside.
    assert!(solution_is_out_of_bounds(&solution(None, 1, 0, 0, 3, ""), MAX_AREA, MAX_SCORE));
    // A side longer than the area bound is outside even if thin.
    assert!(solution_is_out_of_bounds(&solution(None, 1, 0, 1, 33, ""), MAX_AREA, MAX_SCORE));
}

#[test]
fn circuit_hash_is_sha256_hex() {
    assert_eq!(
        hash_circuit_data("abc"),
        "ba7816bf8f01cfea414140de5dae2223b00361a396177a9cb410ff61f20015ad"
    );
    assert_eq!(
        hash_circuit_data(""),
        "e3b0c44298fc1c149afbf4c8996fb92427ae41e4649b934ca495991b7852b855"
    );
}

#[test]
fn new_database_is_empty() {
    let db = InMemoryScoreDatabase::new();
    assert_eq!(db.load_num_verified_solutions(), 0);
    assert!(db.load_scores().is_empty());
}

#[test]
fn store_then_verify_solution() {
    let mut db = InMemoryScoreDatabase::new();
    let sol = solution(Some(7), 3, 20, 4, 5, "circuit text");
    let key = db.store_new_solution(&sol);
    let (puzzle, hash) = key.clone().expect("a new solution needs verifying");
    assert_eq!(puzzle, 3);
    assert_eq!(hash, hash_circuit_data("circuit text"));
    db.store_verified_solution((puzzle, hash.clone()), 20, 20);
    assert_eq!(db.load_num_verified_solutions(), 1);
    // The same solution again needs no verification.
    assert!(db.store_new_solution(&sol).is_none());
    // Nor from another installation.
    assert!(db.store_new_solution(&solution(Some(8), 3, 20, 4, 5, "circuit text")).is_none());
    // The same circuit for another puzzle is new.
    assert!(db.store_new_solution(&solution(Some(7), 4, 20, 4, 5, "circuit text")).is_some());
    let scores = db.load_scores();
    assert_eq!(scores, vec![(3, hash, 20, 20)]);
}

#[test]
fn verifying_twice_counts_once() {
    let mut db = InMemoryScoreDatabase::new();
    let hash = hash_circuit_data("x");
    db.store_verified_solution((1, hash.clone()), 6, 9);
    db.store_verified_solution((1, hash.clone()), 6, 9);
    assert_eq!(db.load_num_verified_solutions(), 1);
    db.store_verified_solution((2, hash), 6, 9);
    assert_eq!(db.load_num_verified_solutions(), 2);
}

#[test]
fn submission_flow() {
    let mut db = InMemoryScoreDatabase::new();
    let far = solution(Some(1), 1, 5000, 2, 2, "a");
    let step = begin_submission(&mut db, &far, MAX_AREA, MAX_SCORE);
    assert!(matches!(step, SubmissionStep::OutOfBounds));
    assert_eq!(early_reply(&step), "Solution is not within graph bounds.");

    let good = solution(Some(1), 1, 10, 2, 3, "a");
    let step = begin_submission(&mut db, &good, MAX_AREA, MAX_SCORE);
    let (puzzle, hash) = match step {
        SubmissionStep::Verify(p, h) => (p, h),
        _ => panic!("expected a verification step"),
    };
    let reply = finish_submission(&mut db, puzzle, hash, &good, &Vec::new());
    assert_eq!(reply, "ok\n");
    assert_eq!(db.load_scores(), vec![(1, hash_circuit_data("a"), 6, 10)]);

    let step = begin_submission(&mut db, &good, MAX_AREA, MAX_SCORE);
    assert!(matches!(step, SubmissionStep::AlreadyVerified));
    assert_eq!(early_reply(&step), "ok\n");
}

#[test]
fn failed_verification_reports_errors() {
    let mut db = InMemoryScoreDatabase::new();
    let bad = solution(None, 2, 10, 2, 3, "b");
    let step = begin_submission(&mut db, &bad, MAX_AREA, MAX_SCORE);
    let (puzzle, hash) = match step {
        SubmissionStep::Verify(p, h) => (p, h),
        _ => panic!("expected a verification step"),
    };
    let errors = vec!["time limit".to_string(), "wrong output".to_string()];
    let reply = finish_submission(&mut db, puzzle, hash, &bad, &errors);
    assert_eq!(reply, "Circuit had errors:\n- time limit\n- wrong output\n");
    assert_eq!(db.load_num_verified_solutions(), 0);
}

#[test]
fn landing_page_counts_solutions() {
    assert_eq!(landing_page_text(0), "There are 0 verified solutions.\n");
    assert_eq!(landing_page_text(42), "There are 42 verified solutions.\n");
}
