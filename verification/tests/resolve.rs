use contam_bridge::resolve::{bare_engine_name, choose_engine_path, engine_file_name, Candidate};

fn cand(path: &str, exists: bool) -> Candidate {
    Candidate {
        path: path.to_string(),
        exists,
    }
}

#[test]
fn prefers_adjacent_over_parent() {
    let cands = vec![
        cand("/opt/app/contam_engine", true),
        cand("/opt/contam_engine", true),
    ];
    assert_eq!(choose_engine_path(&cands), "/opt/app/contam_engine");
}

#[test]
fn prefers_parent_over_bare_name() {
    // The stub sits only in the parent directory: resolution must return that
    // parent-directory path, not the bare name.
    let cands = vec![
        cand("/opt/app/contam_engine", false),
        cand("/opt/contam_engine", true),
    ];
    assert_eq!(choose_engine_path(&cands), "/opt/contam_engine");
}

#[test]
fn falls_back_to_bare_name() {
    let cands = vec![
        cand("/opt/app/contam_engine", false),
        cand("/opt/contam_engine", false),
    ];
    assert_eq!(choose_engine_path(&cands), "contam_engine");
}

#[test]
fn no_candidates_gives_bare_name() {
    let cands: Vec<Candidate> = Vec::new();
    assert_eq!(choose_engine_path(&cands), "contam_engine");
}

#[test]
fn engine_file_name_by_platform() {
    assert_eq!(engine_file_name(true), "contam_engine.exe");
    assert_eq!(engine_file_name(false), "contam_engine");
}

#[test]
fn bare_name_is_fixed() {
    assert_eq!(bare_engine_name(), "contam_engine");
}
