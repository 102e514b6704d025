use std::path::Path;

use cap_cdts::paths::{absolutize, with_suffix};

/// All texts over a small alphabet up to a length.
fn texts(max: usize) -> Vec<String> {
    let mut all = vec![String::new()];
    let mut last = vec![String::new()];
    for _ in 0..max {
        let mut next: Vec<String> = Vec::new();
        for t in &last {
            for c in ['/', '.', 'a'] {
                let mut u = t.clone();
                u.push(c);
                next.push(u);
            }
        }
        all.extend(next.iter().cloned());
        last = next;
    }
    all
}

#[test]
fn joining_agrees_with_the_standard_paths() {
    let all = texts(4);
    for base in &all {
        for p in &all {
            let expected = Path::new(base).join(p);
            assert_eq!(absolutize(base, p), expected.to_str().unwrap(), "{base:?} {p:?}");
        }
    }
}

#[test]
fn suffixes_agree_with_the_standard_paths() {
    for p in texts(8) {
        let path = Path::new(&p);
        let file = match path.file_name() {
            Some(name) => name.to_str().unwrap().to_string(),
            None => "cap-cdts-backend".to_string(),
        };
        let expected = path.with_file_name(format!("{file}.old-7"));
        assert_eq!(with_suffix(&p, ".old-7"), expected.to_str().unwrap(), "{p:?}");
    }
}

#[test]
fn a_backup_stands_beside_its_binary() {
    assert_eq!(
        with_suffix("/opt/cap-cdts/app/bin/cap-cdts-backend", ".old-1700000000"),
        "/opt/cap-cdts/app/bin/cap-cdts-backend.old-1700000000"
    );
    assert_eq!(with_suffix("..", ".x"), "../cap-cdts-backend.x");
}

#[test]
fn relative_paths_are_taken_from_the_base() {
    assert_eq!(absolutize("/opt/app", "bin/new"), "/opt/app/bin/new");
    assert_eq!(absolutize("/opt/app/", "bin/new"), "/opt/app/bin/new");
    assert_eq!(absolutize("/opt/app", "/usr/bin/new"), "/usr/bin/new");
    assert_eq!(absolutize("", "bin/new"), "bin/new");
}
