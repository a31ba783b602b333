use model_bridge::memory::{remember, render_memory, Memory, CAPACITY, NO_CONTEXT};

fn filled(labels: &[&str]) -> Memory {
    let mut m = Memory::new();
    for l in labels {
        remember(&mut m, l.to_string());
    }
    m
}

fn held(m: &Memory) -> Vec<String> {
    (0..m.len()).map(|i| m.entry(i).unwrap().clone()).collect()
}

#[test]
fn new_memory_is_empty() {
    let m = Memory::new();
    assert_eq!(m.len(), 0);
    assert_eq!(m.entry(0), None);
}

#[test]
fn entry_beyond_the_newest_is_none() {
    let m = filled(&["a", "b"]);
    assert_eq!(m.entry(1).map(|s| s.as_str()), Some("b"));
    assert_eq!(m.entry(2), None);
}

#[test]
fn empty_memory_renders_sentinel() {
    let m = Memory::new();
    assert_eq!(render_memory(&m), "(no prior context)");
    assert_eq!(NO_CONTEXT, "(no prior context)");
}

#[test]
fn capacity_is_twenty() {
    assert_eq!(CAPACITY, 20);
}

#[test]
fn twenty_five_entries_keep_last_twenty() {
    let mut m = Memory::new();
    for i in 1..=25 {
        remember(&mut m, format!("{}", i));
    }
    assert_eq!(m.len(), 20);
    for k in 0..20 {
        assert_eq!(m.entry(k).unwrap().as_str(), format!("{}", k + 6));
    }
    let text = render_memory(&m);
    let lines: Vec<&str> = text.split('\n').collect();
    assert_eq!(lines.len(), 20);
    assert_eq!(lines[0], "1: 6");
    assert_eq!(lines[19], "20: 25");
}

#[test]
fn count_is_min_of_appends_and_capacity() {
    for n in 0usize..60 {
        let mut m = Memory::new();
        let mut all: Vec<String> = Vec::new();
        for i in 0..n {
            let e = format!("entry {}", i);
            all.push(e.clone());
            remember(&mut m, e);
        }
        let keep = n.min(20);
        assert_eq!(m.len(), keep);
        assert_eq!(held(&m), all[n - keep..].to_vec());
    }
}

#[test]
fn twenty_entries_evict_nothing() {
    let labels: Vec<String> = (0..20).map(|i| format!("e{}", i)).collect();
    let mut m = Memory::new();
    for l in &labels {
        remember(&mut m, l.clone());
    }
    assert_eq!(held(&m), labels);
    remember(&mut m, "last".to_string());
    assert_eq!(m.len(), 20);
    assert_eq!(m.entry(0).unwrap().as_str(), "e1");
    assert_eq!(m.entry(19).unwrap().as_str(), "last");
}

#[test]
fn render_lists_entries_in_order() {
    let m = filled(&["first", "second", "third"]);
    assert_eq!(render_memory(&m), "1: first\n2: second\n3: third");
}

#[test]
fn render_of_one_entry() {
    let m = filled(&["only"]);
    assert_eq!(render_memory(&m), "1: only");
}

#[test]
fn render_keeps_entry_text_as_it_is() {
    let m = filled(&["", "a\nb", "  spaced  "]);
    assert_eq!(render_memory(&m), "1: \n2: a\nb\n3:   spaced  ");
}

#[test]
fn render_twice_gives_the_same() {
    let m = filled(&["a", "b"]);
    let first = render_memory(&m);
    let second = render_memory(&m);
    assert_eq!(first, second);
    assert_eq!(m.len(), 2);
    let e = Memory::new();
    assert_eq!(render_memory(&e), render_memory(&e));
}

#[test]
fn render_numbers_reach_two_digits() {
    let mut m = Memory::new();
    for _ in 0..20 {
        remember(&mut m, "x".to_string());
    }
    let text = render_memory(&m);
    let lines: Vec<&str> = text.lines().collect();
    assert_eq!(lines[8], "9: x");
    assert_eq!(lines[9], "10: x");
    assert_eq!(lines[19], "20: x");
    assert!(!text.ends_with('\n'));
}
