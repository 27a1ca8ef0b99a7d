use trading_engine::ide::{language_from_str, supported_languages, IdeFile, IdeState, Language};

fn file(name: &str) -> IdeFile {
    IdeFile {
        name: name.to_string(),
        content: String::new(),
        path: None,
        is_dirty: false,
        error_lines: vec![],
        language: "Rust".to_string(),
    }
}

#[test]
fn default_editor_state() {
    let s = IdeState::default();
    assert!(s.files.is_empty());
    assert_eq!(s.current_file, 0);
    assert_eq!(s.console_output, "");
    assert!(!s.is_running);
    assert!(!s.is_paused);
    assert!(s.breakpoints.is_empty());
    assert!(s.variables.is_empty());
    assert!(s.error.is_none());
    assert_eq!(s.current_line, 0);
}

#[test]
fn run_starts_even_without_a_file() {
    let mut s = IdeState::default();
    s.console_output = "old".to_string();
    s.run_algorithm();
    assert!(s.is_running);
    assert!(!s.is_paused);
    assert_eq!(s.console_output, "Running algorithm...");
    let mut t = IdeState::default();
    t.files.push(file("a.rs"));
    t.run_algorithm();
    assert!(t.is_running);
    assert_eq!(t.console_output, "Running algorithm...");
}

#[test]
fn pause_messages() {
    let mut s = IdeState::default();
    s.pause_algorithm();
    assert!(!s.is_paused);
    assert_eq!(s.console_output, "\nCannot pause: Algorithm is not running.");
    s.run_algorithm();
    s.pause_algorithm();
    assert!(s.is_paused);
    assert_eq!(s.console_output, "Running algorithm...\nAlgorithm paused.");
    s.pause_algorithm();
    assert!(s.is_paused);
    assert_eq!(
        s.console_output,
        "Running algorithm...\nAlgorithm paused.\nAlgorithm is already paused."
    );
}

#[test]
fn step_advances_only_while_running() {
    let mut s = IdeState::default();
    s.step();
    assert_eq!(s.current_line, 0);
    assert_eq!(s.console_output, "\nCannot step: Algorithm is not running.");
    s.run_algorithm();
    s.step();
    s.step();
    assert_eq!(s.current_line, 2);
    assert_eq!(
        s.console_output,
        "Running algorithm...\nStepped to line 1.\nStepped to line 2."
    );
    s.pause_algorithm();
    s.step();
    assert_eq!(s.current_line, 2);
    assert!(s.console_output.ends_with("\nCannot step: Algorithm is paused."));
}

#[test]
fn stop_and_reset() {
    let mut s = IdeState::default();
    s.run_algorithm();
    s.pause_algorithm();
    s.stop_algorithm();
    assert!(!s.is_running);
    assert!(!s.is_paused);
    assert!(s.console_output.ends_with("\nAlgorithm stopped."));
    s.add_breakpoint();
    assert_eq!(s.breakpoints, vec![0]);
    assert!(s.console_output.ends_with("\nBreakpoint added."));
    s.current_line = 9;
    s.reset_environment();
    assert!(s.breakpoints.is_empty());
    assert!(s.variables.is_empty());
    assert_eq!(s.console_output, "");
    assert!(!s.is_running);
    assert_eq!(s.current_line, 9);
}

#[test]
fn language_of_current_file() {
    let mut s = IdeState::default();
    s.set_current_language("Go".to_string());
    assert!(s.files.is_empty());
    s.files.push(file("a.rs"));
    s.files.push(file("b.rs"));
    s.current_file = 1;
    s.set_current_language("Python".to_string());
    assert_eq!(s.files[0].language, "Rust");
    assert_eq!(s.files[1].language, "Python");
    assert_eq!(s.files[1].name, "b.rs");
}

#[test]
fn language_names() {
    assert_eq!(language_from_str("C"), Language::C);
    assert_eq!(language_from_str("C++"), Language::Cpp);
    assert_eq!(language_from_str("C#"), Language::CSharp);
    assert_eq!(language_from_str("Python"), Language::Python);
    assert_eq!(language_from_str("JavaScript"), Language::JavaScript);
    assert_eq!(language_from_str("Rust"), Language::Rust);
    assert_eq!(language_from_str("Go"), Language::Go);
    assert_eq!(language_from_str("Cobol"), Language::PlainText);
    for l in supported_languages() {
        assert_eq!(language_from_str(l.display_name()), l);
    }
    assert_eq!(supported_languages().len(), 8);
}
