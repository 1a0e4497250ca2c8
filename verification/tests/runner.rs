use simple_ci::runner::match_stack;
use simple_ci::runner::match_tool;
use simple_ci::runner::StackInfo;
use simple_ci::runner::TestRunner;
use std::path::PathBuf;

fn names(items: &[&str]) -> Vec<String> {
    items.iter().map(|item| item.to_string()).collect()
}

#[test]
fn fresh_info_holds_nothing() {
    let info = StackInfo::new();
    assert_eq!(info.stack(), None);
    assert_eq!(info.test_tool(), None);
}

#[test]
fn fresh_runner_has_identified_nothing() {
    let dir = PathBuf::from("some/dir");
    let runner = TestRunner::new(&dir);
    assert_eq!(runner.dir(), &dir);
    assert_eq!(runner.info().stack(), None);
    assert_eq!(runner.info().test_tool(), None);
    assert!(!runner.run());
}

#[test]
fn file_names_point_to_stacks() {
    assert_eq!(match_stack("main.rs"), Some("Rust"));
    assert_eq!(match_stack("tool.py"), Some("Python"));
    assert_eq!(match_stack("package.json"), Some("Node.js"));
    assert_eq!(match_stack("my-package.json"), Some("Node.js"));
    assert_eq!(match_stack("a.cpp"), Some("C++"));
    assert_eq!(match_stack("a.c"), Some("C"));
    assert_eq!(match_stack("a.rs.bak"), None);
    assert_eq!(match_stack("rs"), None);
    assert_eq!(match_stack("packagexjson"), None);
    assert_eq!(match_stack(""), None);
}

#[test]
fn file_names_point_to_test_tools() {
    assert_eq!(match_tool("test_main.py"), Some("Unit tests"));
    assert_eq!(match_tool("test-main.py"), Some("Unit tests"));
    assert_eq!(match_tool("main_test.go"), Some("Unit tests"));
    assert_eq!(match_tool("main_test"), Some("Unit tests"));
    assert_eq!(match_tool("pytest.ini"), Some("Pytest"));
    assert_eq!(match_tool("jest.config.js"), Some("Jest"));
    assert_eq!(match_tool("jestXconfigXjs"), Some("Jest"));
    assert_eq!(match_tool("#include <catch2/catch.hpp>"), Some("Catch2"));
    assert_eq!(match_tool("#include <CUnit/CUnit.h>"), Some("CUnit"));
    assert_eq!(match_tool("main.rs"), None);
    assert_eq!(match_tool("xpytest.ini"), None);
    assert_eq!(match_tool("(^test_|^test-|_test\\.|_test$)"), None);
}

#[test]
fn first_pattern_decides_within_one_name() {
    assert_eq!(match_tool("test_pytest.ini"), Some("Unit tests"));
}

#[test]
fn last_matching_file_decides() {
    let mut runner = TestRunner::new(&PathBuf::from("."));
    let info = runner.identify(&names(&["main.rs", "README.md", "setup.py", "notes.txt"]));
    assert_eq!(info.stack(), Some("Python"));
    assert_eq!(info.test_tool(), None);
    assert_eq!(runner.info().stack(), Some("Python"));
    assert!(!runner.run());
}

#[test]
fn stack_and_tool_are_identified_apart() {
    let mut runner = TestRunner::new(&PathBuf::from("."));
    let info = runner.identify(&names(&["test_api.py", "lib.rs", "pytest.ini", "Cargo.toml"]));
    assert_eq!(info.stack(), Some("Rust"));
    assert_eq!(info.test_tool(), Some("Pytest"));
    assert!(runner.run());
}

#[test]
fn identify_forgets_what_was_identified_before() {
    let mut runner = TestRunner::new(&PathBuf::from("."));
    runner.identify(&names(&["lib.rs", "lib_test.rs"]));
    assert!(runner.run());
    let info = runner.identify(&names(&["README.md"]));
    assert_eq!(info.stack(), None);
    assert_eq!(info.test_tool(), None);
    assert!(!runner.run());
    let info = runner.identify(&Vec::new());
    assert_eq!(info.stack(), None);
    assert_eq!(info.test_tool(), None);
}
