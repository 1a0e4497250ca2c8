//! Which programming stack and which test tool a directory holds, judged by
//! the names of its files.

use vstd::prelude::*;
use std::path::PathBuf;

verus! {

#[verifier::external_type_specification]
#[verifier::external_body]
pub struct ExPathBuf(PathBuf);

/// Whether a regular expression finds a match anywhere in a text. `None`
/// where the pattern does not compile.
pub uninterp spec fn regex_match(pattern: Seq<char>, haystack: Seq<char>) -> Option<bool>;

/// Compiles `pattern` with `regex::Regex::new` and asks `Regex::is_match`
/// whether it matches anywhere in `haystack`. The contract only names the
/// result.
#[verifier::external_body]
fn pattern_matches(pattern: &str, haystack: &str) -> (matched: Option<bool>)
    ensures
        matched == regex_match(pattern@, haystack@),
{
    regex::Regex::new(pattern).ok().map(|compiled| compiled.is_match(haystack))
}

/// A copy of a path, through `PathBuf::clone`.
#[verifier::external_body]
fn clone_path(dir: &PathBuf) -> (copy: PathBuf)
    ensures
        copy == *dir,
{
    dir.clone()
}

/// The programming stacks the runner knows, in the order they are tried.
pub open spec fn stack_names() -> Seq<Seq<char>> {
    seq!["Rust"@, "Python"@, "Node.js"@, "C++"@, "C"@]
}

/// The file-name pattern of each programming stack.
pub open spec fn stack_patterns() -> Seq<Seq<char>> {
    seq!["\\.rs$"@, "\\.py$"@, "package\\.json$"@, "\\.cpp$"@, "\\.c$"@]
}

/// The test tools the runner knows, in the order they are tried.
pub open spec fn tool_names() -> Seq<Seq<char>> {
    seq!["Unit tests"@, "Pytest"@, "Jest"@, "Catch2"@, "CUnit"@]
}

/// The file-name pattern of each test tool.
pub open spec fn tool_patterns() -> Seq<Seq<char>> {
    seq![
        "(^test_|^test-|_test\\.|_test$)"@,
        "^pytest\\.ini$"@,
        "jest.config.js$"@,
        "#include <catch2/catch.hpp>"@,
        "#include <CUnit/CUnit.h>"@,
    ]
}

/// The name that goes with the first pattern that matches `file`.
pub open spec fn first_match(names: Seq<Seq<char>>, patterns: Seq<Seq<char>>, file: Seq<char>)
    -> Option<Seq<char>>
    decreases patterns.len(),
{
    if patterns.len() == 0 || names.len() == 0 {
        None
    } else if regex_match(patterns.first(), file) == Some(true) {
        Some(names.first())
    } else {
        first_match(names.drop_first(), patterns.drop_first(), file)
    }
}

/// What a list of file names identifies: the match of the last file that
/// matches anything.
pub open spec fn identified(names: Seq<Seq<char>>, patterns: Seq<Seq<char>>, files: Seq<Seq<char>>)
    -> Option<Seq<char>>
    decreases files.len(),
{
    if files.len() == 0 {
        None
    } else {
        match first_match(names, patterns, files.last()) {
            Some(name) => Some(name),
            None => identified(names, patterns, files.drop_last()),
        }
    }
}

/// What was identified in a directory.
#[derive(Debug, Clone, Copy)]
pub struct StackInfo {
    stack: Option<&'static str>,
    test_tool: Option<&'static str>,
}

/// The mathematical value of a `StackInfo`.
pub struct StackInfoView {
    pub stack: Option<Seq<char>>,
    pub test_tool: Option<Seq<char>>,
}

impl View for StackInfo {
    type V = StackInfoView;

    closed spec fn view(&self) -> StackInfoView {
        StackInfoView { stack: self.stack.deep_view(), test_tool: self.test_tool.deep_view() }
    }
}

impl StackInfo {
    /// Nothing identified.
    pub fn new() -> (info: StackInfo)
        ensures
            info@ == (StackInfoView { stack: None, test_tool: None }),
    {
        StackInfo { stack: None, test_tool: None }
    }

    /// The programming stack, if one was identified.
    pub fn stack(&self) -> (stack: Option<&'static str>)
        ensures
            stack.deep_view() == self@.stack,
    {
        self.stack
    }

    /// The test tool, if one was identified.
    pub fn test_tool(&self) -> (tool: Option<&'static str>)
        ensures
            tool.deep_view() == self@.test_tool,
    {
        self.test_tool
    }
}

/// One programming stack with its pattern.
fn stack_entry(i: usize) -> (entry: (&'static str, &'static str))
    requires
        i < 5,
    ensures
        entry.0@ == stack_names()[i as int],
        entry.1@ == stack_patterns()[i as int],
{
    match i {
        0 => ("Rust", "\\.rs$"),
        1 => ("Python", "\\.py$"),
        2 => ("Node.js", "package\\.json$"),
        3 => ("C++", "\\.cpp$"),
        _ => ("C", "\\.c$"),
    }
}

/// One test tool with its pattern.
fn tool_entry(i: usize) -> (entry: (&'static str, &'static str))
    requires
        i < 5,
    ensures
        entry.0@ == tool_names()[i as int],
        entry.1@ == tool_patterns()[i as int],
{
    match i {
        0 => ("Unit tests", "(^test_|^test-|_test\\.|_test$)"),
        1 => ("Pytest", "^pytest\\.ini$"),
        2 => ("Jest", "jest.config.js$"),
        3 => ("Catch2", "#include <catch2/catch.hpp>"),
        _ => ("CUnit", "#include <CUnit/CUnit.h>"),
    }
}

/// The programming stack that a file name points to.
pub fn match_stack(file: &str) -> (stack: Option<&'static str>)
    ensures
        stack.deep_view() == first_match(stack_names(), stack_patterns(), file@),
{
    let mut i: usize = 0;
    assert(stack_names().skip(0) =~= stack_names());
    assert(stack_patterns().skip(0) =~= stack_patterns());
    while i < 5
        invariant
            i <= 5,
            first_match(stack_names(), stack_patterns(), file@) == first_match(
                stack_names().skip(i as int),
                stack_patterns().skip(i as int),
                file@,
            ),
        decreases 5 - i,
    {
        let (name, pattern) = stack_entry(i);
        assert(stack_names().skip(i as int).drop_first() =~= stack_names().skip(i + 1));
        assert(stack_patterns().skip(i as int).drop_first() =~= stack_patterns().skip(i + 1));
        match pattern_matches(pattern, file) {
            Some(true) => {
                return Some(name);
            },
            _ => {},
        }
        i = i + 1;
    }
    None
}

/// The test tool that a file name points to.
pub fn match_tool(file: &str) -> (tool: Option<&'static str>)
    ensures
        tool.deep_view() == first_match(tool_names(), tool_patterns(), file@),
{
    let mut i: usize = 0;
    assert(tool_names().skip(0) =~= tool_names());
    assert(tool_patterns().skip(0) =~= tool_patterns());
    while i < 5
        invariant
            i <= 5,
            first_match(tool_names(), tool_patterns(), file@) == first_match(
                tool_names().skip(i as int),
                tool_patterns().skip(i as int),
                file@,
            ),
        decreases 5 - i,
    {
        let (name, pattern) = tool_entry(i);
        assert(tool_names().skip(i as int).drop_first() =~= tool_names().skip(i + 1));
        assert(tool_patterns().skip(i as int).drop_first() =~= tool_patterns().skip(i + 1));
        match pattern_matches(pattern, file) {
            Some(true) => {
                return Some(name);
            },
            _ => {},
        }
        i = i + 1;
    }
    None
}

/// Identifies the stack and the test tool of one directory.
pub struct TestRunner {
    dir: PathBuf,
    info: StackInfo,
}

impl TestRunner {
    /// The directory the runner looks at.
    pub closed spec fn dir_path(&self) -> PathBuf {
        self.dir
    }

    /// What the runner has identified so far.
    pub closed spec fn identified_info(&self) -> StackInfoView {
        self.info@
    }

    /// A runner for `dir` that has identified nothing yet.
    pub fn new(dir: &PathBuf) -> (runner: TestRunner)
        ensures
            runner.dir_path() == *dir,
            runner.identified_info() == (StackInfoView { stack: None, test_tool: None }),
    {
        TestRunner { dir: clone_path(dir), info: StackInfo::new() }
    }

    /// The directory the runner looks at.
    pub fn dir(&self) -> (dir: &PathBuf)
        ensures
            *dir == self.dir_path(),
    {
        &self.dir
    }

    /// What the runner has identified so far.
    pub fn info(&self) -> (info: StackInfo)
        ensures
            info@ == self.identified_info(),
    {
        self.info
    }

    /// Identifies stack and test tool from the file names found under the
    /// directory, in the order they were found, and remembers the result.
    /// Of several files that point to a stack the last one decides; within
    /// one file name the first pattern that matches decides.
    pub fn identify(&mut self, file_names: &Vec<String>) -> (info: StackInfo)
        ensures
            info@.stack == identified(stack_names(), stack_patterns(), file_names.deep_view()),
            info@.test_tool == identified(tool_names(), tool_patterns(), file_names.deep_view()),
            final(self).identified_info() == info@,
            final(self).dir_path() == old(self).dir_path(),
    {
        let mut stack: Option<&'static str> = None;
        let mut test_tool: Option<&'static str> = None;
        let ghost files = file_names.deep_view();
        let mut i: usize = 0;
        assert(files.take(0) =~= Seq::<Seq<char>>::empty());
        while i < file_names.len()
            invariant
                i <= file_names.len(),
                files == file_names.deep_view(),
                stack.deep_view() == identified(
                    stack_names(),
                    stack_patterns(),
                    files.take(i as int),
                ),
                test_tool.deep_view() == identified(
                    tool_names(),
                    tool_patterns(),
                    files.take(i as int),
                ),
            decreases file_names.len() - i,
        {
            let name = file_names[i].as_str();
            assert(files.take(i + 1).drop_last() =~= files.take(i as int));
            assert(files.take(i + 1).last() == name@);
            match match_stack(name) {
                Some(found) => {
                    stack = Some(found);
                },
                None => {},
            }
            match match_tool(name) {
                Some(found) => {
                    test_tool = Some(found);
                },
                None => {},
            }
            i = i + 1;
        }
        assert(files.take(file_names.len() as int) =~= files);
        let info = StackInfo { stack, test_tool };
        self.info = info;
        info
    }

    /// Tells whether there is anything to run: a test tool was identified.
    /// Where there is none, the caller reports that the stack could not be
    /// identified.
    pub fn run(&self) -> (ready: bool)
        ensures
            ready == self.identified_info().test_tool is Some,
    {
        self.info.test_tool.is_some()
    }
}

} // verus!
