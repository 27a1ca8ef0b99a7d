use vstd::prelude::*;
use crate::text::{decimal, decimal_text, join3, same_text};

verus! {

/// A file open in the algorithm editor.
#[derive(Clone, Debug)]
pub struct IdeFile {
    pub name: String,
    pub content: String,
    pub path: Option<String>,
    /// Unsaved changes.
    pub is_dirty: bool,
    pub error_lines: Vec<usize>,
    /// The language used for syntax highlighting.
    pub language: String,
}

/// A variable shown in the debugger's watch list.
#[derive(Clone, Debug)]
pub struct VariableWatch {
    pub name: String,
    pub value: String,
}

/// The state of the algorithm editor and its debugger.
#[derive(Clone, Debug)]
pub struct IdeState {
    /// Open files.
    pub files: Vec<IdeFile>,
    /// Index of the current file.
    pub current_file: usize,
    /// Output of prints and of the debugger.
    pub console_output: String,
    /// The algorithm is running.
    pub is_running: bool,
    /// The algorithm is paused.
    pub is_paused: bool,
    /// Lines with a breakpoint.
    pub breakpoints: Vec<usize>,
    /// Watched variables.
    pub variables: Vec<VariableWatch>,
    pub error: Option<String>,
    /// The debugger's current line.
    pub current_line: usize,
}

/// The languages the editor highlights.
#[derive(Clone, Copy, Debug, PartialEq, Eq, Structural)]
pub enum Language {
    C,
    Cpp,
    CSharp,
    Python,
    JavaScript,
    Rust,
    Go,
    PlainText,
}

impl Language {
    /// The name under which the language is offered in the language picker.
    pub fn display_name(&self) -> (r: &'static str)
        ensures
            r@ == language_name(*self),
    {
        match self {
            Language::C => "C",
            Language::Cpp => "C++",
            Language::CSharp => "C#",
            Language::Python => "Python",
            Language::JavaScript => "JavaScript",
            Language::Rust => "Rust",
            Language::Go => "Go",
            Language::PlainText => "Plain Text",
        }
    }
}

/// The picker name of each language.
pub open spec fn language_name(l: Language) -> Seq<char> {
    match l {
        Language::C => "C"@,
        Language::Cpp => "C++"@,
        Language::CSharp => "C#"@,
        Language::Python => "Python"@,
        Language::JavaScript => "JavaScript"@,
        Language::Rust => "Rust"@,
        Language::Go => "Go"@,
        Language::PlainText => "Plain Text"@,
    }
}

/// The language a picker name selects; any other name selects plain text.
pub open spec fn language_of_name(name: Seq<char>) -> Language {
    if name == "C"@ {
        Language::C
    } else if name == "C++"@ {
        Language::Cpp
    } else if name == "C#"@ {
        Language::CSharp
    } else if name == "Python"@ {
        Language::Python
    } else if name == "JavaScript"@ {
        Language::JavaScript
    } else if name == "Rust"@ {
        Language::Rust
    } else if name == "Go"@ {
        Language::Go
    } else {
        Language::PlainText
    }
}

/// Maps a language name to the language used for highlighting; an unknown
/// name gives plain text.
pub fn language_from_str(lang: &str) -> (r: Language)
    ensures
        r == language_of_name(lang@),
{
    if same_text(lang, "C") {
        Language::C
    } else if same_text(lang, "C++") {
        Language::Cpp
    } else if same_text(lang, "C#") {
        Language::CSharp
    } else if same_text(lang, "Python") {
        Language::Python
    } else if same_text(lang, "JavaScript") {
        Language::JavaScript
    } else if same_text(lang, "Rust") {
        Language::Rust
    } else if same_text(lang, "Go") {
        Language::Go
    } else {
        Language::PlainText
    }
}

/// Choosing a language by its picker name selects that very language.
pub proof fn lemma_language_names_select_their_language(l: Language)
    ensures
        language_of_name(language_name(l)) == l,
{
    reveal_strlit("C");
    reveal_strlit("C++");
    reveal_strlit("C#");
    reveal_strlit("Python");
    reveal_strlit("JavaScript");
    reveal_strlit("Rust");
    reveal_strlit("Go");
    reveal_strlit("Plain Text");
    let names = seq!["C"@, "C++"@, "C#"@, "Python"@, "JavaScript"@, "Rust"@, "Go"@, "Plain Text"@];
    assert forall|i: int, j: int| 0 <= i < j < 8 implies names[i] != names[j] by {
        if names[i].len() == names[j].len() {
            if names[i][0] == names[j][0] {
                assert(names[i][1] != names[j][1]);
            } else {
                assert(names[i][0] != names[j][0]);
            }
        }
    }
    assert(names[0] == "C"@ && names[1] == "C++"@ && names[2] == "C#"@ && names[3] == "Python"@);
    assert(names[4] == "JavaScript"@ && names[5] == "Rust"@ && names[6] == "Go"@);
    assert(names[7] == "Plain Text"@);
}

/// The languages in the order the language picker offers them.
pub fn supported_languages() -> (r: Vec<Language>)
    ensures
        r@ == seq![
            Language::C,
            Language::Cpp,
            Language::CSharp,
            Language::Python,
            Language::JavaScript,
            Language::Rust,
            Language::Go,
            Language::PlainText,
        ],
{
    let mut r: Vec<Language> = Vec::new();
    r.push(Language::C);
    r.push(Language::Cpp);
    r.push(Language::CSharp);
    r.push(Language::Python);
    r.push(Language::JavaScript);
    r.push(Language::Rust);
    r.push(Language::Go);
    r.push(Language::PlainText);
    r
}

/// A file whose highlighting language is replaced.
pub open spec fn with_language(f: IdeFile, lang: String) -> IdeFile {
    IdeFile {
        name: f.name,
        content: f.content,
        path: f.path,
        is_dirty: f.is_dirty,
        error_lines: f.error_lines,
        language: lang,
    }
}

impl IdeState {
    /// A paused algorithm is always a running one.
    pub open spec fn controls_consistent(&self) -> bool {
        self.is_paused ==> self.is_running
    }

    /// The state is unchanged but for the console and the run flags.
    pub open spec fn same_workspace(&self, other: &IdeState) -> bool {
        &&& self.files@ == other.files@
        &&& self.current_file == other.current_file
        &&& self.breakpoints@ == other.breakpoints@
        &&& self.variables@ == other.variables@
        &&& self.error == other.error
        &&& self.current_line == other.current_line
    }

    /// Run: starts the algorithm and clears the console to say so.
    pub fn run_algorithm(&mut self)
        ensures
            final(self).is_running,
            !final(self).is_paused,
            final(self).console_output@ == "Running algorithm..."@,
            final(self).same_workspace(old(self)),
            final(self).controls_consistent(),
    {
        if self.current_file < self.files.len() {
            self.console_output = String::new();
            self.is_running = true;
            self.is_paused = false;
        } else {
            self.console_output = String::from_str("Error: No file selected.");
            self.is_running = false;
        }
        self.is_running = true;
        self.is_paused = false;
        self.console_output = String::from_str("Running algorithm...");
    }

    /// Pause: pauses a running algorithm, or says why it cannot.
    pub fn pause_algorithm(&mut self)
        ensures
            old(self).is_running && !old(self).is_paused ==> {
                &&& final(self).is_paused
                &&& final(self).console_output@ == old(self).console_output@
                    + "\nAlgorithm paused."@
            },
            !old(self).is_running ==> {
                &&& final(self).is_paused == old(self).is_paused
                &&& final(self).console_output@ == old(self).console_output@
                    + "\nCannot pause: Algorithm is not running."@
            },
            old(self).is_running && old(self).is_paused ==> {
                &&& final(self).is_paused
                &&& final(self).console_output@ == old(self).console_output@
                    + "\nAlgorithm is already paused."@
            },
            final(self).is_running == old(self).is_running,
            final(self).same_workspace(old(self)),
            old(self).controls_consistent() ==> final(self).controls_consistent(),
    {
        if self.is_running && !self.is_paused {
            self.is_paused = true;
            self.console_output.append("\nAlgorithm paused.");
        } else if !self.is_running {
            self.console_output.append("\nCannot pause: Algorithm is not running.");
        } else if self.is_paused {
            self.console_output.append("\nAlgorithm is already paused.");
        }
    }

    /// Stop: stops the algorithm, running or not.
    pub fn stop_algorithm(&mut self)
        ensures
            !final(self).is_running,
            !final(self).is_paused,
            final(self).console_output@ == old(self).console_output@ + "\nAlgorithm stopped."@,
            final(self).same_workspace(old(self)),
            final(self).controls_consistent(),
    {
        self.is_running = false;
        self.is_paused = false;
        self.console_output.append("\nAlgorithm stopped.");
    }

    /// Reset: clears watched variables, breakpoints and the console, and
    /// stops the algorithm.
    pub fn reset_environment(&mut self)
        ensures
            final(self).variables@.len() == 0,
            final(self).breakpoints@.len() == 0,
            final(self).console_output@.len() == 0,
            !final(self).is_running,
            !final(self).is_paused,
            final(self).files@ == old(self).files@,
            final(self).current_file == old(self).current_file,
            final(self).error == old(self).error,
            final(self).current_line == old(self).current_line,
            final(self).controls_consistent(),
    {
        self.variables.clear();
        self.breakpoints.clear();
        self.console_output = String::new();
        self.is_running = false;
        self.is_paused = false;
    }

    /// Step: moves a running, unpaused algorithm to the next line, or says
    /// why it cannot.
    pub fn step(&mut self)
        requires
            old(self).is_running && !old(self).is_paused ==> old(self).current_line < usize::MAX,
        ensures
            old(self).is_running && !old(self).is_paused ==> {
                &&& final(self).current_line == old(self).current_line + 1
                &&& final(self).console_output@ == old(self).console_output@
                    + "\nStepped to line "@ + decimal(final(self).current_line as nat) + "."@
            },
            !old(self).is_running ==> {
                &&& final(self).current_line == old(self).current_line
                &&& final(self).console_output@ == old(self).console_output@
                    + "\nCannot step: Algorithm is not running."@
            },
            old(self).is_running && old(self).is_paused ==> {
                &&& final(self).current_line == old(self).current_line
                &&& final(self).console_output@ == old(self).console_output@
                    + "\nCannot step: Algorithm is paused."@
            },
            final(self).is_running == old(self).is_running,
            final(self).is_paused == old(self).is_paused,
            final(self).files@ == old(self).files@,
            final(self).current_file == old(self).current_file,
            final(self).breakpoints@ == old(self).breakpoints@,
            final(self).variables@ == old(self).variables@,
            final(self).error == old(self).error,
    {
        if self.is_running && !self.is_paused {
            self.current_line = self.current_line + 1;
            let line = decimal_text(self.current_line);
            let message = join3("\nStepped to line ", line.as_str(), ".");
            self.console_output.append(message.as_str());
        } else if !self.is_running {
            self.console_output.append("\nCannot step: Algorithm is not running.");
        } else if self.is_paused {
            self.console_output.append("\nCannot step: Algorithm is paused.");
        }
    }

    /// Add Breakpoint: sets a breakpoint at the current line.
    pub fn add_breakpoint(&mut self)
        ensures
            final(self).breakpoints@ == old(self).breakpoints@.push(old(self).current_line),
            final(self).console_output@ == old(self).console_output@ + "\nBreakpoint added."@,
            final(self).files@ == old(self).files@,
            final(self).current_file == old(self).current_file,
            final(self).is_running == old(self).is_running,
            final(self).is_paused == old(self).is_paused,
            final(self).variables@ == old(self).variables@,
            final(self).error == old(self).error,
            final(self).current_line == old(self).current_line,
    {
        self.breakpoints.push(self.current_line);
        self.console_output.append("\nBreakpoint added.");
    }

    /// Sets the highlighting language of the current file, if there is one.
    pub fn set_current_language(&mut self, lang: String)
        ensures
            old(self).current_file < old(self).files@.len() ==> final(self).files@ == old(
                self,
            ).files@.update(
                old(self).current_file as int,
                with_language(old(self).files@[old(self).current_file as int], lang),
            ),
            old(self).current_file >= old(self).files@.len() ==> final(self).files@ == old(
                self,
            ).files@,
            final(self).current_file == old(self).current_file,
            final(self).console_output@ == old(self).console_output@,
            final(self).is_running == old(self).is_running,
            final(self).is_paused == old(self).is_paused,
            final(self).breakpoints@ == old(self).breakpoints@,
            final(self).variables@ == old(self).variables@,
            final(self).error == old(self).error,
            final(self).current_line == old(self).current_line,
    {
        if self.current_file < self.files.len() {
            let idx = self.current_file;
            let mut f = self.files.remove(idx);
            f.language = lang;
            self.files.insert(idx, f);
            assert(self.files@ =~= old(self).files@.update(
                idx as int,
                with_language(old(self).files@[idx as int], lang),
            ));
        }
    }
}

impl Default for IdeState {
    /// No files, an empty console, nothing running, no breakpoints or
    /// watched variables, no error, line 0.
    fn default() -> (r: IdeState)
        ensures
            r.files@.len() == 0,
            r.current_file == 0,
            r.console_output@.len() == 0,
            !r.is_running,
            !r.is_paused,
            r.breakpoints@.len() == 0,
            r.variables@.len() == 0,
            r.error is None,
            r.current_line == 0,
    {
        IdeState {
            files: Vec::new(),
            current_file: 0,
            console_output: String::new(),
            is_running: false,
            is_paused: false,
            breakpoints: Vec::new(),
            variables: Vec::new(),
            error: None,
            current_line: 0,
        }
    }
}

} // verus!
