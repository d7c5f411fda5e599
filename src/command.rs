use vstd::prelude::*;

use crate::error::ToolError;

verus! {

/// A fully resolved request.
#[derive(Debug, PartialEq, Eq)]
pub enum Command {
    /// Print the whole file.
    CatFile { path: String },
    /// Print the lines of the file that hold `pattern`.
    GrepFile { path: String, pattern: String },
}

/// The mathematical value of a [`Command`].
pub enum CommandModel {
    CatFile { path: Seq<char> },
    GrepFile { path: Seq<char>, pattern: Seq<char> },
}

impl View for Command {
    type V = CommandModel;

    open spec fn view(&self) -> CommandModel {
        match self {
            Command::CatFile { path } => CommandModel::CatFile { path: path@ },
            Command::GrepFile { path, pattern } => CommandModel::GrepFile {
                path: path@,
                pattern: pattern@,
            },
        }
    }
}

/// How far the tokens read so far have gone towards a command.
#[derive(Debug)]
pub enum ClassifierState {
    Idle,
    AwaitingCatPath,
    AwaitingGrepPath,
    AwaitingGrepPattern { path: String },
}

/// The mathematical value of a [`ClassifierState`].
pub enum StateModel {
    Idle,
    AwaitingCatPath,
    AwaitingGrepPath,
    AwaitingGrepPattern { path: Seq<char> },
}

impl View for ClassifierState {
    type V = StateModel;

    open spec fn view(&self) -> StateModel {
        match self {
            ClassifierState::Idle => StateModel::Idle,
            ClassifierState::AwaitingCatPath => StateModel::AwaitingCatPath,
            ClassifierState::AwaitingGrepPath => StateModel::AwaitingGrepPath,
            ClassifierState::AwaitingGrepPattern { path } => StateModel::AwaitingGrepPattern {
                path: path@,
            },
        }
    }
}

/// What one token does: move to another state, or complete a command.
pub enum Step {
    Next(ClassifierState),
    Emit(Command),
}

/// The mathematical value of a [`Step`].
pub enum StepModel {
    Next(StateModel),
    Emit(CommandModel),
}

impl View for Step {
    type V = StepModel;

    open spec fn view(&self) -> StepModel {
        match self {
            Step::Next(s) => StepModel::Next(s@),
            Step::Emit(c) => StepModel::Emit(c@),
        }
    }
}

/// The keyword that asks for a whole file.
pub open spec fn cat_keyword() -> Seq<char> {
    seq!['c', 'a', 't']
}

/// The keyword that asks for a filtered file.
pub open spec fn grep_keyword() -> Seq<char> {
    seq!['g', 'r', 'e', 'p']
}

/// The transition table. A keyword counts as one only in the idle state;
/// once a path or a pattern is awaited, any token is taken as data.
pub open spec fn step_model(state: StateModel, token: Seq<char>) -> StepModel {
    match state {
        StateModel::Idle => if token == cat_keyword() {
            StepModel::Next(StateModel::AwaitingCatPath)
        } else if token == grep_keyword() {
            StepModel::Next(StateModel::AwaitingGrepPath)
        } else {
            StepModel::Next(StateModel::Idle)
        },
        StateModel::AwaitingCatPath => StepModel::Emit(CommandModel::CatFile { path: token }),
        StateModel::AwaitingGrepPath => StepModel::Next(
            StateModel::AwaitingGrepPattern { path: token },
        ),
        StateModel::AwaitingGrepPattern { path } => StepModel::Emit(
            CommandModel::GrepFile { path, pattern: token },
        ),
    }
}

/// The command that `tokens` complete from `state`, scanning left to right
/// and stopping at the first complete command; `None` when they run out first.
pub open spec fn run_model(state: StateModel, tokens: Seq<Seq<char>>) -> Option<CommandModel>
    decreases tokens.len(),
{
    if tokens.len() == 0 {
        None
    } else {
        match step_model(state, tokens[0]) {
            StepModel::Next(next) => run_model(next, tokens.drop_first()),
            StepModel::Emit(command) => Some(command),
        }
    }
}

/// The command that a token stream resolves to, from the idle state.
pub open spec fn classify_model(tokens: Seq<Seq<char>>) -> Option<CommandModel> {
    run_model(StateModel::Idle, tokens)
}

/// Whether `token` is exactly `word`.
fn is_word(token: &String, word: &str) -> (r: bool)
    ensures
        r == (token@ == word@),
{
    let w = String::from_str(word);
    *token == w
}

impl ClassifierState {
    /// Consumes one token.
    pub fn step(self, token: &String) -> (r: Step)
        ensures
            r@ == step_model(self@, token@),
    {
        proof {
            reveal_strlit("cat");
            reveal_strlit("grep");
            assert("cat"@ =~= cat_keyword());
            assert("grep"@ =~= grep_keyword());
        }
        match self {
            ClassifierState::Idle => if is_word(token, "cat") {
                Step::Next(ClassifierState::AwaitingCatPath)
            } else if is_word(token, "grep") {
                Step::Next(ClassifierState::AwaitingGrepPath)
            } else {
                Step::Next(ClassifierState::Idle)
            },
            ClassifierState::AwaitingCatPath => Step::Emit(Command::CatFile { path: token.clone() }),
            ClassifierState::AwaitingGrepPath => Step::Next(
                ClassifierState::AwaitingGrepPattern { path: token.clone() },
            ),
            ClassifierState::AwaitingGrepPattern { path } => Step::Emit(
                Command::GrepFile { path, pattern: token.clone() },
            ),
        }
    }
}

/// Resolves a token stream (without the program name) into a command.
/// Tokens before the first keyword are ignored, and so are those after a
/// complete command. Fails with `UnrecognizedCommand` exactly when the
/// stream ends before a command is complete.
pub fn classify(tokens: &Vec<String>) -> (r: Result<Command, ToolError>)
    ensures
        r is Ok <==> classify_model(tokens.deep_view()) is Some,
        r matches Ok(c) ==> classify_model(tokens.deep_view()) == Some(c@),
        r matches Err(e) ==> e == ToolError::UnrecognizedCommand,
{
    let ghost all = tokens.deep_view();
    let mut state = ClassifierState::Idle;
    let mut i: usize = 0;
    assert(all.skip(0) =~= all);
    while i < tokens.len()
        invariant
            i <= tokens@.len(),
            all == tokens.deep_view(),
            classify_model(all) == run_model(state@, all.skip(i as int)),
        decreases tokens@.len() - i,
    {
        proof {
            assert(all.skip(i as int)[0] == tokens@[i as int]@);
            assert(all.skip(i as int).drop_first() =~= all.skip(i + 1));
        }
        match state.step(&tokens[i]) {
            Step::Next(next) => {
                state = next;
            },
            Step::Emit(command) => {
                return Ok(command);
            },
        }
        i = i + 1;
    }
    assert(all.skip(i as int).len() == 0);
    Err(ToolError::UnrecognizedCommand)
}

/// `cat` followed by any path resolves to printing that file, even where
/// the path is itself a keyword.
pub proof fn cat_then_path_is_cat_file(path: Seq<char>)
    ensures
        classify_model(seq![cat_keyword(), path]) == Some(CommandModel::CatFile { path }),
{
    let tokens = seq![cat_keyword(), path];
    assert(tokens.drop_first() =~= seq![path]);
    assert(classify_model(tokens) == run_model(StateModel::AwaitingCatPath, seq![path]));
}

/// `grep` followed by a path and a pattern resolves to searching that file
/// for that pattern, whatever the two tokens hold.
pub proof fn grep_then_path_and_pattern_is_grep_file(path: Seq<char>, pattern: Seq<char>)
    ensures
        classify_model(seq![grep_keyword(), path, pattern]) == Some(
            CommandModel::GrepFile { path, pattern },
        ),
{
    let tokens = seq![grep_keyword(), path, pattern];
    assert(grep_keyword() != cat_keyword()) by {
        assert(grep_keyword().len() != cat_keyword().len());
    }
    assert(tokens.drop_first() =~= seq![path, pattern]);
    assert(tokens.drop_first().drop_first() =~= seq![pattern]);
    assert(classify_model(tokens) == run_model(StateModel::AwaitingGrepPath, seq![path, pattern]));
    assert(run_model(StateModel::AwaitingGrepPath, seq![path, pattern]) == run_model(
        StateModel::AwaitingGrepPattern { path },
        seq![pattern],
    ));
}

/// A stream that stops before a command is complete resolves to nothing:
/// no tokens, a lone token (a keyword or not), or `grep` with a path and no
/// pattern.
pub proof fn incomplete_stream_is_unrecognized(tokens: Seq<Seq<char>>)
    requires
        tokens.len() <= 1 || (tokens.len() == 2 && tokens[0] == grep_keyword()),
    ensures
        classify_model(tokens) is None,
{
    if tokens.len() > 0 {
        let rest = tokens.drop_first();
        assert(grep_keyword() != cat_keyword()) by {
            assert(grep_keyword().len() != cat_keyword().len());
        }
        if rest.len() > 0 {
            assert(rest.drop_first().len() == 0);
            let path = rest[0];
            assert(run_model(StateModel::AwaitingGrepPattern { path }, rest.drop_first()) is None);
            assert(run_model(StateModel::AwaitingGrepPath, rest) is None);
        } else {
            assert(run_model(step_model(StateModel::Idle, tokens[0])->Next_0, rest) is None);
        }
    }
}

/// A stream in which no token is a keyword resolves to nothing.
pub proof fn keyword_free_stream_is_unrecognized(tokens: Seq<Seq<char>>)
    requires
        forall|i: int|
            0 <= i < tokens.len() ==> tokens[i] != cat_keyword() && tokens[i] != grep_keyword(),
    ensures
        classify_model(tokens) is None,
    decreases tokens.len(),
{
    if tokens.len() > 0 {
        let rest = tokens.drop_first();
        assert forall|i: int| 0 <= i < rest.len() implies rest[i] != cat_keyword() && rest[i]
            != grep_keyword() by {
            assert(rest[i] == tokens[i + 1]);
        }
        keyword_free_stream_is_unrecognized(rest);
    }
}

} // verus!
