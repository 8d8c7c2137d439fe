//! The search for the `openshell-server` binary.
//!
//! Search order:
//! 1. `OPENSHELL_SERVER_BIN` environment variable
//! 2. Same directory as the current executable
//! 3. `PATH`

use vstd::prelude::*;

use crate::command::CommandOutput;
use crate::text::{
    concat3, is_white_space, trim_text, trimmed, trimming_keeps_a_text_that_is_not_blank,
    trimming_takes_off_the_ends,
};

verus! {

/// The name of the server binary.
pub const SERVER_BINARY: &'static str = "openshell-server";

/// Where the search stands.
#[derive(Debug)]
pub enum SearchStep {
    /// Look whether the configured binary exists.
    CheckConfigured(String),
    /// Look whether the binary exists in the directory of the current executable.
    CheckSibling,
    /// Ask `which` for the binary.
    AskWhich,
    /// The search is over.
    Over(Result<ServerBinary, String>),
}

/// The binary that was found.
#[derive(Debug, Clone)]
pub enum ServerBinary {
    /// The configured one.
    Configured(String),
    /// The one in the directory of the current executable.
    Sibling,
    /// The one that `which` gave.
    OnPath(String),
}

/// The binary that was found, by its path where that is given.
#[verifier::ext_equal]
pub enum BinaryText {
    /// The configured one.
    Configured(Seq<char>),
    /// The one in the directory of the current executable.
    Sibling,
    /// The one that `which` gave.
    OnPath(Seq<char>),
}

/// Where a search stands.
#[verifier::ext_equal]
pub enum SearchState {
    /// Look whether the configured binary exists.
    CheckConfigured(Seq<char>),
    /// Look whether the binary exists in the directory of the current executable.
    CheckSibling,
    /// Ask `which` for the binary.
    AskWhich,
    /// The binary was found.
    Found(BinaryText),
    /// The binary was not found, for this reason.
    NotFound(Seq<char>),
}

impl View for ServerBinary {
    type V = BinaryText;

    open spec fn view(&self) -> BinaryText {
        match self {
            ServerBinary::Configured(path) => BinaryText::Configured(path@),
            ServerBinary::Sibling => BinaryText::Sibling,
            ServerBinary::OnPath(path) => BinaryText::OnPath(path@),
        }
    }
}

impl View for SearchStep {
    type V = SearchState;

    open spec fn view(&self) -> SearchState {
        match self {
            SearchStep::CheckConfigured(path) => SearchState::CheckConfigured(path@),
            SearchStep::CheckSibling => SearchState::CheckSibling,
            SearchStep::AskWhich => SearchState::AskWhich,
            SearchStep::Over(Ok(binary)) => SearchState::Found(binary@),
            SearchStep::Over(Err(message)) => SearchState::NotFound(message@),
        }
    }
}

/// Where a search begins.
pub open spec fn search_begun(configured: Option<Seq<char>>, exe_dir_known: bool) -> SearchState {
    match configured {
        Some(path) => SearchState::CheckConfigured(path),
        None => if exe_dir_known {
            SearchState::CheckSibling
        } else {
            SearchState::AskWhich
        },
    }
}

/// Where a search goes on after the configured binary. Where that does not exist, nothing
/// else is tried.
pub open spec fn configured_step(path: Seq<char>, exists: bool) -> SearchState {
    if exists {
        SearchState::Found(BinaryText::Configured(path))
    } else {
        SearchState::NotFound("OPENSHELL_SERVER_BIN="@ + path + " does not exist"@)
    }
}

/// Where a search goes on after the directory of the current executable.
pub open spec fn sibling_step(exists: bool) -> SearchState {
    if exists {
        SearchState::Found(BinaryText::Sibling)
    } else {
        SearchState::AskWhich
    }
}

/// The path that `which` gives: what it wrote, without white space around it, where it
/// exited with success and anything is left.
pub open spec fn path_from_which(output: Option<CommandOutput>) -> Option<Seq<char>> {
    match output {
        Some(out) => if out.success && trimmed(out.stdout@).len() > 0 {
            Some(trimmed(out.stdout@))
        } else {
            None
        },
        None => None,
    }
}

/// Where a search ends after `which`.
pub open spec fn which_step(output: Option<CommandOutput>) -> SearchState {
    match path_from_which(output) {
        Some(path) => SearchState::Found(BinaryText::OnPath(path)),
        None => SearchState::NotFound(
            "Could not find openshell-server binary.\nBuild it with: cargo build --release -p openshell-server\nOr set OPENSHELL_SERVER_BIN to point to it."@,
        ),
    }
}

/// Begin the search. `configured` is the value of `OPENSHELL_SERVER_BIN`, where it is
/// set, and `exe_dir_known` tells whether the directory of the current executable is
/// known.
pub fn find_server_binary(configured: Option<&str>, exe_dir_known: bool) -> (step: SearchStep)
    ensures
        step@ == search_begun(configured.deep_view(), exe_dir_known),
{
    match configured {
        Some(path) => SearchStep::CheckConfigured(path.to_string()),
        None => if exe_dir_known {
            SearchStep::CheckSibling
        } else {
            SearchStep::AskWhich
        },
    }
}

/// Go on after it was looked whether the configured binary exists. Where it does not,
/// nothing else is tried.
pub fn after_configured(path: &str, exists: bool) -> (step: SearchStep)
    ensures
        step@ == configured_step(path@, exists),
{
    if exists {
        SearchStep::Over(Ok(ServerBinary::Configured(path.to_string())))
    } else {
        SearchStep::Over(Err(concat3("OPENSHELL_SERVER_BIN=", path, " does not exist")))
    }
}

/// Go on after it was looked whether the binary exists beside the current executable.
pub fn after_sibling(exists: bool) -> (step: SearchStep)
    ensures
        step@ == sibling_step(exists),
{
    if exists {
        SearchStep::Over(Ok(ServerBinary::Sibling))
    } else {
        SearchStep::AskWhich
    }
}

/// Go on after `which openshell-server`. `output` is `None` where it could not be run.
pub fn after_which(output: Option<&CommandOutput>) -> (step: SearchStep)
    ensures
        step@ == which_step(
            match output {
                Some(out) => Some(*out),
                None => None,
            },
        ),
{
    if let Some(out) = output {
        if out.success {
            let path = trim_text(out.stdout.as_str());
            if !path.as_str().is_empty() {
                return SearchStep::Over(Ok(ServerBinary::OnPath(path)));
            }
        }
    }
    SearchStep::Over(
        Err(
            "Could not find openshell-server binary.\nBuild it with: cargo build --release -p openshell-server\nOr set OPENSHELL_SERVER_BIN to point to it.".to_string(),
        ),
    )
}

// ---------------------------------------------------------------------------
// Laws
// ---------------------------------------------------------------------------

/// The next state of a search, where it is known what is there: whether the configured
/// binary exists, whether there is one beside the current executable, and what `which` left.
pub open spec fn search_step(
    state: SearchState,
    configured_exists: bool,
    sibling_exists: bool,
    which: Option<CommandOutput>,
) -> SearchState {
    match state {
        SearchState::CheckConfigured(path) => configured_step(path, configured_exists),
        SearchState::CheckSibling => sibling_step(sibling_exists),
        SearchState::AskWhich => which_step(which),
        _ => state,
    }
}

/// A search is over after two steps at most, and follows its order: a configured binary is
/// the only one that counts, one beside the current executable comes before `PATH`, and
/// `PATH` comes last.
pub proof fn search_follows_its_order(
    configured: Option<Seq<char>>,
    exe_dir_known: bool,
    configured_exists: bool,
    sibling_exists: bool,
    which: Option<CommandOutput>,
)
    ensures
        ({
            let begun = search_begun(configured, exe_dir_known);
            let next = search_step(begun, configured_exists, sibling_exists, which);
            let end = search_step(next, configured_exists, sibling_exists, which);
            match configured {
                Some(path) => end == configured_step(path, configured_exists),
                None => if exe_dir_known && sibling_exists {
                    end == SearchState::Found(BinaryText::Sibling)
                } else {
                    end == which_step(which)
                },
            }
        }),
{
}

/// A configured binary that exists is found, whatever else there is, and one that does not is
/// told as such and nothing else is tried.
pub proof fn configured_binary_alone_counts(
    path: Seq<char>,
    exe_dir_known: bool,
    exists: bool,
    sibling_exists: bool,
    which: Option<CommandOutput>,
)
    ensures
        ({
            let begun = search_begun(Some(path), exe_dir_known);
            let end = search_step(begun, exists, sibling_exists, which);
            &&& begun == SearchState::CheckConfigured(path)
            &&& exists ==> end == SearchState::Found(BinaryText::Configured(path))
            &&& !exists ==> end == SearchState::NotFound(
                "OPENSHELL_SERVER_BIN="@ + path + " does not exist"@,
            )
        }),
{
}

/// Where none is configured, the binary beside the current executable is found where it is
/// there. `which` is asked where it is not, or where that directory is not known.
pub proof fn sibling_comes_before_the_path(
    exe_dir_known: bool,
    configured_exists: bool,
    sibling_exists: bool,
    which: Option<CommandOutput>,
)
    ensures
        ({
            let begun = search_begun(None, exe_dir_known);
            let next = search_step(begun, configured_exists, sibling_exists, which);
            &&& exe_dir_known ==> begun == SearchState::CheckSibling
            &&& !exe_dir_known ==> begun == SearchState::AskWhich
            &&& exe_dir_known && sibling_exists ==> next == SearchState::Found(
                BinaryText::Sibling,
            )
            &&& exe_dir_known && !sibling_exists ==> next == SearchState::AskWhich
        }),
{
}

/// `which` gives the path that it wrote, without white space around it, where it exited with
/// success and wrote one. Otherwise the user is told how to build the binary or to point to it.
pub proof fn which_gives_the_path_that_it_wrote(
    out: CommandOutput,
    before: Seq<char>,
    path: Seq<char>,
    after: Seq<char>,
)
    requires
        forall|k: int| 0 <= k < before.len() ==> is_white_space(#[trigger] before[k]),
        forall|k: int| 0 <= k < after.len() ==> is_white_space(#[trigger] after[k]),
        path.len() > 0 ==> !is_white_space(path.first()) && !is_white_space(path.last()),
        out.stdout@ == before + path + after,
    ensures
        ({
            let missing = SearchState::NotFound(
                "Could not find openshell-server binary.\nBuild it with: cargo build --release -p openshell-server\nOr set OPENSHELL_SERVER_BIN to point to it."@,
            );
            &&& out.success && path.len() > 0 ==> which_step(Some(out)) == SearchState::Found(
                BinaryText::OnPath(path),
            )
            &&& !out.success || path.len() == 0 ==> which_step(Some(out)) == missing
            &&& which_step(None) == missing
        }),
{
    trimming_takes_off_the_ends(before, path, after);
}

/// A search that is over stays as it is.
pub proof fn finished_search_stays(
    state: SearchState,
    configured_exists: bool,
    sibling_exists: bool,
    which: Option<CommandOutput>,
)
    requires
        state is Found || state is NotFound,
    ensures
        search_step(state, configured_exists, sibling_exists, which) == state,
{
}

/// A search goes from step to step as its order says: what is configured, then beside the
/// current executable, then `which`.
pub proof fn search_is_made_in_its_order(
    path: &str,
    exe_dir_known: bool,
    exists: bool,
    which: CommandOutput,
    configured: SearchStep,
    begun: SearchStep,
    checked: SearchStep,
    sibling: SearchStep,
    asked: SearchStep,
    unasked: SearchStep,
)
    requires
        call_ensures(find_server_binary, (Some(path), exe_dir_known), configured),
        call_ensures(find_server_binary, (None, exe_dir_known), begun),
        call_ensures(after_configured, (path, exists), checked),
        call_ensures(after_sibling, (exists,), sibling),
        call_ensures(after_which, (Some(&which),), asked),
        call_ensures(after_which, (None,), unasked),
    ensures
        configured@ == SearchState::CheckConfigured(path@),
        exe_dir_known ==> begun@ == SearchState::CheckSibling,
        !exe_dir_known ==> begun@ == SearchState::AskWhich,
        exists ==> checked@ == SearchState::Found(BinaryText::Configured(path@)),
        !exists ==> checked@ is NotFound,
        exists ==> sibling@ == SearchState::Found(BinaryText::Sibling),
        !exists ==> sibling@ == SearchState::AskWhich,
        asked@ is Found <==> which.success && exists|i: int|
            0 <= i < which.stdout@.len() && !is_white_space(#[trigger] which.stdout@[i]),
        asked@ is Found ==> asked@ == SearchState::Found(
            BinaryText::OnPath(trimmed(which.stdout@)),
        ),
        asked@ is Found || asked@ is NotFound,
        unasked@ is NotFound,
{
    let text = which.stdout@;
    if exists|i: int| 0 <= i < text.len() && !is_white_space(#[trigger] text[i]) {
        let i = choose|i: int| 0 <= i < text.len() && !is_white_space(#[trigger] text[i]);
        trimming_keeps_a_text_that_is_not_blank(text, i);
    } else {
        trimming_takes_off_the_ends(text, Seq::empty(), Seq::empty());
        assert(text + Seq::<char>::empty() + Seq::<char>::empty() =~= text);
    }
}

}
