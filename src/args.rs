use vstd::prelude::*;

use crate::portal::{
    json_object_of, path_invalid_message, tag_not_found_message, Config, Error, DEFAULT_PRTL_TAG,
};
use crate::portal_map::pairs_view;

verus! {

/// The shell that `ez-init` can configure.
pub const SHELL_TAG_BASH: &'static str = "bash";

/// A shell that `ez-init` does not configure yet.
pub const SHELL_TAG_FISH: &'static str = "fish";

/// The warning for a shell that `ez-init` cannot configure.
pub open spec fn unsupported_shell_message() -> Seq<char> {
    "Unsupported shell. Please try and configure manually."@
}

/// The parsed command line.
pub struct PortalArgs {
    pub command: Commands,
}

/// The subcommands.
pub enum Commands {
    /// Bookmark `path` under `tag`.
    SetPortal { path: String, tag: String },
    /// Show the path bookmarked under `tag`.
    Get { tag: String },
    /// Install the `p` shorthand into a shell profile.
    EzInit { shell: String },
    /// Show every bookmark, as JSON or as a table.
    List { json: bool },
}

/// What is left to do, outside the store, once a command has run.
pub enum Action {
    /// Nothing.
    Done,
    /// Print this line.
    Print(String),
    /// Run the interactive setup of the bash shorthand.
    SetupBash,
    /// Print these pairs as a table, in this order.
    ShowTable(Vec<(String, String)>),
}

impl Commands {
    /// Runs the command against `cfg`. For `set`, `resolved` is the canonical
    /// form of its path, or `None` where the path has none; the other
    /// commands ignore it. Only `set` changes `cfg`.
    pub fn run(&self, cfg: &mut Config, resolved: Option<String>) -> (r: Result<Action, Error>)
        requires
            old(cfg).wf(),
        ensures
            final(cfg).wf(),
            match self {
                Commands::SetPortal { path, tag } => match resolved {
                    Some(dir) => {
                        &&& final(cfg)@ == (old(cfg)@.0, old(cfg)@.1.insert(tag@, dir@))
                        &&& r matches Ok(Action::Done)
                    },
                    None => {
                        &&& *final(cfg) == *old(cfg)
                        &&& r matches Err(e) && e@ == path_invalid_message(path@)
                    },
                },
                Commands::Get { tag } => {
                    &&& *final(cfg) == *old(cfg)
                    &&& old(cfg)@.1.contains_key(tag@) ==> (r matches Ok(Action::Print(s)) && s@
                        == old(cfg)@.1[tag@])
                    &&& !old(cfg)@.1.contains_key(tag@) ==> (r matches Err(e) && e@
                        == tag_not_found_message(tag@))
                },
                Commands::EzInit { shell } => {
                    &&& *final(cfg) == *old(cfg)
                    &&& shell@ == "bash"@ ==> (r matches Ok(Action::SetupBash))
                    &&& shell@ != "bash"@ ==> (r matches Ok(Action::Print(s)) && s@
                        == unsupported_shell_message())
                },
                Commands::List { json } => {
                    &&& *final(cfg) == *old(cfg)
                    &&& *json ==> (r matches Ok(Action::Print(s)) && s@ == json_object_of(
                        old(cfg)@.1,
                    ))
                    &&& !*json ==> (r matches Ok(Action::ShowTable(v)) && pairs_view(v@)
                        == old(cfg).parts().1)
                },
            },
    {
        match self {
            Commands::SetPortal { path, tag } => {
                match cfg.set_resolved(tag.clone(), path, resolved) {
                    Ok(()) => Ok(Action::Done),
                    Err(e) => Err(e),
                }
            },
            Commands::Get { tag } => {
                match cfg.lookup(tag) {
                    Ok(dir) => Ok(Action::Print(dir)),
                    Err(e) => Err(e),
                }
            },
            Commands::EzInit { shell } => {
                if *shell == String::from_str(SHELL_TAG_BASH) {
                    Ok(Action::SetupBash)
                } else {
                    Ok(
                        Action::Print(
                            String::from_str(
                                "Unsupported shell. Please try and configure manually.",
                            ),
                        ),
                    )
                }
            },
            Commands::List { json } => {
                if *json {
                    Ok(Action::Print(cfg.list_json()))
                } else {
                    let (_, pairs) = cfg.to_parts();
                    Ok(Action::ShowTable(pairs))
                }
            },
        }
    }
}

/// `set` with the default tag followed by `get` with the default tag finds
/// the path that was set, whatever the store held before.
pub proof fn law_default_tag_set_then_get(m: Map<Seq<char>, Seq<char>>, dir: Seq<char>)
    ensures
        m.insert(DEFAULT_PRTL_TAG@, dir).contains_key(DEFAULT_PRTL_TAG@),
        m.insert(DEFAULT_PRTL_TAG@, dir)[DEFAULT_PRTL_TAG@] == dir,
        DEFAULT_PRTL_TAG@ == "default_prtl"@,
{
}

} // verus!
