use vstd::prelude::*;

use crate::portal::{path_invalid_message, Error};

verus! {

/// The shell function that wraps `prtl` so that `p get <tag>` can change
/// the working directory of the calling shell.
pub const PRTL_SHORTHAND_SCRIPT: &'static str = r#"
function p() {
   if [ $1 = "get" ]; then 
     cd $(prtl "$@")
   elif [ $1 = "set" ]; then
     $(prtl $@)
   else
     echo Global options will not work. Type \'prtl -h\' for more info.
     echo \'p\' short-hand only supports \'get\' and \'set\' commands. 
   fi
}
"#;

/// The name of the file, beside the profile, that holds the shorthand.
pub const SHORTHAND_FILE_NAME: &'static str = "prtl_shorthand.sh";

/// The last choice offered: a profile path typed by hand.
pub const CUSTOM_CHOICE: &'static str = "Custom";

/// The profile picked for the shorthand.
pub enum ProfileChoice {
    /// Ask for a path to type.
    Custom,
    /// This profile file, as it was found.
    File(String),
}

/// The choices offered: the profiles found, in order, then the choice to
/// type a path.
pub fn profile_choices(found: Vec<String>) -> (r: Vec<String>)
    ensures
        r@.len() == found@.len() + 1,
        forall|i: int| 0 <= i < found@.len() ==> r@[i] == found@[i],
        r@.last()@ == "Custom"@,
{
    let mut r = found;
    r.push(String::from_str(CUSTOM_CHOICE));
    r
}

/// The entry of `choices` that a selection picks: the selected one, or the
/// first where nothing was selected.
pub open spec fn picked(choices: Seq<String>, selection: Option<usize>) -> String {
    match selection {
        Some(i) => choices[i as int],
        None => choices[0],
    }
}

/// What a selection among `choices` asks for.
pub fn pick_profile(choices: &Vec<String>, selection: Option<usize>) -> (r: ProfileChoice)
    requires
        choices@.len() > 0,
        selection matches Some(i) ==> i < choices@.len(),
    ensures
        picked(choices@, selection)@ == "Custom"@ ==> (r matches ProfileChoice::Custom),
        picked(choices@, selection)@ != "Custom"@ ==> (r matches ProfileChoice::File(f) && f@
            == picked(choices@, selection)@),
{
    let chosen = match selection {
        Some(i) => &choices[i],
        None => &choices[0],
    };
    if *chosen == String::from_str(CUSTOM_CHOICE) {
        ProfileChoice::Custom
    } else {
        ProfileChoice::File(chosen.clone())
    }
}

/// The profile that a path typed by hand names: `resolved` is its
/// canonical form, or `None` where it has none, and then the error names
/// the typed path.
pub fn typed_profile(typed: &String, resolved: Option<String>) -> (r: Result<String, Error>)
    ensures
        r.is_ok() == resolved.is_some(),
        resolved.is_some() ==> (r matches Ok(p) && p@ == resolved.unwrap()@),
        resolved.is_none() ==> (r matches Err(e) && e@ == path_invalid_message(typed@)),
{
    match resolved {
        Some(p) => Ok(p),
        None => Err(Error::path_invalid(typed)),
    }
}

/// The line, appended to a profile, that loads the shorthand file.
pub fn source_line(shorthand_path: &String) -> (r: String)
    ensures
        r@ == "source "@ + shorthand_path@ + "\n"@,
{
    let mut r = String::from_str("source ");
    r.append(shorthand_path.as_str());
    r.append("\n");
    r
}

} // verus!
