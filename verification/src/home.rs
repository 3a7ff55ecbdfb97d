use std::path::PathBuf;
use vstd::prelude::*;
use vstd::string::StringExecFns;

verus! {

/// `std::path::PathBuf`, an owned path of the file system. It is carried
/// from `dirs::home_dir` to `Path::to_str`; nothing is known of what it
/// holds.
#[verifier::external_type_specification]
#[verifier::external_body]
pub struct ExPathBuf(PathBuf);

/// `dirs::home_dir` gives the home directory of the current user, or nothing
/// where the platform knows none. Nothing is claimed of the path.
pub assume_specification[ dirs::home_dir ]() -> (home: Option<PathBuf>);

/// `Path::to_str` gives the path as text, or nothing where the path is not
/// valid Unicode. Nothing is claimed of the text.
#[verifier::external_body]
fn path_text(path: &PathBuf) -> (text: Option<&str>) {
    path.to_str()
}

/// Why the settings directory of the current user cannot be named.
#[derive(Clone, Copy, PartialEq, Eq, Structural, Debug)]
pub enum HomeError {
    /// The platform knows no home directory for the user.
    NoHomeDirectory,
    /// The home directory cannot be written as text.
    HomeNotUnicode,
}

impl HomeError {
    /// The message for the user.
    pub open spec fn message_spec(self) -> Seq<char> {
        match self {
            HomeError::NoHomeDirectory =>
                "cptb is not supported on platforms without Home directories"@,
            HomeError::HomeNotUnicode => "cptb needs a home directory that is valid Unicode"@,
        }
    }

    /// The message for the user.
    pub fn message(self) -> (text: &'static str)
        ensures
            text@ == self.message_spec(),
    {
        match self {
            HomeError::NoHomeDirectory =>
                "cptb is not supported on platforms without Home directories",
            HomeError::HomeNotUnicode => "cptb needs a home directory that is valid Unicode",
        }
    }
}

/// The settings directory of a user whose home directory is `home`.
pub open spec fn settings_dir_spec(home: Seq<char>) -> Seq<char> {
    home + "/"@ + ".cptb"@
}

/// The settings directory below the home directory `home`.
pub fn settings_dir_in(home: &str) -> (dir: String)
    ensures
        dir@ == settings_dir_spec(home@),
{
    let mut dir = home.to_owned();
    dir.append("/");
    dir.append(".cptb");
    dir
}

/// The settings directory for what is known of the user's home directory:
/// the outer option says whether the platform knows one, the inner whether
/// it can be written as text.
pub open spec fn settings_dir_of_home_spec(home: Option<Option<Seq<char>>>) -> Result<
    Seq<char>,
    HomeError,
> {
    match home {
        None => Err(HomeError::NoHomeDirectory),
        Some(None) => Err(HomeError::HomeNotUnicode),
        Some(Some(text)) => Ok(settings_dir_spec(text)),
    }
}

/// Whether `dir` names the settings directory that belongs to `home`.
pub open spec fn is_settings_dir_of_home(
    dir: Result<String, HomeError>,
    home: Option<Option<Seq<char>>>,
) -> bool {
    match dir {
        Ok(text) => settings_dir_of_home_spec(home) == Ok::<Seq<char>, HomeError>(text@),
        Err(error) => settings_dir_of_home_spec(home) == Err::<Seq<char>, HomeError>(error),
    }
}

/// Names the settings directory for what is known of the user's home
/// directory, or says what is missing.
pub fn settings_dir_of_home(home: Option<Option<&str>>) -> (dir: Result<String, HomeError>)
    ensures
        is_settings_dir_of_home(dir, home.deep_view()),
{
    match home {
        None => Err(HomeError::NoHomeDirectory),
        Some(None) => Err(HomeError::HomeNotUnicode),
        Some(Some(text)) => Ok(settings_dir_in(text)),
    }
}

/// The settings directory of the current user. Which home directory the
/// machine reports is not known here; the result is what
/// `settings_dir_of_home` makes of it.
pub fn home_settings_dir() -> (dir: Result<String, HomeError>)
    ensures
        exists|home: Option<Option<Seq<char>>>| is_settings_dir_of_home(dir, home),
{
    let home = dirs::home_dir();
    let text = match &home {
        Some(path) => Some(path_text(path)),
        None => None,
    };
    let dir = settings_dir_of_home(text);
    dir
}

} // verus!
