//! The application that notifications are shown for, and where the system
//! keeps notification sounds.
use crate::error::NotificationError;
use vstd::prelude::*;
use vstd::string::StringExecFns;

verus! {

/// The bundle identifier used where none is found for an application.
pub open spec fn default_bundle_identifier() -> Seq<char> {
    "com.apple.Terminal"@
}

/// The bundle identifier found for an application, or the one of the
/// Terminal where none was found.
pub fn bundle_identifier_or_default(found: Option<String>) -> (r: String)
    ensures
        found is Some ==> r == found->0,
        found is None ==> r@ == default_bundle_identifier(),
{
    match found {
        Some(id) => id,
        None => "com.apple.Terminal".to_string(),
    }
}

/// Whether the application may still be set: it is set once at most.
pub fn check_application_unset(already_set: bool) -> (r: Result<(), NotificationError>)
    ensures
        r is Ok <==> !already_set,
        r is Err ==> r->Err_0 is ApplicationAlreadySet,
{
    if already_set {
        Err(NotificationError::ApplicationAlreadySet)
    } else {
        Ok(())
    }
}

/// The outcome of setting the application, from whether the native call
/// succeeded.
pub fn application_set_result(succeeded: bool) -> (r: Result<(), NotificationError>)
    ensures
        r is Ok <==> succeeded,
        r is Err ==> r->Err_0 is CouldNotSetApplication,
{
    if succeeded {
        Ok(())
    } else {
        Err(NotificationError::CouldNotSetApplication)
    }
}

/// The directories that hold sounds, other than the one in the home
/// directory.
pub open spec fn system_sound_dirs() -> Seq<Seq<char>> {
    seq!["/Library/Sounds/"@, "/Network/Library/Sounds/"@, "/System/Library/Sounds/"@]
}

/// The files where a sound named `name` may be: `name.aiff` in the sounds
/// directory of the home directory `home`, if there is one, then in each
/// directory of `system_sound_dirs`.
pub open spec fn sound_files(home: Option<Seq<char>>, name: Seq<char>) -> Seq<Seq<char>> {
    let dirs = match home {
        Some(h) => seq![h + "/Library/Sounds/"@] + system_sound_dirs(),
        None => system_sound_dirs(),
    };
    dirs.map_values(|d: Seq<char>| d + name + ".aiff"@)
}

fn sound_file(dir: &str, name: &str) -> (r: String)
    ensures
        r@ == dir@ + name@ + ".aiff"@,
{
    let mut s = dir.to_string();
    s.append(name);
    s.append(".aiff");
    s
}

/// The files where a sound named `sound_name` may be.
pub fn sound_paths(home: Option<&str>, sound_name: &str) -> (r: Vec<String>)
    ensures
        r@.map_values(|p: String| p@) == sound_files(
            match home {
                Some(h) => Some(h@),
                None => None,
            },
            sound_name@,
        ),
{
    let mut r: Vec<String> = Vec::new();
    if let Some(h) = home {
        let mut dir = h.to_string();
        dir.append("/Library/Sounds/");
        r.push(sound_file(dir.as_str(), sound_name));
    }
    r.push(sound_file("/Library/Sounds/", sound_name));
    r.push(sound_file("/Network/Library/Sounds/", sound_name));
    r.push(sound_file("/System/Library/Sounds/", sound_name));
    assert(r@.map_values(|p: String| p@) =~= sound_files(
        match home {
            Some(h) => Some(h@),
            None => None,
        },
        sound_name@,
    ));
    r
}

} // verus!
