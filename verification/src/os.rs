//! Where the stored record lies on each platform.

use crate::text::lemma_texts_differ;
use vstd::prelude::*;

verus! {

/// The platforms that are told apart.
#[derive(Debug, Clone, Copy, PartialEq, Eq)]
pub enum UserOS {
    Linux,
    MacOS,
    Windows,
    Unsupported,
}

impl UserOS {
    /// The platform that goes by `name`.
    pub open spec fn named(name: Seq<char>) -> UserOS {
        if name == "linux"@ {
            UserOS::Linux
        } else if name == "macos"@ {
            UserOS::MacOS
        } else if name == "windows"@ {
            UserOS::Windows
        } else {
            UserOS::Unsupported
        }
    }

    /// The platform that goes by `name`, as the standard library names
    /// the platform that a program was built for.
    pub fn get(name: &str) -> (r: UserOS)
        ensures
            r == UserOS::named(name@),
    {
        if *name == *"linux" {
            UserOS::Linux
        } else if *name == *"macos" {
            UserOS::MacOS
        } else if *name == *"windows" {
            UserOS::Windows
        } else {
            UserOS::Unsupported
        }
    }
}

/// The three platforms are told apart by their names, and a name that is
/// none of the three stands for no platform that is supported.
pub proof fn lemma_platforms_are_told_apart(name: Seq<char>)
    ensures
        UserOS::named("linux"@) == UserOS::Linux,
        UserOS::named("macos"@) == UserOS::MacOS,
        UserOS::named("windows"@) == UserOS::Windows,
        name != "linux"@ && name != "macos"@ && name != "windows"@ ==> UserOS::named(name)
            == UserOS::Unsupported,
{
    reveal_strlit("linux");
    reveal_strlit("macos");
    reveal_strlit("windows");
    lemma_texts_differ("macos"@, "linux"@, 0);
    lemma_texts_differ("windows"@, "linux"@, 0);
    lemma_texts_differ("windows"@, "macos"@, 0);
}

/// The platform has no place for the record.
#[derive(Debug, Clone, Copy, PartialEq, Eq)]
pub struct UnsupportedOs;

impl UnsupportedOs {
    /// The failure in words.
    pub fn message(&self) -> (r: String)
        ensures
            r@ == "Your OS is not currently supported ... =("@,
    {
        "Your OS is not currently supported ... =(".to_string()
    }
}

/// The path of the file that holds the record.
#[derive(Debug, Clone, PartialEq, Eq)]
pub struct TempPath(pub String);

impl View for TempPath {
    type V = Seq<char>;

    open spec fn view(&self) -> Seq<char> {
        self.0@
    }
}

impl TempPath {
    /// Where the record lies on `os`: at a fixed path on Linux and macOS,
    /// at `in_temp_dir` on Windows, nowhere on another platform.
    pub open spec fn location(os: UserOS, in_temp_dir: Seq<char>) -> Option<Seq<char>> {
        match os {
            UserOS::Linux | UserOS::MacOS => Some("/tmp/portform_config.json"@),
            UserOS::Windows => Some(in_temp_dir),
            UserOS::Unsupported => None,
        }
    }

    /// The path of the record on `value`, where `in_temp_dir` is the path
    /// of the record's file in the directory for temporary files.
    pub fn try_from(value: UserOS, in_temp_dir: String) -> (r: Result<TempPath, UnsupportedOs>)
        ensures
            match TempPath::location(value, in_temp_dir@) {
                Some(path) => r matches Ok(found) && found@ == path,
                None => r is Err,
            },
    {
        match value {
            UserOS::Linux | UserOS::MacOS => Ok(TempPath("/tmp/portform_config.json".to_string())),
            UserOS::Windows => Ok(TempPath(in_temp_dir)),
            UserOS::Unsupported => Err(UnsupportedOs),
        }
    }
}

/// Whether `name` is the name of a file and nothing more: it holds no
/// separator of either platform and no colon, so that no platform takes it
/// for a path with a root or a drive of its own.
pub open spec fn is_plain_name(name: Seq<char>) -> bool {
    forall|i: int|
        0 <= i < name.len() ==> (#[trigger] name[i]) != '/' && name[i] != '\\' && name[i] != ':'
}

/// Whether `path` starts as the paths do that Windows takes letter for
/// letter, with two backslashes, a question mark and a backslash.
pub open spec fn has_verbatim_prefix(path: Seq<char>) -> bool {
    &&& path.len() >= 4
    &&& path[0] == '\\'
    &&& path[1] == '\\'
    &&& path[2] == '?'
    &&& path[3] == '\\'
}

/// Whether `path` is `dir` extended by `name`: `dir` as it is, then a
/// slash, a backslash or nothing, then `name`.
pub open spec fn is_adjoined(path: Seq<char>, dir: Seq<char>, name: Seq<char>) -> bool {
    ||| path == dir + name
    ||| path == dir + seq!['/'] + name
    ||| path == dir + seq!['\\'] + name
}

/// A path that is a directory extended by a name begins with the
/// directory, ends with the name, and holds at most one character between
/// the two.
pub proof fn lemma_adjoined(path: Seq<char>, dir: Seq<char>, name: Seq<char>)
    requires
        is_adjoined(path, dir, name),
    ensures
        dir.len() + name.len() <= path.len() <= dir.len() + name.len() + 1,
        path.subrange(0, dir.len() as int) == dir,
        path.subrange(path.len() - name.len(), path.len() as int) == name,
{
    assert(path.subrange(0, dir.len() as int) =~= dir);
    assert(path.subrange(path.len() - name.len(), path.len() as int) =~= name);
}

/// `std::path::Path::join` extends `dir` with `file`. Where `file` is the
/// plain name of a file, no platform replaces anything of `dir`: the
/// result is `dir`, then the platform's separator unless `dir` needs none,
/// then `file`. Only a `dir` with a verbatim prefix is written anew on
/// Windows, so nothing is said of the result for such a `dir`. Which
/// separator stands between the two differs from platform to platform.
#[verifier::external_body]
fn join_path(dir: &str, file: &str) -> (r: String)
    requires
        is_plain_name(file@),
    ensures
        !has_verbatim_prefix(dir@) ==> is_adjoined(r@, dir@, file@),
{
    std::path::Path::new(dir).join(file).to_string_lossy().into_owned()
}

/// The name of the record's file is the plain name of a file.
proof fn lemma_config_name_is_plain()
    ensures
        is_plain_name("portform_config.json"@),
{
    reveal_strlit("portform_config.json");
    let name = "portform_config.json"@;
    assert(name.len() == 20);
    assert forall|i: int| 0 <= i < name.len() implies (#[trigger] name[i]) != '/' && name[i]
        != '\\' && name[i] != ':' by {
        if i < 5 {
        } else if i < 10 {
        } else if i < 15 {
        } else {
        }
    }
}

/// The path of the record on the platform that goes by `os_name`, where
/// `temp_dir` is that platform's directory for temporary files. Linux and
/// macOS have a fixed path. On Windows the record lies in `temp_dir`: its
/// path is `temp_dir` extended by the name of the record's file. Any other
/// platform has none.
pub fn get_os_config_path(os_name: &str, temp_dir: &str) -> (r: Result<TempPath, UnsupportedOs>)
    ensures
        match UserOS::named(os_name@) {
            UserOS::Linux | UserOS::MacOS => r matches Ok(found) && found@
                == "/tmp/portform_config.json"@,
            UserOS::Windows => r matches Ok(found) && (!has_verbatim_prefix(temp_dir@)
                ==> is_adjoined(found@, temp_dir@, "portform_config.json"@)),
            UserOS::Unsupported => r is Err,
        },
{
    let os = UserOS::get(os_name);
    match os {
        UserOS::Windows => {
            proof {
                lemma_config_name_is_plain();
            }
            TempPath::try_from(os, join_path(temp_dir, "portform_config.json"))
        },
        _ => TempPath::try_from(os, String::new()),
    }
}

} // verus!
