use vstd::prelude::*;
use crate::text::{push_char, push_str};

verus! {

/// The family of operating system that the installer runs on. Each family
/// has its own Java executable name, path separator, script name and line
/// ending.
#[derive(Debug, Clone, Copy, PartialEq, Eq, Structural)]
pub enum OsFamily {
    Windows,
    MacOs,
    OtherUnix,
}

impl OsFamily {
    pub open spec fn spec_separator(self) -> char {
        match self {
            OsFamily::Windows => '\\',
            _ => '/',
        }
    }

    /// The character that separates path components.
    pub fn separator(&self) -> (r: char)
        ensures
            r == self.spec_separator(),
    {
        match self {
            OsFamily::Windows => '\\',
            _ => '/',
        }
    }

    pub open spec fn spec_java_exe_name(self) -> Seq<char> {
        match self {
            OsFamily::Windows => "javaw.exe"@,
            _ => "java"@,
        }
    }

    /// The file name of the Java executable.
    pub fn java_exe_name(&self) -> (r: &'static str)
        ensures
            r@ == self.spec_java_exe_name(),
    {
        match self {
            OsFamily::Windows => "javaw.exe",
            _ => "java",
        }
    }

    pub open spec fn spec_line_ending(self) -> Seq<char> {
        match self {
            OsFamily::Windows => "\r\n"@,
            _ => "\n"@,
        }
    }

    /// The line ending of text files that are written for the user.
    pub fn line_ending(&self) -> (r: &'static str)
        ensures
            r@ == self.spec_line_ending(),
    {
        match self {
            OsFamily::Windows => "\r\n",
            _ => "\n",
        }
    }

    pub open spec fn spec_run_server_filename(self) -> Seq<char> {
        match self {
            OsFamily::Windows => "run_server.bat"@,
            _ => "run_server"@,
        }
    }

    /// The name of the script that starts the server.
    pub fn run_server_filename(&self) -> (r: &'static str)
        ensures
            r@ == self.spec_run_server_filename(),
    {
        match self {
            OsFamily::Windows => "run_server.bat",
            _ => "run_server",
        }
    }

    pub open spec fn spec_not_a_directory_code(self) -> Option<i32> {
        match self {
            OsFamily::Windows => Some(267),
            _ => Some(20),
        }
    }
}

/// `rel` below `base`, with one separator between them.
pub open spec fn join_spec(base: Seq<char>, rel: Seq<char>, sep: char) -> Seq<char> {
    if base.len() == 0 {
        rel
    } else if base.last() == sep {
        base + rel
    } else {
        base.push(sep) + rel
    }
}

/// Joins a relative path onto a directory.
pub fn join_path(base: &str, rel: &str, os: OsFamily) -> (r: String)
    ensures
        r@ == join_spec(base@, rel@, os.spec_separator()),
{
    let sep = os.separator();
    let n = base.unicode_len();
    let mut r = String::new();
    push_str(&mut r, base);
    if n > 0 && base.get_char(n - 1) != sep {
        push_char(&mut r, sep);
    }
    push_str(&mut r, rel);
    r
}

/// How an I/O failure was classified by the operating system.
#[derive(Debug, Clone, Copy, PartialEq, Eq, Structural)]
pub enum ErrorKindClass {
    NotFound,
    Other,
}

/// Whether an I/O failure means that the path is absent: either the system
/// said "not found", or a component of the path was no directory (whose code
/// differs between systems).
pub fn is_not_found(kind: ErrorKindClass, raw_os_error: Option<i32>, os: OsFamily) -> (r: bool)
    ensures
        r == (kind == ErrorKindClass::NotFound || (raw_os_error is Some
            && os.spec_not_a_directory_code() == raw_os_error)),
{
    if kind == ErrorKindClass::NotFound {
        return true;
    }
    let not_a_directory: Option<i32> = match os {
        OsFamily::Windows => Some(267),
        _ => Some(20),
    };
    match (raw_os_error, not_a_directory) {
        (Some(code), Some(expected)) => code == expected,
        _ => false,
    }
}

} // verus!
