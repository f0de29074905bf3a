use vstd::prelude::*;
use crate::platform::OsFamily;
use crate::text::{is_white_space_exec, push_char, push_str};

verus! {

/// Unicode white space, as `char::is_whitespace` defines it.
pub open spec fn is_white_space(c: char) -> bool {
    let u = c as u32;
    (0x09 <= u && u <= 0x0d) || u == 0x20 || u == 0x85 || u == 0xa0 || u == 0x1680 || (0x2000
        <= u && u <= 0x200a) || u == 0x2028 || u == 0x2029 || u == 0x202f || u == 0x205f || u
        == 0x3000
}


/// Whether the character at position `i` of a path must be quoted for a
/// POSIX shell (a `~` only matters away from the start).
pub open spec fn unix_needs_escape(i: int, c: char) -> bool {
    is_white_space(c) || c == '!' || c == '"' || c == '#' || c == '$' || c == '&' || c == '\''
        || c == '(' || c == ')' || c == '*' || c == ';' || c == '<' || c == '=' || c == '>' || c
        == '?' || c == '[' || c == '\\' || c == ']' || c == '^' || c == '`' || c == '{' || c
        == '|' || c == '}' || (c == '~' && i != 0)
}

/// Whether a character makes a batch file quote the path: white space, or
/// any character outside the batch metacharacters.
pub open spec fn windows_needs_escape(c: char) -> bool {
    is_white_space(c) || !(c == '%' || c == '^' || c == '&' || c == '<' || c == '>' || c == '|'
        || c == '\'' || c == '"' || c == '(' || c == ')')
}

/// The body of a single-quoted shell word: each `'` becomes `'\''`.
pub open spec fn unix_quoted_body(s: Seq<char>) -> Seq<char>
    decreases s.len(),
{
    if s.len() == 0 {
        s
    } else {
        unix_quoted_body(s.drop_last()) + if s.last() == '\'' {
            seq!['\'', '\\', '\'', '\'']
        } else {
            seq![s.last()]
        }
    }
}

/// The body of a double-quoted batch word: `"` and `%` are doubled.
pub open spec fn windows_quoted_body(s: Seq<char>) -> Seq<char>
    decreases s.len(),
{
    if s.len() == 0 {
        s
    } else {
        windows_quoted_body(s.drop_last()) + if s.last() == '"' {
            seq!['"', '"']
        } else if s.last() == '%' {
            seq!['%', '%']
        } else {
            seq![s.last()]
        }
    }
}

/// How a path to an executable is written into the run script.
pub open spec fn escape_spec(s: Seq<char>, os: OsFamily) -> Seq<char> {
    match os {
        OsFamily::Windows => if exists|i: int| 0 <= i < s.len() && windows_needs_escape(#[trigger] s[i]) {
            seq!['"'] + windows_quoted_body(s) + seq!['"']
        } else {
            s
        },
        _ => if exists|i: int| 0 <= i < s.len() && unix_needs_escape(i, #[trigger] s[i]) {
            seq!['\''] + unix_quoted_body(s) + seq!['\'']
        } else {
            s
        },
    }
}

fn unix_char_needs_escape(i: usize, c: char) -> (r: bool)
    ensures
        r == unix_needs_escape(i as int, c),
{
    is_white_space_exec(c) || c == '!' || c == '"' || c == '#' || c == '$' || c == '&' || c == '\'' || c
        == '(' || c == ')' || c == '*' || c == ';' || c == '<' || c == '=' || c == '>' || c == '?'
        || c == '[' || c == '\\' || c == ']' || c == '^' || c == '`' || c == '{' || c == '|' || c
        == '}' || (c == '~' && i != 0)
}

fn windows_char_needs_escape(c: char) -> (r: bool)
    ensures
        r == windows_needs_escape(c),
{
    is_white_space_exec(c) || !(c == '%' || c == '^' || c == '&' || c == '<' || c == '>' || c == '|' || c
        == '\'' || c == '"' || c == '(' || c == ')')
}

/// Quotes the path of an executable for the run script of `os`, when it
/// holds a character that the script's interpreter would read specially.
pub fn escape_executable_name(exe_name: &str, os: OsFamily) -> (r: String)
    ensures
        r@ == escape_spec(exe_name@, os),
{
    let n = exe_name.unicode_len();
    let windows = os == OsFamily::Windows;
    let mut needs = false;
    let mut i: usize = 0;
    while i < n
        invariant
            n == exe_name@.len(),
            i <= n,
            windows == (os == OsFamily::Windows),
            needs == (exists|k: int| 0 <= k < i && (if windows {
                windows_needs_escape(#[trigger] exe_name@[k])
            } else {
                unix_needs_escape(k, exe_name@[k])
            })),
        decreases n - i,
    {
        let c = exe_name.get_char(i);
        let here = if windows { windows_char_needs_escape(c) } else { unix_char_needs_escape(i, c) };
        if here {
            assert(if windows {
                windows_needs_escape(exe_name@[i as int])
            } else {
                unix_needs_escape(i as int, exe_name@[i as int])
            });
        }
        needs = needs || here;
        i = i + 1;
    }
    if !needs {
        let r = String::from_str(exe_name);
        proof {
            if windows {
                assert(!exists|k: int| 0 <= k < exe_name@.len() && windows_needs_escape(#[trigger] exe_name@[k])) by {
                    assert forall|k: int| 0 <= k < exe_name@.len() implies !windows_needs_escape(#[trigger] exe_name@[k]) by {
                        if windows_needs_escape(exe_name@[k]) {
                            assert(if windows { windows_needs_escape(exe_name@[k]) } else { unix_needs_escape(k, exe_name@[k]) });
                        }
                    }
                }
            } else {
                assert(!exists|k: int| 0 <= k < exe_name@.len() && unix_needs_escape(k, #[trigger] exe_name@[k])) by {
                    assert forall|k: int| 0 <= k < exe_name@.len() implies !unix_needs_escape(k, #[trigger] exe_name@[k]) by {
                        if unix_needs_escape(k, exe_name@[k]) {
                            assert(if windows { windows_needs_escape(exe_name@[k]) } else { unix_needs_escape(k, exe_name@[k]) });
                        }
                    }
                }
            }
        }
        return r;
    }
    let quote = if windows { '"' } else { '\'' };
    let mut r = String::new();
    push_char(&mut r, quote);
    let mut j: usize = 0;
    while j < n
        invariant
            n == exe_name@.len(),
            j <= n,
            windows == (os == OsFamily::Windows),
            r@ == seq![quote] + if windows {
                windows_quoted_body(exe_name@.subrange(0, j as int))
            } else {
                unix_quoted_body(exe_name@.subrange(0, j as int))
            },
        decreases n - j,
    {
        let c = exe_name.get_char(j);
        proof {
            let p = exe_name@.subrange(0, j + 1);
            assert(p.drop_last() =~= exe_name@.subrange(0, j as int));
            assert(p.last() == c);
        }
        if windows && c == '"' {
            push_str(&mut r, "\"\"");
            proof { reveal_strlit("\"\""); }
        } else if windows && c == '%' {
            push_str(&mut r, "%%");
            proof { reveal_strlit("%%"); }
        } else if !windows && c == '\'' {
            push_str(&mut r, "'\\''");
            proof { reveal_strlit("'\\''"); }
        } else {
            push_char(&mut r, c);
        }
        j = j + 1;
        assert(r@ =~= seq![quote] + if windows {
            windows_quoted_body(exe_name@.subrange(0, j as int))
        } else {
            unix_quoted_body(exe_name@.subrange(0, j as int))
        });
    }
    push_char(&mut r, quote);
    assert(exe_name@.subrange(0, n as int) =~= exe_name@);
    proof {
        if windows {
            let k = choose|k: int| 0 <= k < n && (if windows { windows_needs_escape(exe_name@[k]) } else { unix_needs_escape(k, exe_name@[k]) });
            assert(windows_needs_escape(exe_name@[k]));
        } else {
            let k = choose|k: int| 0 <= k < n && (if windows { windows_needs_escape(exe_name@[k]) } else { unix_needs_escape(k, exe_name@[k]) });
            assert(unix_needs_escape(k, exe_name@[k]));
        }
    }
    r
}

/// Why the chosen Java cannot be used.
#[derive(Debug, Clone, Copy, PartialEq, Eq, Structural)]
pub enum JavaCheckError {
    /// The explicitly given Java is older than needed.
    Incompatible { found: u32, required: u32 },
    /// No candidate is left to choose from.
    NoneFound { required: u32 },
}

/// Checks an explicitly given Java against the version that is needed.
pub fn check_custom_java(found_major: u32, required: u32, skip_check: bool) -> (r: Result<(), JavaCheckError>)
    ensures
        r is Ok <==> (skip_check || found_major >= required),
        r is Err ==> r == Err::<(), JavaCheckError>(JavaCheckError::Incompatible { found: found_major, required }),
{
    if !skip_check && found_major < required {
        Err(JavaCheckError::Incompatible { found: found_major, required })
    } else {
        Ok(())
    }
}

/// Whether to warn that the chosen Java is newer than recommended.
pub fn newer_than_recommended(found_major: u32, required: u32, skip_check: bool) -> (r: bool)
    ensures
        r == (!skip_check && found_major > required),
{
    !skip_check && found_major > required
}

} // verus!
