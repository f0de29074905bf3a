use vstd::prelude::*;
use crate::mod_loader::ModLoader;
use crate::mod_provider::ModProvider;
use crate::java_version::{decimal_value, is_ascii_digit, lemma_decimal_prefix_le};
use crate::text::{chars_of, trim, trimmed};

verus! {

/// The arguments of `new`: create an instance.
#[derive(Debug, Clone)]
pub struct NewCommand {
    /// The name of the new instance.
    pub name: String,
    /// The game version; the latest release when absent.
    pub version: Option<String>,
    /// An explicit Java executable.
    pub custom_java_exe: Option<String>,
    /// Skip Java compatibility checks.
    pub skip_java_check: bool,
    /// Agree to the EULA up front.
    pub eula: bool,
    /// The directory that server configuration files are copied from.
    pub config_template: String,
    /// The loader of the instance.
    pub loader: ModLoader,
    /// The Fabric loader version (Fabric only).
    pub fabric_loader_version: Option<String>,
    /// The Paper build (Paper only).
    pub paper_build: Option<u32>,
}

/// The arguments of `add`: add a mod to the instance in the current directory.
#[derive(Debug, Clone)]
pub struct AddCommand {
    /// The name or slug of the mod.
    pub name: String,
    /// Where to get the mod from; the loader's default when absent.
    pub provider: Option<ModProvider>,
    /// Search even when the name is a valid slug.
    pub force_search: bool,
    /// Accept mods that do not list the instance's game version.
    pub skip_version_check: bool,
}

/// A subcommand.
#[derive(Debug, Clone)]
pub enum Command {
    New(NewCommand),
    Add(AddCommand),
}

/// The whole command line.
#[derive(Debug, Clone)]
pub struct Cli {
    pub command: Command,
}

/// An option that does not fit the chosen loader.
#[derive(Debug, Clone, Copy, PartialEq, Eq, Structural)]
pub enum CliError {
    /// A Fabric loader version was given but the loader is not Fabric.
    FabricVersionWithoutFabric,
    /// A Paper build was given but the loader is not Paper.
    PaperBuildWithoutPaper,
}

pub open spec fn new_command_check(c: NewCommand) -> Result<(), CliError> {
    if c.fabric_loader_version is Some && c.loader != ModLoader::Fabric {
        Err(CliError::FabricVersionWithoutFabric)
    } else if c.paper_build is Some && c.loader != ModLoader::Paper {
        Err(CliError::PaperBuildWithoutPaper)
    } else {
        Ok(())
    }
}

pub open spec fn command_check(c: Command) -> Result<(), CliError> {
    match c {
        Command::New(n) => new_command_check(n),
        Command::Add(_) => Ok(()),
    }
}

impl NewCommand {
    /// Loader-specific options need their loader.
    pub fn validate(&self) -> (r: Result<(), CliError>)
        ensures
            r == new_command_check(*self),
    {
        if self.fabric_loader_version.is_some() && self.loader != ModLoader::Fabric {
            return Err(CliError::FabricVersionWithoutFabric);
        }
        if self.paper_build.is_some() && self.loader != ModLoader::Paper {
            return Err(CliError::PaperBuildWithoutPaper);
        }
        Ok(())
    }
}

impl Command {
    pub fn validate(&self) -> (r: Result<(), CliError>)
        ensures
            r == command_check(*self),
    {
        match self {
            Command::New(c) => c.validate(),
            Command::Add(_) => Ok(()),
        }
    }
}

impl Cli {
    /// Checks the options that the parser cannot check alone.
    pub fn validate(&self) -> (r: Result<(), CliError>)
        ensures
            r == command_check(self.command),
    {
        self.command.validate()
    }
}


/// The answer to a numbered choice.
#[derive(Debug, Clone, Copy, PartialEq, Eq, Structural)]
pub enum Selection {
    /// Nothing was typed: take the first entry.
    Default,
    /// The entry at this index (counted from 0).
    Pick(usize),
    /// The answer names no entry: ask again.
    Invalid,
}

/// The number that an answer spells as `usize` does: an optional `+` and
/// at least one decimal digit.
pub open spec fn unsigned_digits(t: Seq<char>) -> Seq<char> {
    if t.len() > 0 && t[0] == '+' {
        t.drop_first()
    } else {
        t
    }
}

pub open spec fn all_digits(d: Seq<char>) -> bool {
    forall|i: int| 0 <= i < d.len() ==> is_ascii_digit(#[trigger] d[i])
}

pub open spec fn unsigned_value(t: Seq<char>) -> Option<nat> {
    let d = unsigned_digits(t);
    if d.len() > 0 && all_digits(d) && decimal_value(d) <= usize::MAX {
        Some(decimal_value(d))
    } else {
        None
    }
}

pub open spec fn selection_spec(input: Seq<char>, count: usize) -> Selection {
    let t = trimmed(input);
    if t.len() == 0 {
        Selection::Default
    } else {
        match unsigned_value(t) {
            Some(n) => if 1 <= n <= count {
                Selection::Pick((n - 1) as usize)
            } else {
                Selection::Invalid
            },
            None => Selection::Invalid,
        }
    }
}

/// Reads the answer to a choice among `count` entries numbered from 1.
pub fn parse_selection(input: &str, count: usize) -> (r: Selection)
    ensures
        r == selection_spec(input@, count),
{
    let t = trim(input);
    let v = chars_of(t.as_str());
    let n = v.len();
    if n == 0 {
        return Selection::Default;
    }
    let start: usize = if v[0] == '+' { 1 } else { 0 };
    let ghost d = if v@[0] == '+' { v@.drop_first() } else { v@ };
    assert(d =~= v@.subrange(start as int, n as int));
    assert(d == unsigned_digits(v@));
    if start == n {
        return Selection::Invalid;
    }
    let mut acc: usize = 0;
    let mut i: usize = start;
    while i < n
        invariant
            n == v@.len(),
            start <= i <= n,
            d == v@.subrange(start as int, n as int),
            d == unsigned_digits(v@),
            v@ == trimmed(input@),
            forall|k: int| start <= k < i ==> is_ascii_digit(#[trigger] v@[k]),
            acc as nat == decimal_value(d.subrange(0, i - start)),
        decreases n - i,
    {
        let c = v[i];
        if !('0' <= c && c <= '9') {
            assert(d[i - start] == c);
            assert(!is_ascii_digit(d[i - start]));
            assert(!all_digits(d));
            assert(unsigned_value(v@) is None);
            return Selection::Invalid;
        }
        let digit = (c as u32 - 48) as usize;
        proof {
            let p = d.subrange(0, i - start + 1);
            assert(p.drop_last() =~= d.subrange(0, i - start));
            assert(p.last() == c);
        }
        if acc > (usize::MAX - digit) / 10 {
            proof {
                let m = usize::MAX - digit;
                assert(acc * 10 + digit > usize::MAX) by (nonlinear_arith)
                    requires
                        acc > m / 10,
                        m == usize::MAX - digit,
                        0 <= digit <= 9,
                ;
                if all_digits(d) {
                    lemma_decimal_prefix_le(d, i - start + 1);
                }
                assert(unsigned_value(v@) is None);
            }
            return Selection::Invalid;
        }
        acc = acc * 10 + digit;
        i = i + 1;
    }
    assert(d.subrange(0, n - start) =~= d);
    if 1 <= acc && acc <= count {
        Selection::Pick(acc - 1)
    } else {
        Selection::Invalid
    }
}

} // verus!
