use vstd::prelude::*;
use crate::mojang::Timestamp;
use crate::platform::OsFamily;
use crate::text::push_str;

verus! {

/// Release times that bound the Log4Shell mitigations, in nanoseconds since
/// the epoch.
pub const TIME_13W39A: i128 = 1380208279_000_000_000;
pub const TIME_17W15A: i128 = 1491989450_000_000_000;
pub const TIME_1_17_PRE1: i128 = 1622108361_000_000_000;
pub const TIME_1_18_1_RC3: i128 = 1639107398_000_000_000;

/// The Log4Shell mitigation that a game version needs.
#[derive(Debug, Clone, Copy, PartialEq, Eq, Structural)]
pub enum Log4jFix {
    /// Released outside the affected range: nothing to do.
    Unaffected,
    /// Write the configuration file for 1.7 to 1.11 and point Log4j at it.
    Config17To111,
    /// Write the configuration file for 1.12 to 1.16 and point Log4j at it.
    Config112To116,
    /// Turn message lookups off.
    NoLookups,
}

pub open spec fn log4j_fix_spec(release_nanos: int) -> Log4jFix {
    if release_nanos < TIME_13W39A || release_nanos >= TIME_1_18_1_RC3 {
        Log4jFix::Unaffected
    } else if release_nanos < TIME_17W15A {
        Log4jFix::Config17To111
    } else if release_nanos < TIME_1_17_PRE1 {
        Log4jFix::Config112To116
    } else {
        Log4jFix::NoLookups
    }
}

/// The mitigation for a game version released at `release_time`.
pub fn log4j_fix(release_time: Timestamp) -> (r: Log4jFix)
    ensures
        r == log4j_fix_spec(release_time.unix_nanos as int),
{
    let t = release_time.unix_nanos;
    if t < TIME_13W39A || t >= TIME_1_18_1_RC3 {
        Log4jFix::Unaffected
    } else if t < TIME_17W15A {
        Log4jFix::Config17To111
    } else if t < TIME_1_17_PRE1 {
        Log4jFix::Config112To116
    } else {
        Log4jFix::NoLookups
    }
}

impl Log4jFix {
    pub open spec fn spec_config_file(self) -> Option<Seq<char>> {
        match self {
            Log4jFix::Config17To111 => Some("log4j2_17-111.xml"@),
            Log4jFix::Config112To116 => Some("log4j2_112-116.xml"@),
            _ => None,
        }
    }

    /// The configuration file to write into the instance, if any.
    pub fn config_file(&self) -> (r: Option<&'static str>)
        ensures
            match r {
                Some(f) => self.spec_config_file() == Some(f@),
                None => self.spec_config_file() is None,
            },
    {
        match self {
            Log4jFix::Config17To111 => Some("log4j2_17-111.xml"),
            Log4jFix::Config112To116 => Some("log4j2_112-116.xml"),
            _ => None,
        }
    }

    pub open spec fn spec_flag(self) -> Seq<char> {
        match self {
            Log4jFix::Unaffected => ""@,
            Log4jFix::Config17To111 => "-Dlog4j.configurationFile=log4j2_17-111.xml "@,
            Log4jFix::Config112To116 => "-Dlog4j.configurationFile=log4j2_112-116.xml "@,
            Log4jFix::NoLookups => "-Dlog4j2.formatMsgNoLookups=true "@,
        }
    }

    /// The Java option that applies the mitigation, with a trailing space.
    pub fn flag(&self) -> (r: &'static str)
        ensures
            r@ == self.spec_flag(),
    {
        match self {
            Log4jFix::Unaffected => "",
            Log4jFix::Config17To111 => "-Dlog4j.configurationFile=log4j2_17-111.xml ",
            Log4jFix::Config112To116 => "-Dlog4j.configurationFile=log4j2_112-116.xml ",
            Log4jFix::NoLookups => "-Dlog4j2.formatMsgNoLookups=true ",
        }
    }
}

pub open spec fn vanilla_command_spec(java_exe: Seq<char>, release_nanos: int, os: OsFamily) -> Seq<char> {
    java_exe + " "@ + log4j_fix_spec(release_nanos).spec_flag() + "-jar server.jar nogui"@
        + os.spec_line_ending()
}

/// The line of the run script of a plain server: the (escaped) Java
/// executable, the Log4Shell mitigation for its release time, the jar.
pub fn vanilla_run_command(java_exe: &str, release_time: Timestamp, os: OsFamily) -> (r: String)
    ensures
        r@ == vanilla_command_spec(java_exe@, release_time.unix_nanos as int, os),
{
    let mut r = String::from_str(java_exe);
    push_str(&mut r, " ");
    push_str(&mut r, log4j_fix(release_time).flag());
    push_str(&mut r, "-jar server.jar nogui");
    push_str(&mut r, os.line_ending());
    r
}

/// The text of `eula.txt` for a user who agreed.
pub fn eula_file_contents(os: OsFamily) -> (r: String)
    ensures
        r@ == "eula=true"@ + os.spec_line_ending(),
{
    let mut r = String::from_str("eula=true");
    push_str(&mut r, os.line_ending());
    r
}

/// Whether an answer to the EULA question agrees: it starts with `y` or `Y`.
pub fn eula_answer_agrees(answer: &str) -> (r: bool)
    ensures
        r == (answer@.len() > 0 && (answer@[0] == 'y' || answer@[0] == 'Y')),
{
    if answer.unicode_len() == 0 {
        return false;
    }
    let c = answer.get_char(0);
    c == 'y' || c == 'Y'
}

/// Whether the EULA counts as agreed: given on the command line, or else by
/// the answer to the question.
pub fn eula_agreed(eula_flag: bool, answer: Option<&str>) -> (r: bool)
    ensures
        r == (eula_flag || (answer matches Some(a) && a@.len() > 0 && (a@[0] == 'y' || a@[0] == 'Y'))),
{
    if eula_flag {
        return true;
    }
    match answer {
        Some(a) => eula_answer_agrees(a),
        None => false,
    }
}

} // verus!
