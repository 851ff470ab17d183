//! The resolver and the assembler: from the raw argument vector to a
//! structured [`Command`].
//!
//! [`resolve_tokens`] reads the vector against the schema and returns the raw
//! matches: the two boolean matching flags, the surviving output flag, and
//! the positional operands.  [`assemble`] derives the final configuration
//! from the raw matches.  [`parse`] strings the two together, answering help
//! and version requests first.

use vstd::prelude::*;

use crate::schema::OutputFlag;
use crate::schema::all_recognized;
use crate::schema::files_of_operands;
use crate::schema::flag_token;
use crate::schema::has_ignore_case;
use crate::schema::has_invert;
use crate::schema::has_pattern;
use crate::schema::help_token;
use crate::schema::ignore_case_token;
use crate::schema::invert_token;
use crate::schema::is_help_token;
use crate::schema::is_ignore_case_token;
use crate::schema::is_invert_token;
use crate::schema::is_version_token;
use crate::schema::output_flag_upto;
use crate::schema::positionals;
use crate::schema::positionals_upto;
use crate::schema::recognized_token;
use crate::schema::resolved_files;
use crate::schema::resolved_inverse;
use crate::schema::resolved_output_flag;
use crate::schema::resolved_pattern;
use crate::schema::token_output;
use crate::schema::token_recognized;
use crate::schema::version_token;
use crate::schema::wants_help;
use crate::schema::wants_version;

verus! {

/// Which property of a match is printed.
#[derive(Clone, Copy, Debug, PartialEq, Eq, Structural)]
pub enum Output {
    /// Print the names of the matched files (the default).
    FileName,
    /// Print the matched bytes of each match.
    Bytes,
    /// Print the byte offset of each match.
    Offset,
}

impl Default for Output {
    /// The default output mode prints file names.
    fn default() -> (r: Output)
        ensures
            r == Output::FileName,
    {
        Output::FileName
    }
}

/// The resolved matching options of a search request.
#[derive(Clone, Copy, Debug, PartialEq, Eq, Structural)]
pub struct Options {
    /// Report non-matches instead of matches.
    pub inverse: bool,
    /// Fold case during matching.
    pub case_insensitive: bool,
    /// Which property of a match is printed.
    pub output: Output,
}

impl Default for Options {
    /// Without any flag, matching is plain and file names are printed.
    fn default() -> (r: Options)
        ensures
            r == (Options { inverse: false, case_insensitive: false, output: Output::FileName }),
    {
        Options { inverse: false, case_insensitive: false, output: Output::FileName }
    }
}

/// A fully resolved search request.
#[derive(Debug)]
pub struct Args {
    /// The resolved matching options.
    pub options: Options,
    /// The search pattern; never empty.
    pub pattern: String,
    /// The files to search, in the order given; never empty.  A lone `-`
    /// stands for standard input.
    pub files: Vec<String>,
}

impl Args {
    /// The structural invariant of a search request: the pattern is never
    /// empty, and at least one file operand (possibly the stdin sentinel)
    /// is present.
    pub open spec fn wf(self) -> bool {
        self.pattern@.len() > 0 && self.files@.len() > 0
    }
}

/// What one invocation asks the program to do.
#[derive(Debug)]
pub enum Command {
    /// Render the usage text and stop.
    Help(String),
    /// Render the version line and stop.
    Version(String),
    /// Search as described.
    Grep(Args),
}

/// A malformed invocation, with a human-readable message.
#[derive(Debug)]
pub struct Error {
    /// What was wrong with the invocation.
    pub message: String,
}

/// The raw matches the resolver hands to the assembler: flag presence and
/// the positional operands, before any defaulting.
#[derive(Debug)]
pub struct RawMatches {
    /// The invert-match flag was given.
    pub invert: bool,
    /// The ignore-case flag was given.
    pub ignore_case: bool,
    /// The output flag left standing after the override rule, if any.
    pub output_flag: Option<OutputFlag>,
    /// The positional operands, in order: the pattern first, then the files.
    pub operands: Vec<String>,
}

/// The output mode selected by a surviving output flag: matched bytes for
/// only-matching, byte offsets for byte-offset, and file names otherwise —
/// both file-listing flags, and the absence of any output flag, print file
/// names.
pub open spec fn output_mode_of(f: Option<OutputFlag>) -> Output {
    match f {
        Some(OutputFlag::OnlyMatching) => Output::Bytes,
        Some(OutputFlag::ByteOffset) => Output::Offset,
        Some(OutputFlag::FilesWith) => Output::FileName,
        Some(OutputFlag::FilesWithout) => Output::FileName,
        None => Output::FileName,
    }
}

/// The output mode of the whole vector.
pub open spec fn resolved_output(v: Seq<Seq<char>>) -> Output {
    output_mode_of(resolved_output_flag(v))
}

/// The usage text rendered for a help request.
pub open spec fn usage_text() -> Seq<char> {
    "grep 0.1.0
search for a pattern in files

USAGE:
    grep [FLAGS] <pattern> [files]...

FLAGS:
    -b, --byte-offset             print the byte offset of each match
    -h, --help                    print this help text
    -i, --ignore-case             case insensitive matching
    -v, --invert-match            inverse matching
    -l, --files-with-matches      print the name of the matched files
    -L, --files-without-matches   print the name of non-matched files (equivalent to `-vl`)
    -o, --only-matching           print the matched bytes of each match
    -V, --version                 print version information

ARGS:
    <pattern>    the pattern to search for
    <files>...   the files to search; `-` or nothing reads standard input"@
}

/// The text rendered for a version request.
pub open spec fn version_text() -> Seq<char> {
    "grep 0.1.0"@
}

/// Renders the usage text.
fn usage_message() -> (s: String)
    ensures
        s@ == usage_text(),
{
    "grep 0.1.0
search for a pattern in files

USAGE:
    grep [FLAGS] <pattern> [files]...

FLAGS:
    -b, --byte-offset             print the byte offset of each match
    -h, --help                    print this help text
    -i, --ignore-case             case insensitive matching
    -v, --invert-match            inverse matching
    -l, --files-with-matches      print the name of the matched files
    -L, --files-without-matches   print the name of non-matched files (equivalent to `-vl`)
    -o, --only-matching           print the matched bytes of each match
    -V, --version                 print version information

ARGS:
    <pattern>    the pattern to search for
    <files>...   the files to search; `-` or nothing reads standard input".to_owned()
}

/// Renders the version line.
fn version_message() -> (s: String)
    ensures
        s@ == version_text(),
{
    "grep 0.1.0".to_owned()
}

/// The resolved search request `a` is the one the vector `v` describes.
pub open spec fn search_resolves(v: Seq<Seq<char>>, a: Args) -> bool {
    &&& a.pattern@ == resolved_pattern(v)
    &&& a.files.deep_view() == resolved_files(v)
    &&& a.options.inverse == resolved_inverse(v)
    &&& a.options.case_insensitive == has_ignore_case(v)
    &&& a.options.output == resolved_output(v)
}

/// Scans the vector for a help request.
fn scan_help(args: &Vec<String>) -> (r: bool)
    ensures
        r == wants_help(args.deep_view()),
{
    let ghost v = args.deep_view();
    let mut i: usize = 0;
    while i < args.len()
        invariant
            i <= args.len(),
            v == args.deep_view(),
            v.len() == args@.len(),
            forall|j: int| 0 <= j < i ==> !is_help_token(#[trigger] v[j]),
        decreases args.len() - i,
    {
        let t = &args[i];
        proof {
            assert(v[i as int] == args@[i as int]@);
        }
        if help_token(t) {
            return true;
        }
        i = i + 1;
    }
    false
}

/// Scans the vector for a version request.
fn scan_version(args: &Vec<String>) -> (r: bool)
    ensures
        r == wants_version(args.deep_view()),
{
    let ghost v = args.deep_view();
    let mut i: usize = 0;
    while i < args.len()
        invariant
            i <= args.len(),
            v == args.deep_view(),
            v.len() == args@.len(),
            forall|j: int| 0 <= j < i ==> !is_version_token(#[trigger] v[j]),
        decreases args.len() - i,
    {
        let t = &args[i];
        proof {
            assert(v[i as int] == args@[i as int]@);
        }
        if version_token(t) {
            return true;
        }
        i = i + 1;
    }
    false
}

/// The Argument Resolver: reads the vector against the schema and returns the
/// raw matches, or an error on the first token the schema does not accept.
/// Help and version tokens are answered a level above; at this level their
/// spellings are simply not recognized.
pub fn resolve_tokens(args: &Vec<String>) -> (r: Result<RawMatches, Error>)
    ensures
        (r matches Ok(m) ==> {
            &&& all_recognized(args.deep_view())
            &&& m.invert == has_invert(args.deep_view())
            &&& m.ignore_case == has_ignore_case(args.deep_view())
            &&& m.output_flag == resolved_output_flag(args.deep_view())
            &&& m.operands.deep_view() == positionals(args.deep_view())
        }),
        r is Err ==> !all_recognized(args.deep_view()),
{
    let ghost v = args.deep_view();
    let mut invert = false;
    let mut ignore_case = false;
    let mut output_flag: Option<OutputFlag> = None;
    let mut operands: Vec<String> = Vec::new();
    let mut i: usize = 0;
    while i < args.len()
        invariant
            i <= args.len(),
            v == args.deep_view(),
            v.len() == args@.len(),
            forall|j: int| 0 <= j < i ==> token_recognized(#[trigger] v[j]),
            invert == (exists|j: int| 0 <= j < i && is_invert_token(#[trigger] v[j])),
            ignore_case == (exists|j: int|
                0 <= j < i && is_ignore_case_token(#[trigger] v[j])),
            output_flag == output_flag_upto(v, i as int),
            operands.deep_view() == positionals_upto(v, i as int),
        decreases args.len() - i,
    {
        let t = &args[i];
        proof {
            assert(v[i as int] == args@[i as int]@);
        }
        if !recognized_token(t) {
            return Err(
                Error { message: "error: unexpected argument ".to_owned().concat(t.as_str()) },
            );
        }
        if invert_token(t) {
            invert = true;
        }
        if ignore_case_token(t) {
            ignore_case = true;
        }
        let of = token_output(t);
        if of.is_some() {
            output_flag = of;
        }
        if !flag_token(t) {
            operands.push(t.clone());
        }
        proof {
            assert(operands.deep_view() =~= positionals_upto(v, i + 1));
        }
        i = i + 1;
    }
    Ok(RawMatches { invert, ignore_case, output_flag, operands })
}

/// The Configuration Assembler: derives the final configuration from the raw
/// matches.  The first operand is the pattern; the remaining operands are the
/// files, defaulting to the stdin sentinel `-` when there are none; the
/// surviving output flag picks the output mode; and inversion is the
/// exclusive-or of the invert-match flag and a surviving
/// files-without-matches flag.  This stage cannot fail, but it is only asked
/// for once a non-empty pattern operand is there.
pub fn assemble(m: RawMatches) -> (a: Args)
    requires
        m.operands@.len() > 0,
        m.operands.deep_view()[0].len() > 0,
    ensures
        a.wf(),
        a.pattern@ == m.operands.deep_view()[0],
        a.files.deep_view() == files_of_operands(m.operands.deep_view()),
        a.options.inverse == (m.invert != (m.output_flag == Some(OutputFlag::FilesWithout))),
        a.options.case_insensitive == m.ignore_case,
        a.options.output == output_mode_of(m.output_flag),
{
    let RawMatches { invert, ignore_case, output_flag, operands } = m;
    let ghost ops = operands.deep_view();
    let mut rest = operands;
    let pattern = rest.remove(0);
    let files: Vec<String> = if rest.len() == 0 {
        let mut f: Vec<String> = Vec::new();
        f.push("-".to_owned());
        proof {
            assert(f.deep_view() =~= files_of_operands(ops));
        }
        f
    } else {
        proof {
            assert(rest.deep_view() =~= files_of_operands(ops));
        }
        rest
    };
    let output = match output_flag {
        Some(OutputFlag::OnlyMatching) => Output::Bytes,
        Some(OutputFlag::ByteOffset) => Output::Offset,
        _ => Output::FileName,
    };
    let without = match output_flag {
        Some(OutputFlag::FilesWithout) => true,
        _ => false,
    };
    Args { options: Options { inverse: invert != without, case_insensitive: ignore_case, output }, pattern, files }
}

/// Resolves one invocation: help and version requests first, then the schema
/// parse, then the assembly of the search request.  The four `ensures`
/// clauses cover every input: a help token anywhere answers help; otherwise a
/// version token anywhere answers the version; otherwise a vector of
/// recognized tokens with a non-empty pattern operand resolves to the search
/// request the vector describes; anything else is a malformed invocation.
pub fn parse(args: &Vec<String>) -> (r: Result<Command, Error>)
    ensures
        ({
            let v = args.deep_view();
            &&& (wants_help(v) ==> (r matches Ok(c) && c matches Command::Help(text)
                && text@ == usage_text()))
            &&& (!wants_help(v) && wants_version(v) ==> (r matches Ok(c) && c matches Command::Version(text)
                && text@ == version_text()))
            &&& (!wants_help(v) && !wants_version(v) && all_recognized(v) && has_pattern(v) ==> (
                r matches Ok(c) && c matches Command::Grep(a) && a.wf() && search_resolves(v, a)))
            &&& (!wants_help(v) && !wants_version(v) && !(all_recognized(v) && has_pattern(v))
                ==> r is Err)
        }),
{
    if scan_help(args) {
        return Ok(Command::Help(usage_message()));
    }
    if scan_version(args) {
        return Ok(Command::Version(version_message()));
    }
    let m = match resolve_tokens(args) {
        Ok(m) => m,
        Err(e) => {
            return Err(e);
        },
    };
    if m.operands.len() == 0 {
        return Err(
            Error { message: "error: the required <pattern> argument was not given".to_owned() },
        );
    }
    if m.operands[0].as_str().is_empty() {
        return Err(
            Error { message: "error: the <pattern> argument must not be empty".to_owned() },
        );
    }
    Ok(Command::Grep(assemble(m)))
}

} // verus!
