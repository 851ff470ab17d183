//! The argument schema: which tokens are flags, which flags are recognized,
//! and how a single token is classified.
//!
//! A token is modelled by its character sequence.  A token of at least two
//! characters that starts with `-` is a flag token: either a long flag
//! (`--name`) or a cluster of short flags (`-vi`).  Everything else — including
//! the bare `-`, the conventional name for standard input — is a positional
//! operand.

use vstd::prelude::*;

verus! {

/// One of the four mutually overriding output flags of the schema.
#[derive(Clone, Copy, Debug, PartialEq, Eq, Structural)]
pub enum OutputFlag {
    /// `-o` / `--only-matching`
    OnlyMatching,
    /// `-b` / `--byte-offset`
    ByteOffset,
    /// `-l` / `--files-with-matches`
    FilesWith,
    /// `-L` / `--files-without-matches`
    FilesWithout,
}

/// A long flag token: `--` followed by at least nothing more.
pub open spec fn is_long_token(t: Seq<char>) -> bool {
    t.len() >= 2 && t[0] == '-' && t[1] == '-'
}

/// A cluster of short flags: `-` followed by at least one character that is
/// not itself `-`.
pub open spec fn is_cluster_token(t: Seq<char>) -> bool {
    t.len() >= 2 && t[0] == '-' && t[1] != '-'
}

/// A token that the schema reads as a flag rather than as an operand.
pub open spec fn is_flag_token(t: Seq<char>) -> bool {
    is_long_token(t) || is_cluster_token(t)
}

/// The cluster token `t` mentions the short flag `c` (positions after the
/// leading dash).
pub open spec fn cluster_has(t: Seq<char>, c: char) -> bool {
    exists|i: int| 1 <= i < t.len() && t[i] == c
}

/// The token asks for help: the long spelling, or `h` inside a cluster
/// (which covers the plain `-h`).
pub open spec fn is_help_token(t: Seq<char>) -> bool {
    t == "--help"@ || (is_cluster_token(t) && cluster_has(t, 'h'))
}

/// The token asks for the version: the long spelling, or `V` inside a cluster.
pub open spec fn is_version_token(t: Seq<char>) -> bool {
    t == "--version"@ || (is_cluster_token(t) && cluster_has(t, 'V'))
}

/// The token sets the invert-match flag.
pub open spec fn is_invert_token(t: Seq<char>) -> bool {
    t == "--invert-match"@ || (is_cluster_token(t) && cluster_has(t, 'v'))
}

/// The token sets the ignore-case flag.
pub open spec fn is_ignore_case_token(t: Seq<char>) -> bool {
    t == "--ignore-case"@ || (is_cluster_token(t) && cluster_has(t, 'i'))
}

/// The short flags the schema knows, help and version aside.
pub open spec fn known_short(c: char) -> bool {
    c == 'v' || c == 'i' || c == 'o' || c == 'b' || c == 'l' || c == 'L'
}

/// The long flags the schema knows, help and version aside.
pub open spec fn known_long(t: Seq<char>) -> bool {
    ||| t == "--invert-match"@
    ||| t == "--ignore-case"@
    ||| t == "--only-matching"@
    ||| t == "--byte-offset"@
    ||| t == "--files-with-matches"@
    ||| t == "--files-without-matches"@
}

/// A cluster made only of known short flags.
pub open spec fn is_valid_cluster(t: Seq<char>) -> bool {
    is_cluster_token(t) && (forall|i: int| 1 <= i < t.len() ==> known_short(#[trigger] t[i]))
}

/// The schema accepts the token: an operand, a known long flag, or a cluster
/// of known short flags.  Help and version tokens are resolved before this
/// question is asked, so they are not listed here.
pub open spec fn token_recognized(t: Seq<char>) -> bool {
    !is_flag_token(t) || known_long(t) || is_valid_cluster(t)
}

/// The output flag named by a long token, if any.
pub open spec fn long_output_flag(t: Seq<char>) -> Option<OutputFlag> {
    if t == "--only-matching"@ {
        Some(OutputFlag::OnlyMatching)
    } else if t == "--byte-offset"@ {
        Some(OutputFlag::ByteOffset)
    } else if t == "--files-with-matches"@ {
        Some(OutputFlag::FilesWith)
    } else if t == "--files-without-matches"@ {
        Some(OutputFlag::FilesWithout)
    } else {
        None
    }
}

/// The output flag named by a short flag character, if any.
pub open spec fn short_output_flag(c: char) -> Option<OutputFlag> {
    if c == 'o' {
        Some(OutputFlag::OnlyMatching)
    } else if c == 'b' {
        Some(OutputFlag::ByteOffset)
    } else if c == 'l' {
        Some(OutputFlag::FilesWith)
    } else if c == 'L' {
        Some(OutputFlag::FilesWithout)
    } else {
        None
    }
}

/// The last output flag among the cluster positions `1 .. k` of `t`, if any.
pub open spec fn cluster_output_flag_upto(t: Seq<char>, k: int) -> Option<OutputFlag>
    decreases k,
{
    if k <= 1 {
        None
    } else if short_output_flag(t[k - 1]) is Some {
        short_output_flag(t[k - 1])
    } else {
        cluster_output_flag_upto(t, k - 1)
    }
}

/// The last output flag a single token carries, if any: a long spelling, or
/// the rightmost output flag of a cluster.
pub open spec fn token_output_flag(t: Seq<char>) -> Option<OutputFlag> {
    if long_output_flag(t) is Some {
        long_output_flag(t)
    } else if is_cluster_token(t) {
        cluster_output_flag_upto(t, t.len() as int)
    } else {
        None
    }
}

/// Some token of the vector asks for help.
pub open spec fn wants_help(v: Seq<Seq<char>>) -> bool {
    exists|j: int| 0 <= j < v.len() && is_help_token(#[trigger] v[j])
}

/// Some token of the vector asks for the version.
pub open spec fn wants_version(v: Seq<Seq<char>>) -> bool {
    exists|j: int| 0 <= j < v.len() && is_version_token(#[trigger] v[j])
}

/// Some token of the vector sets the invert-match flag.
pub open spec fn has_invert(v: Seq<Seq<char>>) -> bool {
    exists|j: int| 0 <= j < v.len() && is_invert_token(#[trigger] v[j])
}

/// Some token of the vector sets the ignore-case flag.
pub open spec fn has_ignore_case(v: Seq<Seq<char>>) -> bool {
    exists|j: int| 0 <= j < v.len() && is_ignore_case_token(#[trigger] v[j])
}

/// Every token of the vector is one the schema accepts.
pub open spec fn all_recognized(v: Seq<Seq<char>>) -> bool {
    forall|j: int| 0 <= j < v.len() ==> token_recognized(#[trigger] v[j])
}

/// The output flag left standing after reading the tokens `0 .. n`: among the
/// mutually overriding output flags, the one standing latest wins.
pub open spec fn output_flag_upto(v: Seq<Seq<char>>, n: int) -> Option<OutputFlag>
    decreases n,
{
    if n <= 0 {
        None
    } else if token_output_flag(v[n - 1]) is Some {
        token_output_flag(v[n - 1])
    } else {
        output_flag_upto(v, n - 1)
    }
}

/// The output flag left standing after the whole vector, if any.
pub open spec fn resolved_output_flag(v: Seq<Seq<char>>) -> Option<OutputFlag> {
    output_flag_upto(v, v.len() as int)
}

/// The positional operands among the tokens `0 .. n`, in order.
pub open spec fn positionals_upto(v: Seq<Seq<char>>, n: int) -> Seq<Seq<char>>
    decreases n,
{
    if n <= 0 {
        Seq::empty()
    } else if is_flag_token(v[n - 1]) {
        positionals_upto(v, n - 1)
    } else {
        positionals_upto(v, n - 1).push(v[n - 1])
    }
}

/// The positional operands of the whole vector, in order: the pattern first,
/// then the file operands.
pub open spec fn positionals(v: Seq<Seq<char>>) -> Seq<Seq<char>> {
    positionals_upto(v, v.len() as int)
}

/// A non-empty pattern operand is present.
pub open spec fn has_pattern(v: Seq<Seq<char>>) -> bool {
    positionals(v).len() > 0 && positionals(v)[0].len() > 0
}

/// The pattern: the first positional operand.
pub open spec fn resolved_pattern(v: Seq<Seq<char>>) -> Seq<char> {
    positionals(v)[0]
}

/// The file list derived from the positional operands: everything after the
/// pattern, or the single stdin sentinel `-` when no file operand was given.
pub open spec fn files_of_operands(ops: Seq<Seq<char>>) -> Seq<Seq<char>> {
    if ops.len() <= 1 {
        seq!["-"@]
    } else {
        ops.subrange(1, ops.len() as int)
    }
}

/// The file list of the whole vector.
pub open spec fn resolved_files(v: Seq<Seq<char>>) -> Seq<Seq<char>> {
    files_of_operands(positionals(v))
}

/// Inverted matching: the exclusive-or of the invert-match flag and a
/// surviving files-without-matches flag, so giving both `-v` and `-L`
/// cancels the inversion.
pub open spec fn resolved_inverse(v: Seq<Seq<char>>) -> bool {
    has_invert(v) != (resolved_output_flag(v) == Some(OutputFlag::FilesWithout))
}

/// Tests whether the token equals the given spelling.
pub(crate) fn token_is(t: &String, spelling: &str) -> (r: bool)
    ensures
        r == (t@ == spelling@),
{
    let s: String = spelling.to_owned();
    *t == s
}

/// Tests whether the token is a cluster of short flags.
pub(crate) fn cluster_token(t: &String) -> (r: bool)
    ensures
        r == is_cluster_token(t@),
{
    let s = t.as_str();
    let n = s.unicode_len();
    n >= 2 && s.get_char(0) == '-' && s.get_char(1) != '-'
}

/// Tests whether the token is a flag token at all.
pub(crate) fn flag_token(t: &String) -> (r: bool)
    ensures
        r == is_flag_token(t@),
{
    let s = t.as_str();
    let n = s.unicode_len();
    n >= 2 && s.get_char(0) == '-'
}

/// Tests whether the token is a cluster that mentions the short flag `c`.
pub(crate) fn cluster_with(t: &String, c: char) -> (r: bool)
    ensures
        r == (is_cluster_token(t@) && cluster_has(t@, c)),
{
    if !cluster_token(t) {
        return false;
    }
    let s = t.as_str();
    let n = s.unicode_len();
    let mut i: usize = 1;
    while i < n
        invariant
            1 <= i <= n,
            n == t@.len(),
            s@ == t@,
            is_cluster_token(t@),
            forall|j: int| 1 <= j < i ==> t@[j] != c,
        decreases n - i,
    {
        if s.get_char(i) == c {
            return true;
        }
        i = i + 1;
    }
    false
}

/// Tests whether the token asks for help.
pub(crate) fn help_token(t: &String) -> (r: bool)
    ensures
        r == is_help_token(t@),
{
    token_is(t, "--help") || cluster_with(t, 'h')
}

/// Tests whether the token asks for the version.
pub(crate) fn version_token(t: &String) -> (r: bool)
    ensures
        r == is_version_token(t@),
{
    token_is(t, "--version") || cluster_with(t, 'V')
}

/// Tests whether the token sets the invert-match flag.
pub(crate) fn invert_token(t: &String) -> (r: bool)
    ensures
        r == is_invert_token(t@),
{
    token_is(t, "--invert-match") || cluster_with(t, 'v')
}

/// Tests whether the token sets the ignore-case flag.
pub(crate) fn ignore_case_token(t: &String) -> (r: bool)
    ensures
        r == is_ignore_case_token(t@),
{
    token_is(t, "--ignore-case") || cluster_with(t, 'i')
}

/// Tests whether a short flag character is one the schema knows.
pub(crate) fn known_short_char(c: char) -> (r: bool)
    ensures
        r == known_short(c),
{
    c == 'v' || c == 'i' || c == 'o' || c == 'b' || c == 'l' || c == 'L'
}

/// Tests whether the schema accepts the token.
pub(crate) fn recognized_token(t: &String) -> (r: bool)
    ensures
        r == token_recognized(t@),
{
    if !flag_token(t) {
        return true;
    }
    if token_is(t, "--invert-match") || token_is(t, "--ignore-case") || token_is(
        t,
        "--only-matching",
    ) || token_is(t, "--byte-offset") || token_is(t, "--files-with-matches") || token_is(
        t,
        "--files-without-matches",
    ) {
        return true;
    }
    if !cluster_token(t) {
        return false;
    }
    let s = t.as_str();
    let n = s.unicode_len();
    let mut i: usize = 1;
    while i < n
        invariant
            1 <= i <= n,
            n == t@.len(),
            s@ == t@,
            is_cluster_token(t@),
            !known_long(t@),
            forall|j: int| 1 <= j < i ==> known_short(#[trigger] t@[j]),
        decreases n - i,
    {
        if !known_short_char(s.get_char(i)) {
            return false;
        }
        i = i + 1;
    }
    true
}

/// The output flag named by the token's long spelling, if any.
pub(crate) fn long_output(t: &String) -> (r: Option<OutputFlag>)
    ensures
        r == long_output_flag(t@),
{
    if token_is(t, "--only-matching") {
        Some(OutputFlag::OnlyMatching)
    } else if token_is(t, "--byte-offset") {
        Some(OutputFlag::ByteOffset)
    } else if token_is(t, "--files-with-matches") {
        Some(OutputFlag::FilesWith)
    } else if token_is(t, "--files-without-matches") {
        Some(OutputFlag::FilesWithout)
    } else {
        None
    }
}

/// The output flag named by a short flag character, if any.
pub(crate) fn short_output(c: char) -> (r: Option<OutputFlag>)
    ensures
        r == short_output_flag(c),
{
    if c == 'o' {
        Some(OutputFlag::OnlyMatching)
    } else if c == 'b' {
        Some(OutputFlag::ByteOffset)
    } else if c == 'l' {
        Some(OutputFlag::FilesWith)
    } else if c == 'L' {
        Some(OutputFlag::FilesWithout)
    } else {
        None
    }
}

/// The rightmost output flag of a cluster token, if any.
pub(crate) fn cluster_output(t: &String) -> (r: Option<OutputFlag>)
    ensures
        r == cluster_output_flag_upto(t@, t@.len() as int),
{
    let s = t.as_str();
    let n = s.unicode_len();
    let mut k: usize = n;
    while k > 1
        invariant
            k <= n,
            n == t@.len(),
            s@ == t@,
            cluster_output_flag_upto(t@, n as int) == cluster_output_flag_upto(t@, k as int),
        decreases k,
    {
        let r = short_output(s.get_char(k - 1));
        if r.is_some() {
            return r;
        }
        k = k - 1;
    }
    None
}

/// The last output flag the token carries, if any.
pub(crate) fn token_output(t: &String) -> (r: Option<OutputFlag>)
    ensures
        r == token_output_flag(t@),
{
    let lo = long_output(t);
    if lo.is_some() {
        return lo;
    }
    if cluster_token(t) {
        cluster_output(t)
    } else {
        None
    }
}

} // verus!
