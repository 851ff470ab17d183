//! The resolution laws: what holds of every argument vector, proved once and
//! for all over the spec functions that the resolver's contracts use.

use vstd::prelude::*;

use crate::args::Output;
use crate::args::resolved_output;
use crate::schema::OutputFlag;
use crate::schema::has_invert;
use crate::schema::is_help_token;
use crate::schema::is_version_token;
use crate::schema::output_flag_upto;
use crate::schema::positionals;
use crate::schema::resolved_files;
use crate::schema::resolved_inverse;
use crate::schema::resolved_output_flag;
use crate::schema::token_output_flag;
use crate::schema::wants_help;
use crate::schema::wants_version;

verus! {

/// Nothing after position `k` carries an output flag, so resolving the first
/// `n` tokens comes down to the flag that token `k` carries.
proof fn lemma_output_flag_upto_constant(v: Seq<Seq<char>>, k: int, n: int)
    requires
        0 <= k < n <= v.len(),
        token_output_flag(v[k]) is Some,
        forall|j: int| k < j < n ==> token_output_flag(#[trigger] v[j]) is None,
    ensures
        output_flag_upto(v, n) == token_output_flag(v[k]),
    decreases n,
{
    if n > k + 1 {
        lemma_output_flag_upto_constant(v, k, n - 1);
    }
}

/// Law: among the mutually overriding output flags, the one standing latest
/// on the command line wins, whatever spelling — long, short, or inside a
/// cluster — each occurrence uses.
pub proof fn lemma_later_output_flag_wins(v: Seq<Seq<char>>, k: int)
    requires
        0 <= k < v.len(),
        token_output_flag(v[k]) is Some,
        forall|j: int| k < j < v.len() ==> token_output_flag(#[trigger] v[j]) is None,
    ensures
        resolved_output_flag(v) == token_output_flag(v[k]),
{
    lemma_output_flag_upto_constant(v, k, v.len() as int);
}

/// Law: exactly one output mode results, fixed by the surviving output flag:
/// only-matching prints matched bytes, byte-offset prints offsets, and the
/// two file-listing flags — like no output flag at all — print file names.
pub proof fn lemma_output_mode_priority(v: Seq<Seq<char>>)
    ensures
        resolved_output_flag(v) == Some(OutputFlag::OnlyMatching) ==> resolved_output(v)
            == Output::Bytes,
        resolved_output_flag(v) == Some(OutputFlag::ByteOffset) ==> resolved_output(v)
            == Output::Offset,
        resolved_output_flag(v) == Some(OutputFlag::FilesWith) ==> resolved_output(v)
            == Output::FileName,
        resolved_output_flag(v) == Some(OutputFlag::FilesWithout) ==> resolved_output(v)
            == Output::FileName,
        resolved_output_flag(v) is None ==> resolved_output(v) == Output::FileName,
{
}

/// Law: the truth table of inverted matching.  Writing `without` for a
/// surviving files-without-matches flag: neither flag leaves matching plain;
/// either one alone inverts it; both together cancel back to plain matching.
pub proof fn lemma_inverse_truth_table(v: Seq<Seq<char>>)
    ensures
        ({
            let without = resolved_output_flag(v) == Some(OutputFlag::FilesWithout);
            &&& (!has_invert(v) && !without) ==> !resolved_inverse(v)
            &&& (has_invert(v) && !without) ==> resolved_inverse(v)
            &&& (!has_invert(v) && without) ==> resolved_inverse(v)
            &&& (has_invert(v) && without) ==> !resolved_inverse(v)
        }),
{
}

/// Law: one help token anywhere in the vector makes the whole invocation a
/// help request, whatever else stands around it — `parse` answers help
/// whenever `wants_help` holds, and this is all it takes to hold.
pub proof fn lemma_help_anywhere(v: Seq<Seq<char>>, k: int)
    requires
        0 <= k < v.len(),
        is_help_token(v[k]),
    ensures
        wants_help(v),
{
}

/// Law: one version token anywhere makes `wants_version` hold; `parse`
/// then answers the version wherever no help token also stands.
pub proof fn lemma_version_anywhere(v: Seq<Seq<char>>, k: int)
    requires
        0 <= k < v.len(),
        is_version_token(v[k]),
    ensures
        wants_version(v),
{
}

/// Law: with a pattern operand and no file operands, the file list is exactly
/// the single stdin sentinel `-`.
pub proof fn lemma_files_default_stdin(v: Seq<Seq<char>>)
    requires
        positionals(v).len() == 1,
    ensures
        resolved_files(v) == seq!["-"@],
{
}

/// Law: given file operands are kept exactly, in the order given, with
/// nothing added and nothing dropped.
pub proof fn lemma_files_kept_in_order(v: Seq<Seq<char>>)
    requires
        positionals(v).len() >= 2,
    ensures
        resolved_files(v).len() == positionals(v).len() - 1,
        forall|j: int|
            0 <= j < resolved_files(v).len() ==> resolved_files(v)[j] == positionals(v)[j + 1],
{
}

} // verus!
