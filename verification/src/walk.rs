//! Traversal policy: thread count, byte-display system and color mode,
//! together with the method that configures the external parallel
//! directory walk for a given root path.

use vstd::prelude::*;

use crate::byte_format::ByteFormat;
use crate::color::Color;

verus! {

use crate::byte_format::adjusted_display;
use crate::byte_format::bin_exp;
use crate::byte_format::dec_spec;
use crate::byte_format::format_adjusted;
use crate::byte_format::is_binary_unit;
use crate::byte_format::is_metric_unit;
use crate::byte_format::lemma_binary_unit_names;
use crate::byte_format::lemma_metric_unit_names;
use crate::byte_format::met_exp;
use crate::byte_format::scaled_num;
use crate::byte_format::two_fraction_digits;
use crate::byte_format::u64_to_decimal;
use crate::byte_format::unit_name;
use vstd::string::StringExecFns;

/// How entries within one directory level are ordered.
#[derive(Clone, Copy, PartialEq, Eq, Structural, Debug)]
pub enum Sorting {
    /// Whatever order the walk yields; unspecified, not reproducible
    /// across runs when more than one thread expands directories.
    Unsorted,
    /// Entries within each directory level come in name order, which
    /// makes the full traversal order reproducible.
    Alphabetical,
}

/// Policy for one traversal run: the parallelism hint handed to the
/// walk, and the display settings used when its results are rendered.
pub struct WalkOptions {
    pub threads: usize,
    pub format: ByteFormat,
    pub color: Color,
}

#[verifier::external_type_specification]
#[verifier::external_body]
pub struct ExWalkDir(jwalk::WalkDir);

/// The root path a walk description was built over.
pub uninterp spec fn walk_root(w: jwalk::WalkDir) -> Seq<char>;

/// The worker-thread count a walk description carries.
pub uninterp spec fn walk_threads(w: jwalk::WalkDir) -> int;

/// Whether the walk pre-fetches metadata for each yielded entry.
pub uninterp spec fn walk_preload(w: jwalk::WalkDir) -> bool;

/// Whether the walk yields the entries of each directory in name order.
pub uninterp spec fn walk_by_name(w: jwalk::WalkDir) -> bool;

/// Whether the walk leaves hidden entries out.
pub uninterp spec fn walk_skips_hidden(w: jwalk::WalkDir) -> bool;

/// Relies on jwalk::WalkDir::new: builds the description of a walk
/// rooted at the given path with jwalk's defaults — no name ordering,
/// hidden entries skipped, no metadata pre-fetch, thread count zero
/// (the shared pool); no directory is read until the walk is iterated.
#[verifier::external_body]
fn walk_new(root: &str) -> (w: jwalk::WalkDir)
    ensures
        walk_root(w) == root@,
        walk_threads(w) == 0,
        !walk_preload(w),
        !walk_by_name(w),
        walk_skips_hidden(w),
{
    jwalk::WalkDir::new(root)
}

/// Relies on jwalk::WalkDir::preload_metadata: sets whether each
/// yielded entry already carries its metadata, and changes nothing
/// else.
#[verifier::external_body]
fn walk_preload_metadata(w: jwalk::WalkDir, preload: bool) -> (r: jwalk::WalkDir)
    ensures
        walk_preload(r) == preload,
        walk_root(r) == walk_root(w),
        walk_threads(r) == walk_threads(w),
        walk_by_name(r) == walk_by_name(w),
        walk_skips_hidden(r) == walk_skips_hidden(w),
{
    w.preload_metadata(preload)
}

/// Relies on jwalk::WalkDir::sort: sets whether entries within each
/// directory level are yielded in name order, and changes nothing else.
#[verifier::external_body]
fn walk_sort(w: jwalk::WalkDir, sort: bool) -> (r: jwalk::WalkDir)
    ensures
        walk_by_name(r) == sort,
        walk_root(r) == walk_root(w),
        walk_threads(r) == walk_threads(w),
        walk_preload(r) == walk_preload(w),
        walk_skips_hidden(r) == walk_skips_hidden(w),
{
    w.sort(sort)
}

/// Relies on jwalk::WalkDir::skip_hidden: sets whether hidden entries
/// are left out of the walk, and changes nothing else.
#[verifier::external_body]
fn walk_skip_hidden(w: jwalk::WalkDir, skip: bool) -> (r: jwalk::WalkDir)
    ensures
        walk_skips_hidden(r) == skip,
        walk_root(r) == walk_root(w),
        walk_threads(r) == walk_threads(w),
        walk_preload(r) == walk_preload(w),
        walk_by_name(r) == walk_by_name(w),
{
    w.skip_hidden(skip)
}

/// Relies on jwalk::WalkDir::num_threads: sets the parallelism hint for
/// directory expansion, and changes nothing else.
#[verifier::external_body]
fn walk_num_threads(w: jwalk::WalkDir, n: usize) -> (r: jwalk::WalkDir)
    ensures
        walk_threads(r) == n as int,
        walk_root(r) == walk_root(w),
        walk_preload(r) == walk_preload(w),
        walk_by_name(r) == walk_by_name(w),
        walk_skips_hidden(r) == walk_skips_hidden(w),
{
    w.num_threads(n)
}

impl WalkOptions {
    /// Render a byte count under this policy's display system: the
    /// literal count with a `b` suffix, or the count scaled to the
    /// largest binary or metric unit whose magnitude it reaches, with
    /// two fractional digits (the plain decimal count below the
    /// smallest threshold), the numeric field right-aligned to 8
    /// characters and the unit field to 3 (binary) or 2 (metric).
    /// A scaled rendering carries a unit name of its own system only.
    pub fn format_bytes(&self, b: u64) -> (r: String)
        ensures
            self.format is Bytes ==> r@ == dec_spec(b as int) + seq![' ', 'b'],
            self.format is Binary ==> r@ == adjusted_display(b as int, true, 3)
                && is_binary_unit(unit_name(true, bin_exp(b as int))),
            self.format is Metric ==> r@ == adjusted_display(b as int, false, 2)
                && is_metric_unit(unit_name(false, met_exp(b as int))),
            self.format is Binary && bin_exp(b as int) >= 1 ==> two_fraction_digits(
                scaled_num(b as int, true, bin_exp(b as int)),
            ),
            self.format is Binary && bin_exp(b as int) == 0 ==> scaled_num(b as int, true, 0)
                == dec_spec(b as int),
            self.format is Metric && met_exp(b as int) >= 1 ==> two_fraction_digits(
                scaled_num(b as int, false, met_exp(b as int)),
            ),
            self.format is Metric && met_exp(b as int) == 0 ==> scaled_num(b as int, false, 0)
                == dec_spec(b as int),
    {
        match self.format {
            ByteFormat::Bytes => {
                let mut s = u64_to_decimal(b);
                s.append(" b");
                proof {
                    reveal_strlit(" b");
                    assert(s@ =~= dec_spec(b as int) + seq![' ', 'b']);
                }
                s
            },
            ByteFormat::Binary => {
                proof {
                    lemma_binary_unit_names(b as int);
                }
                format_adjusted(b, true, 3)
            },
            ByteFormat::Metric => {
                proof {
                    lemma_metric_unit_names(b as int);
                }
                format_adjusted(b, false, 2)
            },
        }
    }

    /// Configure the external parallel walk for one run over the given
    /// root: the requested thread count, metadata pre-fetch enabled,
    /// name ordering per the sort policy, and hidden entries always
    /// included, since disk usage must count dot-files too.
    pub fn iter_from_path(&self, path: &str, sort: Sorting) -> (w: jwalk::WalkDir)
        ensures
            walk_root(w) == path@,
            walk_threads(w) == self.threads as int,
            walk_preload(w),
            walk_by_name(w) == (sort is Alphabetical),
            !walk_skips_hidden(w),
    {
        let by_name = matches!(sort, Sorting::Alphabetical);
        let w = walk_new(path);
        let w = walk_preload_metadata(w, true);
        let w = walk_sort(w, by_name);
        let w = walk_skip_hidden(w, false);
        walk_num_threads(w, self.threads)
    }
}

} // verus!
