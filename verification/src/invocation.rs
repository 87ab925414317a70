//! The arguments that a run of wrk2 is started with.

use vstd::prelude::*;

verus! {

/// The flag that is followed by the rate of requests to aim at.
pub const RATE_FLAG: &'static str = "-R";

/// The rate that is asked for where the caller names none: more than any
/// server delivers, so that the run is not throttled.
pub const DEFAULT_RATE: &'static str = "99999999";

/// The flag that makes the report hold the uncorrected latency.
pub const UNCORRECTED_FLAG: &'static str = "-U";

/// The flag with which the caller asks to see the text of the report as well.
pub const RAW_OUTPUT_FLAG: &'static str = "-v";

/// The texts of the arguments.
pub open spec fn arg_views(args: Seq<String>) -> Seq<Seq<char>> {
    Seq::new(args.len(), |i: int| args[i]@)
}

/// Whether one of the arguments is exactly `flag`.
pub open spec fn holds_flag(args: Seq<Seq<char>>, flag: Seq<char>) -> bool {
    exists|i: int| 0 <= i < args.len() && args[i] == flag
}

/// The arguments with the defaults added behind them: a rate, where no rate
/// flag is among them, and the flag for the uncorrected latency, where it is
/// not.
pub open spec fn with_defaults(args: Seq<Seq<char>>) -> Seq<Seq<char>> {
    let rated = if holds_flag(args, RATE_FLAG@) {
        args
    } else {
        args.push(RATE_FLAG@).push(DEFAULT_RATE@)
    };
    if holds_flag(rated, UNCORRECTED_FLAG@) {
        rated
    } else {
        rated.push(UNCORRECTED_FLAG@)
    }
}

/// Whether one of the arguments is exactly `flag`.
pub fn has_flag(args: &Vec<String>, flag: &str) -> (b: bool)
    ensures
        b == holds_flag(arg_views(args@), flag@),
{
    let wanted = flag.to_owned();
    let n = args.len();
    let mut i: usize = 0;
    while i < n
        invariant
            n == args.len(),
            i <= n,
            wanted@ == flag@,
            forall|j: int| 0 <= j < i ==> arg_views(args@)[j] != flag@,
        decreases n - i,
    {
        if args[i] == wanted {
            proof {
                assert(arg_views(args@)[i as int] == flag@);
            }
            return true;
        }
        i += 1;
    }
    false
}

/// Completes the arguments of a run: unless the caller gave a rate flag, the
/// rate flag and the default rate are added, and unless the caller gave the
/// flag for the uncorrected latency, that flag is added. What the caller gave
/// stays in front, unchanged.
pub fn with_default_flags(args: Vec<String>) -> (out: Vec<String>)
    ensures
        arg_views(out@) == with_defaults(arg_views(args@)),
{
    let mut out = args;
    if !has_flag(&out, RATE_FLAG) {
        let ghost before = arg_views(out@);
        out.push(RATE_FLAG.to_owned());
        out.push(DEFAULT_RATE.to_owned());
        proof {
            assert(arg_views(out@) =~= before.push(RATE_FLAG@).push(DEFAULT_RATE@));
        }
    }
    if !has_flag(&out, UNCORRECTED_FLAG) {
        out.push(UNCORRECTED_FLAG.to_owned());
    }
    out
}

/// The completed arguments start with the given ones and hold both flags, and
/// to complete them once more adds nothing.
pub proof fn lemma_defaults_complete(args: Seq<Seq<char>>)
    ensures
        args.is_prefix_of(with_defaults(args)),
        holds_flag(with_defaults(args), RATE_FLAG@),
        holds_flag(with_defaults(args), UNCORRECTED_FLAG@),
        with_defaults(with_defaults(args)) == with_defaults(args),
{
    let rated = if holds_flag(args, RATE_FLAG@) {
        args
    } else {
        args.push(RATE_FLAG@).push(DEFAULT_RATE@)
    };
    let done = with_defaults(args);
    if !holds_flag(args, RATE_FLAG@) {
        assert(rated[args.len() as int] == RATE_FLAG@);
    }
    let r = choose|i: int| 0 <= i < rated.len() && rated[i] == RATE_FLAG@;
    assert(done[r] == RATE_FLAG@);
    if !holds_flag(rated, UNCORRECTED_FLAG@) {
        assert(done[rated.len() as int] == UNCORRECTED_FLAG@);
    }
}

} // verus!
