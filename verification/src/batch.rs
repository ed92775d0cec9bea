//! Batch bookkeeping: selecting the audio files of a directory listing,
//! resolving a profile selector into the profiles to attempt, and
//! summing up a best-effort run in which one file's failure never stops
//! the rest.

use vstd::prelude::*;

use crate::outcome::ConvError;
use crate::outcome::ConversionOutcome;
use crate::outcome::OutcomeSpec;
use crate::paths::is_audio_file;
use crate::paths::is_audio_path;
use crate::profiles::Profile;
use crate::profiles::lookup;
use crate::profiles::lookup_spec;
use crate::text::str_eq;

verus! {

/// The candidate audio inputs among a directory listing, in listing
/// order.
pub open spec fn audio_files_spec(paths: Seq<Seq<char>>) -> Seq<Seq<char>>
    decreases paths.len(),
{
    if paths.len() == 0 {
        Seq::empty()
    } else {
        let rest = audio_files_spec(paths.drop_last());
        if is_audio_path(paths.last()) {
            rest.push(paths.last())
        } else {
            rest
        }
    }
}

/// One more listing entry extends the selection exactly when it is an
/// audio file.
proof fn lemma_audio_files_step(paths: Seq<Seq<char>>, i: int)
    requires
        0 <= i < paths.len(),
    ensures
        audio_files_spec(paths.subrange(0, i + 1)) == (if is_audio_path(paths[i]) {
            audio_files_spec(paths.subrange(0, i)).push(paths[i])
        } else {
            audio_files_spec(paths.subrange(0, i))
        }),
{
    let t = paths.subrange(0, i + 1);
    assert(t.drop_last() =~= paths.subrange(0, i));
    assert(t.last() == paths[i]);
}

/// Keeps exactly the paths the classifier accepts, in their order: the
/// files a batch run will attempt.
pub fn filter_audio_files(paths: &Vec<String>) -> (r: Vec<String>)
    ensures
        r.deep_view() == audio_files_spec(paths.deep_view()),
{
    let mut r: Vec<String> = Vec::new();
    proof {
        assert(r.deep_view() =~= paths.deep_view().subrange(0, 0));
    }
    let n = paths.len();
    for i in 0..n
        invariant
            n == paths@.len(),
            r.deep_view() == audio_files_spec(paths.deep_view().subrange(0, i as int)),
    {
        proof {
            lemma_audio_files_step(paths.deep_view(), i as int);
            assert(paths.deep_view()[i as int] == paths@[i as int]@);
        }
        if is_audio_file(paths[i].as_str()) {
            let ghost before = r.deep_view();
            r.push(paths[i].clone());
            proof {
                assert(r.deep_view() =~= before.push(paths@[i as int]@));
            }
        }
    }
    proof {
        assert(paths.deep_view().subrange(0, n as int) =~= paths.deep_view());
    }
    r
}

/// How many outcomes of a run succeeded.
pub open spec fn count_successes(outs: Seq<OutcomeSpec>) -> int
    decreases outs.len(),
{
    if outs.len() == 0 {
        0
    } else {
        count_successes(outs.drop_last()) + if outs.last().success {
            1int
        } else {
            0int
        }
    }
}

/// One more outcome raises the success count exactly when it succeeded.
proof fn lemma_count_successes_step(outs: Seq<OutcomeSpec>, i: int)
    requires
        0 <= i < outs.len(),
    ensures
        count_successes(outs.subrange(0, i + 1)) == count_successes(outs.subrange(0, i)) + if outs[i].success {
            1int
        } else {
            0int
        },
{
    let t = outs.subrange(0, i + 1);
    assert(t.drop_last() =~= outs.subrange(0, i));
    assert(t.last() == outs[i]);
}

/// The tally of a batch run.
#[derive(Clone, Copy, Debug, PartialEq, Eq, Structural)]
pub struct BatchSummary {
    pub attempted: usize,
    pub succeeded: usize,
    pub failed: usize,
}

/// Counts a run's outcomes: every file was attempted, and the failures
/// are exactly the attempts that did not succeed.
pub fn summarize(outcomes: &Vec<ConversionOutcome>) -> (s: BatchSummary)
    ensures
        s.attempted == outcomes@.len(),
        s.succeeded == count_successes(outcomes.deep_view()),
        s.failed == s.attempted - s.succeeded,
{
    let mut succeeded: usize = 0;
    let n = outcomes.len();
    for i in 0..n
        invariant
            n == outcomes@.len(),
            succeeded == count_successes(outcomes.deep_view().subrange(0, i as int)),
            succeeded <= i,
    {
        proof {
            lemma_count_successes_step(outcomes.deep_view(), i as int);
            assert(outcomes.deep_view()[i as int] == outcomes@[i as int]@);
        }
        if outcomes[i].success {
            succeeded = succeeded + 1;
        }
    }
    proof {
        assert(outcomes.deep_view().subrange(0, n as int) =~= outcomes.deep_view());
    }
    BatchSummary { attempted: n, succeeded, failed: n - succeeded }
}

/// Resolves the flags of an explicit conversion request: `all`
/// overrides any named quality, and without either the caller still has
/// to ask the user.
pub fn resolve_selector(all: bool, quality: Option<String>) -> (r: Option<String>)
    ensures
        all ==> (r matches Some(s) && s@ == "all"@),
        !all ==> r == quality,
{
    if all {
        Some("all".to_owned())
    } else {
        quality
    }
}

/// The profiles one request attempts: the whole table, in table order,
/// for the selector `all`; otherwise the one named profile, and
/// `ProfileNotFound` exactly when the table has no entry of that name.
pub fn selected_profiles(table: &Vec<Profile>, selector: &str) -> (r: Result<
    Vec<Profile>,
    ConvError,
>)
    ensures
        match r {
            Ok(v) => if selector@ == "all"@ {
                v.deep_view() == table.deep_view()
            } else {
                v.deep_view().len() == 1 && lookup_spec(table.deep_view(), selector@) == Some(
                    v.deep_view()[0],
                )
            },
            Err(e) => e == ConvError::ProfileNotFound && selector@ != "all"@ && lookup_spec(
                table.deep_view(),
                selector@,
            ) is None,
        },
{
    if str_eq(selector, "all") {
        let mut v: Vec<Profile> = Vec::new();
        proof {
            assert(v.deep_view() =~= table.deep_view().subrange(0, 0));
        }
        let n = table.len();
        for i in 0..n
            invariant
                n == table@.len(),
                v.deep_view() == table.deep_view().subrange(0, i as int),
        {
            let ghost before = v.deep_view();
            v.push(table[i].clone());
            proof {
                assert(v.deep_view() =~= before.push(table@[i as int]@));
                assert(v.deep_view() =~= table.deep_view().subrange(0, i as int + 1));
            }
        }
        proof {
            assert(table.deep_view().subrange(0, n as int) =~= table.deep_view());
        }
        Ok(v)
    } else {
        match lookup(table, selector) {
            Ok(p) => {
                let mut v: Vec<Profile> = Vec::new();
                let ghost pv = p@;
                v.push(p);
                proof {
                    assert(v.deep_view().len() == 1);
                    assert(v.deep_view()[0] == pv);
                }
                Ok(v)
            },
            Err(e) => Err(e),
        }
    }
}

} // verus!
