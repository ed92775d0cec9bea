//! Discovery of the separator's output file.
//!
//! The external separation tool names its own output, so after it exits
//! the scratch directory is scanned for a fresh file with the target
//! extension that is not already the final name. Exactly one candidate
//! is renamed to the deterministic final name; zero or several
//! candidates are the recoverable error `OutputNotLocated`.

use vstd::prelude::*;

use crate::outcome::ConvError;
use crate::text::ends_with_spec;
use crate::text::str_ends_with;
use crate::text::str_eq;

verus! {

/// A directory entry is a candidate output when it carries the target
/// extension and is not the final file name itself.
pub open spec fn ai_candidate(name: Seq<char>, ext: Seq<char>, final_name: Seq<char>) -> bool {
    ends_with_spec(name, "."@ + ext) && name != final_name
}

/// The candidate outputs among a directory listing, in listing order.
pub open spec fn candidates_spec(
    listing: Seq<Seq<char>>,
    ext: Seq<char>,
    final_name: Seq<char>,
) -> Seq<Seq<char>>
    decreases listing.len(),
{
    if listing.len() == 0 {
        Seq::empty()
    } else {
        let rest = candidates_spec(listing.drop_last(), ext, final_name);
        if ai_candidate(listing.last(), ext, final_name) {
            rest.push(listing.last())
        } else {
            rest
        }
    }
}

/// One more listing entry extends the candidates exactly when it is a
/// candidate itself.
proof fn lemma_candidates_step(
    listing: Seq<Seq<char>>,
    ext: Seq<char>,
    final_name: Seq<char>,
    i: int,
)
    requires
        0 <= i < listing.len(),
    ensures
        candidates_spec(listing.subrange(0, i + 1), ext, final_name) == (if ai_candidate(
            listing[i],
            ext,
            final_name,
        ) {
            candidates_spec(listing.subrange(0, i), ext, final_name).push(listing[i])
        } else {
            candidates_spec(listing.subrange(0, i), ext, final_name)
        }),
{
    let t = listing.subrange(0, i + 1);
    assert(t.drop_last() =~= listing.subrange(0, i));
    assert(t.last() == listing[i]);
}

/// Picks the file the separator produced out of the directory listing:
/// the one entry ending in `.{ext}` that is not `final_name`. Zero or
/// more than one such entry is `OutputNotLocated`.
pub fn locate_ai_output(listing: &Vec<String>, ext: &str, final_name: &str) -> (r: Result<
    String,
    ConvError,
>)
    ensures
        match r {
            Ok(n) => candidates_spec(listing.deep_view(), ext@, final_name@).len() == 1 && n@
                == candidates_spec(listing.deep_view(), ext@, final_name@)[0],
            Err(e) => e == ConvError::OutputNotLocated && candidates_spec(
                listing.deep_view(),
                ext@,
                final_name@,
            ).len() != 1,
        },
{
    let mut dot_ext = String::new();
    dot_ext.append(".");
    dot_ext.append(ext);
    proof {
        assert(dot_ext@ =~= "."@ + ext@);
        assert(listing.deep_view().subrange(0, 0) =~= Seq::<Seq<char>>::empty());
    }
    let mut count: usize = 0;
    let mut found: Option<String> = None;
    let n = listing.len();
    for i in 0..n
        invariant
            n == listing@.len(),
            dot_ext@ == "."@ + ext@,
            count == candidates_spec(
                listing.deep_view().subrange(0, i as int),
                ext@,
                final_name@,
            ).len(),
            count <= i,
            match found {
                Some(ref f) => count >= 1 && f@ == candidates_spec(
                    listing.deep_view().subrange(0, i as int),
                    ext@,
                    final_name@,
                )[0],
                None => count == 0,
            },
    {
        let name = &listing[i];
        let is_candidate = str_ends_with(name.as_str(), dot_ext.as_str()) && !str_eq(
            name.as_str(),
            final_name,
        );
        proof {
            lemma_candidates_step(listing.deep_view(), ext@, final_name@, i as int);
            assert(listing.deep_view()[i as int] == name@);
            assert(is_candidate == ai_candidate(name@, ext@, final_name@));
        }
        if is_candidate {
            if count == 0 {
                found = Some(name.clone());
            }
            count = count + 1;
        }
    }
    proof {
        assert(listing.deep_view().subrange(0, n as int) =~= listing.deep_view());
    }
    if count == 1 {
        match found {
            Some(f) => Ok(f),
            None => Err(ConvError::OutputNotLocated),
        }
    } else {
        Err(ConvError::OutputNotLocated)
    }
}

} // verus!
