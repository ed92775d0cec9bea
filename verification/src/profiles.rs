//! The fixed table of quality profiles and its lookup.
//!
//! A profile names a target container extension, an encoder identifier,
//! and an optional bitrate; the table is built once at startup, its
//! order is fixed, and its names are unique.

use vstd::prelude::*;

use crate::outcome::ConvError;
use crate::text::str_eq;

verus! {

/// Mathematical image of a `Profile`.
pub struct ProfileSpec {
    pub name: Seq<char>,
    pub ext: Seq<char>,
    pub codec: Seq<char>,
    pub bitrate: Option<Seq<char>>,
}

/// A named conversion preset: target container extension, encoder
/// identifier, and optional bitrate (`None` means encoder defaults).
#[derive(Debug, PartialEq, Eq)]
pub struct Profile {
    pub name: String,
    pub ext: String,
    pub codec: String,
    pub bitrate: Option<String>,
}

impl View for Profile {
    type V = ProfileSpec;

    open spec fn view(&self) -> ProfileSpec {
        ProfileSpec {
            name: self.name@,
            ext: self.ext@,
            codec: self.codec@,
            bitrate: match self.bitrate {
                Some(ref b) => Some(b@),
                None => None,
            },
        }
    }
}

impl DeepView for Profile {
    type V = ProfileSpec;

    open spec fn deep_view(&self) -> ProfileSpec {
        self@
    }
}

impl Clone for Profile {
    fn clone(&self) -> (res: Self)
        ensures
            res@ == self@,
    {
        Profile {
            name: self.name.clone(),
            ext: self.ext.clone(),
            codec: self.codec.clone(),
            bitrate: match &self.bitrate {
                Some(b) => Some(b.clone()),
                None => None,
            },
        }
    }
}

/// The five presets, in listing order.
pub open spec fn spec_profiles() -> Seq<ProfileSpec> {
    seq![
        ProfileSpec { name: "low"@, ext: "mp3"@, codec: "libmp3lame"@, bitrate: Some("64k"@) },
        ProfileSpec { name: "mid"@, ext: "mp3"@, codec: "libmp3lame"@, bitrate: Some("160k"@) },
        ProfileSpec { name: "high"@, ext: "mp3"@, codec: "libmp3lame"@, bitrate: Some("320k"@) },
        ProfileSpec { name: "karaoke"@, ext: "mp3"@, codec: "libmp3lame"@, bitrate: Some("320k"@) },
        ProfileSpec { name: "preview"@, ext: "mp3"@, codec: "libmp3lame"@, bitrate: Some("96k"@) },
    ]
}

/// No two entries of `t` share a name.
pub open spec fn names_unique(t: Seq<ProfileSpec>) -> bool {
    forall|i: int, j: int| 0 <= i < j < t.len() ==> t[i].name != t[j].name
}

/// First profile in `t` whose name is `name`, searched front to back.
pub open spec fn lookup_spec(t: Seq<ProfileSpec>, name: Seq<char>) -> Option<ProfileSpec>
    decreases t.len(),
{
    if t.len() == 0 {
        None
    } else if t[0].name == name {
        Some(t[0])
    } else {
        lookup_spec(t.drop_first(), name)
    }
}

/// The table's names are pairwise distinct.
pub proof fn lemma_profile_names_unique()
    ensures
        names_unique(spec_profiles()),
{
    reveal_strlit("low");
    reveal_strlit("mid");
    reveal_strlit("high");
    reveal_strlit("karaoke");
    reveal_strlit("preview");
    assert("low"@[0] != "mid"@[0]);
    assert("low"@[0] != "high"@[0]);
    assert("low"@[0] != "karaoke"@[0]);
    assert("low"@[0] != "preview"@[0]);
    assert("mid"@[0] != "high"@[0]);
    assert("mid"@[0] != "karaoke"@[0]);
    assert("mid"@[0] != "preview"@[0]);
    assert("high"@[0] != "karaoke"@[0]);
    assert("high"@[0] != "preview"@[0]);
    assert("karaoke"@[0] != "preview"@[0]);
}

/// In a table with unique names, looking a profile up by its own name
/// finds exactly that profile.
pub proof fn lemma_lookup_unique(t: Seq<ProfileSpec>, k: int)
    requires
        names_unique(t),
        0 <= k < t.len(),
    ensures
        lookup_spec(t, t[k].name) == Some(t[k]),
    decreases t.len(),
{
    if k > 0 {
        assert(t[0].name != t[k].name);
        assert(names_unique(t.drop_first())) by {
            assert(forall|i: int, j: int|
                0 <= i < j < t.drop_first().len() ==> t.drop_first()[i] == t[i + 1]
                    && t.drop_first()[j] == t[j + 1]);
        }
        lemma_lookup_unique(t.drop_first(), k - 1);
    }
}

/// Every profile of the fixed table is found under its own name.
pub proof fn lemma_lookup_finds_each_profile(k: int)
    requires
        0 <= k < spec_profiles().len(),
    ensures
        lookup_spec(spec_profiles(), spec_profiles()[k].name) == Some(spec_profiles()[k]),
{
    lemma_profile_names_unique();
    lemma_lookup_unique(spec_profiles(), k);
}

/// Builds the fixed profile table.
pub fn profiles() -> (t: Vec<Profile>)
    ensures
        t.deep_view() == spec_profiles(),
        t@.len() == 5,
{
    let mut t: Vec<Profile> = Vec::new();
    t.push(Profile {
        name: "low".to_owned(),
        ext: "mp3".to_owned(),
        codec: "libmp3lame".to_owned(),
        bitrate: Some("64k".to_owned()),
    });
    t.push(Profile {
        name: "mid".to_owned(),
        ext: "mp3".to_owned(),
        codec: "libmp3lame".to_owned(),
        bitrate: Some("160k".to_owned()),
    });
    t.push(Profile {
        name: "high".to_owned(),
        ext: "mp3".to_owned(),
        codec: "libmp3lame".to_owned(),
        bitrate: Some("320k".to_owned()),
    });
    t.push(Profile {
        name: "karaoke".to_owned(),
        ext: "mp3".to_owned(),
        codec: "libmp3lame".to_owned(),
        bitrate: Some("320k".to_owned()),
    });
    t.push(Profile {
        name: "preview".to_owned(),
        ext: "mp3".to_owned(),
        codec: "libmp3lame".to_owned(),
        bitrate: Some("96k".to_owned()),
    });
    assert(t.deep_view() =~= spec_profiles()) by {
        assert(t.deep_view()[0] == spec_profiles()[0]);
        assert(t.deep_view()[1] == spec_profiles()[1]);
        assert(t.deep_view()[2] == spec_profiles()[2]);
        assert(t.deep_view()[3] == spec_profiles()[3]);
        assert(t.deep_view()[4] == spec_profiles()[4]);
    }
    t
}

/// The method column shown when the table is listed: the karaoke preset
/// is converted by the encoder's filter graph (or the separator), every
/// other profile by a plain encoder run.
pub fn method_label(profile: &Profile) -> (r: &'static str)
    ensures
        profile@.name == "karaoke"@ ==> r@ == "FFmpeg Filter"@,
        profile@.name != "karaoke"@ ==> r@ == "FFmpeg"@,
{
    if str_eq(profile.name.as_str(), "karaoke") {
        "FFmpeg Filter"
    } else {
        "FFmpeg"
    }
}

/// Looks `name` up in `table`; an unknown name is the user error
/// `ProfileNotFound`, reported if and only if no entry carries it.
pub fn lookup(table: &Vec<Profile>, name: &str) -> (r: Result<Profile, ConvError>)
    ensures
        match r {
            Ok(p) => lookup_spec(table.deep_view(), name@) == Some(p@),
            Err(e) => e == ConvError::ProfileNotFound && lookup_spec(table.deep_view(), name@)
                is None,
        },
{
    let n = table.len();
    proof {
        assert(table.deep_view().skip(0) =~= table.deep_view());
    }
    for i in 0..n
        invariant
            n == table@.len(),
            lookup_spec(table.deep_view(), name@) == lookup_spec(
                table.deep_view().skip(i as int),
                name@,
            ),
    {
        if str_eq(table[i].name.as_str(), name) {
            let p = table[i].clone();
            proof {
                assert(table.deep_view().skip(i as int)[0] == table.deep_view()[i as int]);
            }
            return Ok(p);
        }
        proof {
            assert(table.deep_view().skip(i as int).drop_first() =~= table.deep_view().skip(
                i as int + 1,
            ));
            assert(table.deep_view().skip(i as int)[0] == table.deep_view()[i as int]);
        }
    }
    proof {
        assert(table.deep_view().skip(n as int).len() == 0);
    }
    Err(ConvError::ProfileNotFound)
}

} // verus!
