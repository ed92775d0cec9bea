//! Construction of the exact subprocess invocations: output naming, the
//! encoder argument list per profile, the fixed karaoke filter graph,
//! and the separator call for AI-assisted vocal removal.

use vstd::prelude::*;

use crate::paths::file_stem;
use crate::paths::stem_of;
use crate::profiles::Profile;
use crate::profiles::ProfileSpec;
use crate::profiles::spec_profiles;
use crate::text::str_eq;

verus! {

/// Mathematical image of an `Invocation`.
pub struct InvocationSpec {
    pub program: Seq<char>,
    pub args: Seq<Seq<char>>,
}

/// One subprocess call: the program to spawn and its argument list, in
/// order.
#[derive(Debug)]
pub struct Invocation {
    pub program: String,
    pub args: Vec<String>,
}

impl View for Invocation {
    type V = InvocationSpec;

    open spec fn view(&self) -> InvocationSpec {
        InvocationSpec { program: self.program@, args: self.args.deep_view() }
    }
}

/// Which of the two karaoke strategies a request asks for.
#[derive(Clone, Copy, Debug, PartialEq, Eq, Structural)]
pub enum KaraokeMode {
    /// Phase-cancellation filtering in the encoder: fast, approximate.
    FastFilter,
    /// External source-separation model: slow, instrumental output.
    AiSeparation,
}

impl Default for KaraokeMode {
    /// Without an explicit request, karaoke conversion uses the fast
    /// filter; the slow separation model must be asked for.
    fn default() -> (r: Self)
        ensures
            r == KaraokeMode::FastFilter,
    {
        KaraokeMode::FastFilter
    }
}

/// Only an AI-separation run of the karaoke profile leaves an output
/// whose name the tool chose itself; exactly then the directory must be
/// scanned afterwards and the find renamed.
pub fn needs_output_discovery(profile: &Profile, mode: KaraokeMode) -> (r: bool)
    ensures
        r == (profile@.name == "karaoke"@ && mode == KaraokeMode::AiSeparation),
{
    str_eq(profile.name.as_str(), "karaoke") && match mode {
        KaraokeMode::AiSeparation => true,
        KaraokeMode::FastFilter => false,
    }
}

/// Appends one argument to an argument list.
fn push_arg(args: &mut Vec<String>, s: &str)
    ensures
        final(args).deep_view() == old(args).deep_view().push(s@),
{
    args.push(s.to_owned());
    assert(args.deep_view() =~= old(args).deep_view().push(s@));
}

/// `{stem}_{profile}.{ext}`: the deterministic output file name.
pub open spec fn output_name_spec(stem: Seq<char>, name: Seq<char>, ext: Seq<char>) -> Seq<char> {
    stem + "_"@ + name + "."@ + ext
}

/// Output file name for `stem` converted under `profile`.
pub fn output_file_name(stem: &str, profile: &Profile) -> (r: String)
    ensures
        r@ == output_name_spec(stem@, profile@.name, profile@.ext),
{
    let mut s = String::new();
    s.append(stem);
    s.append("_");
    s.append(profile.name.as_str());
    s.append(".");
    s.append(profile.ext.as_str());
    assert(s@ =~= output_name_spec(stem@, profile@.name, profile@.ext));
    s
}

/// `output/{stem}`: the per-input output directory.
pub open spec fn output_dir_spec(stem: Seq<char>) -> Seq<char> {
    "output/"@ + stem
}

/// Output directory for the input whose stem is `stem`.
pub fn output_dir_for(stem: &str) -> (r: String)
    ensures
        r@ == output_dir_spec(stem@),
{
    let mut s = String::new();
    s.append("output/");
    s.append(stem);
    assert(s@ =~= output_dir_spec(stem@));
    s
}

/// `{dir}/{name}`.
pub open spec fn join_spec(dir: Seq<char>, name: Seq<char>) -> Seq<char> {
    dir + "/"@ + name
}

/// Joins a directory and a file name with a separator.
pub fn join_path(dir: &str, name: &str) -> (r: String)
    ensures
        r@ == join_spec(dir@, name@),
{
    let mut s = String::new();
    s.append(dir);
    s.append("/");
    s.append(name);
    assert(s@ =~= join_spec(dir@, name@));
    s
}

/// Encoder argument list for a non-karaoke profile: input, optional
/// duration truncation for the preview tier, codec, optional bitrate,
/// quiet logging, overwrite flag, and the output path.
pub open spec fn encoder_args_spec(input: Seq<char>, p: ProfileSpec, out: Seq<char>) -> Seq<
    Seq<char>,
> {
    seq!["-y"@, "-i"@, input] + (if p.name == "preview"@ {
        seq!["-t"@, "40"@]
    } else {
        Seq::<Seq<char>>::empty()
    }) + seq!["-c:a"@, p.codec] + (match p.bitrate {
        Some(b) => seq!["-b:a"@, b],
        None => Seq::<Seq<char>>::empty(),
    }) + seq!["-hide_banner"@, "-loglevel"@, "error"@, out]
}

/// Builds the encoder argument list for a non-karaoke conversion.
pub fn encoder_args(input: &str, profile: &Profile, out: &str) -> (args: Vec<String>)
    ensures
        args.deep_view() == encoder_args_spec(input@, profile@, out@),
{
    let mut args: Vec<String> = Vec::new();
    push_arg(&mut args, "-y");
    push_arg(&mut args, "-i");
    push_arg(&mut args, input);
    if str_eq(profile.name.as_str(), "preview") {
        push_arg(&mut args, "-t");
        push_arg(&mut args, "40");
    }
    push_arg(&mut args, "-c:a");
    push_arg(&mut args, profile.codec.as_str());
    match &profile.bitrate {
        Some(b) => {
            push_arg(&mut args, "-b:a");
            push_arg(&mut args, b.as_str());
        },
        None => {},
    }
    push_arg(&mut args, "-hide_banner");
    push_arg(&mut args, "-loglevel");
    push_arg(&mut args, "error");
    push_arg(&mut args, out);
    assert(args.deep_view() =~= encoder_args_spec(input@, profile@, out@));
    args
}

/// A profile that is not the preview tier and that carries a bitrate is
/// encoded with exactly this argument list: one bitrate argument, equal
/// to the profile's, and no duration-truncation argument.
pub proof fn lemma_encoder_args_shape(input: Seq<char>, p: ProfileSpec, out: Seq<char>)
    requires
        p.name != "preview"@,
        p.bitrate is Some,
    ensures
        encoder_args_spec(input, p, out) =~= seq![
            "-y"@,
            "-i"@,
            input,
            "-c:a"@,
            p.codec,
            "-b:a"@,
            p.bitrate.unwrap(),
            "-hide_banner"@,
            "-loglevel"@,
            "error"@,
            out,
        ],
{
}

/// The preview tier is encoded with exactly this argument list: a
/// duration-truncation argument with a fixed positive length stands
/// right after the input.
pub proof fn lemma_preview_args_truncate(input: Seq<char>, out: Seq<char>)
    ensures
        encoder_args_spec(input, spec_profiles()[4], out) =~= seq![
            "-y"@,
            "-i"@,
            input,
            "-t"@,
            "40"@,
            "-c:a"@,
            "libmp3lame"@,
            "-b:a"@,
            "96k"@,
            "-hide_banner"@,
            "-loglevel"@,
            "error"@,
            out,
        ],
{
}

/// The fixed phase-cancellation filter graph: split the signal, keep
/// the band below 200 Hz of one copy, take the stereo difference above
/// 200 Hz of the other, and remix the two with asymmetric weights and
/// makeup gain.
pub open spec fn karaoke_filter_spec() -> Seq<char> {
    "asplit[a][b]; [a]lowpass=f=200[low]; [b]highpass=f=200,pan=mono|c0=c0-c1[high]; [low][high]amix=inputs=2:weights=1 -0.8,volume=1.25"@
}

/// The filter graph handed to the encoder in fast karaoke mode.
pub fn karaoke_filter() -> (r: &'static str)
    ensures
        r@ == karaoke_filter_spec(),
{
    "asplit[a][b]; [a]lowpass=f=200[low]; [b]highpass=f=200,pan=mono|c0=c0-c1[high]; [low][high]amix=inputs=2:weights=1 -0.8,volume=1.25"
}

/// Encoder argument list for the fast (filter-graph) karaoke path.
pub open spec fn karaoke_fast_args_spec(input: Seq<char>, out: Seq<char>) -> Seq<Seq<char>> {
    seq![
        "-y"@,
        "-i"@,
        input,
        "-af"@,
        karaoke_filter_spec(),
        "-c:a"@,
        "libmp3lame"@,
        "-b:a"@,
        "320k"@,
        "-hide_banner"@,
        "-loglevel"@,
        "error"@,
        out,
    ]
}

/// Builds the encoder argument list for fast karaoke conversion.
pub fn karaoke_fast_args(input: &str, out: &str) -> (args: Vec<String>)
    ensures
        args.deep_view() == karaoke_fast_args_spec(input@, out@),
{
    let mut args: Vec<String> = Vec::new();
    push_arg(&mut args, "-y");
    push_arg(&mut args, "-i");
    push_arg(&mut args, input);
    push_arg(&mut args, "-af");
    push_arg(&mut args, karaoke_filter());
    push_arg(&mut args, "-c:a");
    push_arg(&mut args, "libmp3lame");
    push_arg(&mut args, "-b:a");
    push_arg(&mut args, "320k");
    push_arg(&mut args, "-hide_banner");
    push_arg(&mut args, "-loglevel");
    push_arg(&mut args, "error");
    push_arg(&mut args, out);
    assert(args.deep_view() =~= karaoke_fast_args_spec(input@, out@));
    args
}

/// Fast-mode karaoke always hands the encoder the filter graph
/// verbatim, whatever the input and output paths: it is the fifth
/// argument of the planned call.
pub proof fn lemma_karaoke_fast_filter_verbatim(
    input: Seq<char>,
    out_dir: Seq<char>,
    out: Seq<char>,
)
    ensures
        karaoke_fast_args_spec(input, out)[4] == karaoke_filter_spec(),
        invocation_spec(input, spec_profiles()[3], out_dir, out, KaraokeMode::FastFilter).args
            == karaoke_fast_args_spec(input, out),
        invocation_spec(input, spec_profiles()[3], out_dir, out, KaraokeMode::FastFilter).program
            == "ffmpeg"@,
{
}

/// Separator argument list for the AI karaoke path: fixed model,
/// instrumental-only output in the profile's container, directed at the
/// scratch directory whose contents are scanned afterwards.
pub open spec fn separator_args_spec(input: Seq<char>, out_dir: Seq<char>) -> Seq<Seq<char>> {
    seq![
        input,
        "--model_name"@,
        "UVR-MDX-NET-Inst_HQ_3"@,
        "--output_format"@,
        "MP3"@,
        "--output_dir"@,
        out_dir,
        "--instrumental_only"@,
    ]
}

/// Builds the separator argument list for AI karaoke conversion.
pub fn separator_args(input: &str, out_dir: &str) -> (args: Vec<String>)
    ensures
        args.deep_view() == separator_args_spec(input@, out_dir@),
{
    let mut args: Vec<String> = Vec::new();
    push_arg(&mut args, input);
    push_arg(&mut args, "--model_name");
    push_arg(&mut args, "UVR-MDX-NET-Inst_HQ_3");
    push_arg(&mut args, "--output_format");
    push_arg(&mut args, "MP3");
    push_arg(&mut args, "--output_dir");
    push_arg(&mut args, out_dir);
    push_arg(&mut args, "--instrumental_only");
    assert(args.deep_view() =~= separator_args_spec(input@, out_dir@));
    args
}

/// The one subprocess call a conversion request makes: the karaoke
/// profile goes through the filter graph or the separator, depending on
/// the mode; every other profile goes through the plain encoder.
pub open spec fn invocation_spec(
    input: Seq<char>,
    p: ProfileSpec,
    out_dir: Seq<char>,
    final_out: Seq<char>,
    mode: KaraokeMode,
) -> InvocationSpec {
    if p.name == "karaoke"@ {
        match mode {
            KaraokeMode::FastFilter => InvocationSpec {
                program: "ffmpeg"@,
                args: karaoke_fast_args_spec(input, final_out),
            },
            KaraokeMode::AiSeparation => InvocationSpec {
                program: "audio-separator"@,
                args: separator_args_spec(input, out_dir),
            },
        }
    } else {
        InvocationSpec { program: "ffmpeg"@, args: encoder_args_spec(input, p, final_out) }
    }
}

/// Plans the subprocess call for one conversion attempt.
pub fn plan_invocation(
    input: &str,
    profile: &Profile,
    out_dir: &str,
    final_out: &str,
    mode: KaraokeMode,
) -> (inv: Invocation)
    ensures
        inv@ == invocation_spec(input@, profile@, out_dir@, final_out@, mode),
{
    if str_eq(profile.name.as_str(), "karaoke") {
        match mode {
            KaraokeMode::FastFilter => Invocation {
                program: "ffmpeg".to_owned(),
                args: karaoke_fast_args(input, final_out),
            },
            KaraokeMode::AiSeparation => Invocation {
                program: "audio-separator".to_owned(),
                args: separator_args(input, out_dir),
            },
        }
    } else {
        Invocation { program: "ffmpeg".to_owned(), args: encoder_args(input, profile, final_out) }
    }
}

/// Everything one conversion attempt settles before its subprocess
/// runs: the output directory, the deterministic output file name and
/// full path, and the exact call to make.
#[derive(Debug)]
pub struct ConversionPlan {
    pub out_dir: String,
    pub final_name: String,
    pub final_path: String,
    pub invocation: Invocation,
}

/// Plans one conversion attempt of `input` under `profile`: the output
/// directory is named after the input's stem, the output file
/// `{stem}_{profile}.{ext}` inside it, and the subprocess call follows
/// the profile and mode.
pub fn plan_conversion(input: &str, profile: &Profile, mode: KaraokeMode) -> (plan: ConversionPlan)
    ensures
        plan.out_dir@ == output_dir_spec(stem_of(input@)),
        plan.final_name@ == output_name_spec(stem_of(input@), profile@.name, profile@.ext),
        plan.final_path@ == join_spec(plan.out_dir@, plan.final_name@),
        plan.invocation@ == invocation_spec(
            input@,
            profile@,
            plan.out_dir@,
            plan.final_path@,
            mode,
        ),
{
    let stem = file_stem(input);
    let out_dir = output_dir_for(stem);
    let final_name = output_file_name(stem, profile);
    let final_path = join_path(out_dir.as_str(), final_name.as_str());
    let invocation = plan_invocation(input, profile, out_dir.as_str(), final_path.as_str(), mode);
    ConversionPlan { out_dir, final_name, final_path, invocation }
}

} // verus!
