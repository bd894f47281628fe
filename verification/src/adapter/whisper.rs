//! Transcription with whisper.cpp's `whisper-cli`, behind an ffmpeg
//! conversion: `whisper-cli` reads only 16 kHz mono PCM, and what is
//! acquired is mp4 or m4a.

use vstd::prelude::*;

use super::invocation::{tail_of, Completed, Invocation};
use super::AdapterError;
use crate::asset::{Asset, AssetKind};
use crate::config::Language;
use crate::decimal;
use crate::paths::{self, joined};
use crate::text;

verus! {

/// The format the transcription is written in; the naming rule's extension
/// for transcripts.
pub open spec fn extension() -> Seq<char> {
    "vtt"@
}

/// whisper-cli and ffmpeg, the model, and the language.
#[derive(Debug, Clone, PartialEq, Eq)]
pub struct Whisper {
    pub whisper: String,
    pub ffmpeg: String,
    pub model: String,
    pub language: Language,
}

impl Whisper {
    pub fn new(whisper: String, ffmpeg: String, model: String, language: Language) -> (r: Whisper)
        ensures
            r.whisper@ == whisper@,
            r.ffmpeg@ == ffmpeg@,
            r.model@ == model@,
            r.language == language,
    {
        Whisper { whisper, ffmpeg, model, language }
    }
}

/// Turns what was acquired into what the transcriber reads: 16 kHz mono
/// PCM, no video, never stopping to ask before overwriting.
pub fn convert_argv(ffmpeg: &str, input: &str, output: &str) -> (r: Invocation)
    ensures
        r.program@ == ffmpeg@,
        r.args_of() == seq![
            "-nostdin"@,
            "-loglevel"@,
            "error"@,
            "-i"@,
            input@,
            "-vn"@,
            "-ar"@,
            "16000"@,
            "-ac"@,
            "1"@,
            "-c:a"@,
            "pcm_s16le"@,
            "-y"@,
            output@,
        ],
{
    let r = Invocation::new(ffmpeg).arg("-nostdin").arg("-loglevel").arg("error").arg("-i").arg(
        input,
    ).arg("-vn").arg("-ar").arg("16000").arg("-ac").arg("1").arg("-c:a").arg("pcm_s16le").arg(
        "-y",
    ).arg(output);
    assert(r.args_of() =~= seq![
        "-nostdin"@,
        "-loglevel"@,
        "error"@,
        "-i"@,
        input@,
        "-vn"@,
        "-ar"@,
        "16000"@,
        "-ac"@,
        "1"@,
        "-c:a"@,
        "pcm_s16le"@,
        "-y"@,
        output@,
    ]);
    r
}

/// The transcription itself. The model and the language are always
/// passed: left out, they default to a relative model path and English.
/// `output_stem` is the output without its extension; whisper-cli adds it.
pub fn transcribe_argv(
    whisper: &str,
    model: &str,
    language: &Language,
    input: &str,
    output_stem: &str,
) -> (r: Invocation)
    ensures
        r.program@ == whisper@,
        r.args_of() == seq![
            "-m"@,
            model@,
            "-l"@,
            language.text_of(),
            "-ovtt"@,
            "-np"@,
            "-of"@,
            output_stem@,
            input@,
        ],
{
    let language = language.to_text();
    let r = Invocation::new(whisper).arg("-m").arg(model).arg("-l").arg(language.as_str()).arg(
        "-ovtt",
    ).arg("-np").arg("-of").arg(output_stem).arg(input);
    assert(r.args_of() =~= seq![
        "-m"@,
        model@,
        "-l"@,
        language@,
        "-ovtt"@,
        "-np"@,
        "-of"@,
        output_stem@,
        input@,
    ]);
    r
}

/// The file a transcription writes: `transcript.<ordinal>.vtt`, one per
/// piece of media.
pub fn transcript_asset(ordinal: u32) -> (r: Asset)
    requires
        ordinal >= 1,
    ensures
        r.kind_of() == AssetKind::Transcript,
        r.ordinal_of() == ordinal,
        r.extension_of() == extension(),
{
    Asset::new(AssetKind::Transcript, ordinal, "vtt".to_owned())
}

/// Where the transcription is asked to write, without the extension that
/// whisper-cli adds: `transcript.<ordinal>` in `into`.
pub open spec fn stem_of(into: Seq<char>, ordinal: u32) -> Seq<char> {
    joined(into, AssetKind::Transcript.name() + "."@ + decimal::decimal(ordinal as nat))
}

/// Where the transcription is asked to write.
pub fn transcript_stem(into: &str, ordinal: u32) -> (r: String)
    ensures
        r@ == stem_of(into@, ordinal),
{
    let mut v: Vec<char> = Vec::new();
    text::append(&mut v, AssetKind::Transcript.as_str());
    text::append(&mut v, ".");
    let n = decimal::decimal_of(ordinal as u64);
    text::append_chars(&mut v, n.as_slice());
    let name = text::string_of(v.as_slice());
    paths::join(into, name.as_str())
}

/// What a finished conversion means: a passing failure of ffmpeg unless it
/// succeeded.
pub fn after_conversion(converted: &Completed) -> (r: Option<AdapterError>)
    ensures
        converted.success ==> r is None,
        !converted.success ==> (r matches Some(AdapterError::Transient { program, detail })
            && program@ == "ffmpeg"@ && detail@ == tail_of(converted.stderr@)),
{
    if converted.success {
        None
    } else {
        Some(AdapterError::Transient { program: "ffmpeg".to_owned(), detail: converted.stderr_tail() })
    }
}

/// What a finished transcription means: a passing failure unless it
/// succeeded, a reading failure when it claims success but wrote nothing,
/// and the transcript otherwise.
pub fn after_transcription(transcribed: &Completed, written: bool, ordinal: u32) -> (r: Result<
    Asset,
    AdapterError,
>)
    requires
        ordinal >= 1,
    ensures
        !transcribed.success ==> (r matches Err(AdapterError::Transient { program, detail })
            && program@ == "whisper-cli"@ && detail@ == tail_of(transcribed.stderr@)),
        transcribed.success && !written ==> (r matches Err(AdapterError::Parse { program, detail })
            && program@ == "whisper-cli"@ && detail@ == "成功したが "@ + AssetKind::Transcript.name()
            + "."@ + decimal::decimal(ordinal as nat) + "."@ + extension() + " が無い"@),
        transcribed.success && written ==> (r matches Ok(a) && a.kind_of() == AssetKind::Transcript
            && a.ordinal_of() == ordinal && a.extension_of() == extension()),
{
    if !transcribed.success {
        return Err(
            AdapterError::Transient {
                program: "whisper-cli".to_owned(),
                detail: transcribed.stderr_tail(),
            },
        );
    }
    let asset = transcript_asset(ordinal);
    if !written {
        let mut v: Vec<char> = Vec::new();
        text::append(&mut v, "成功したが ");
        let name = asset.file_name();
        text::append(&mut v, name.as_str());
        text::append(&mut v, " が無い");
        return Err(
            AdapterError::Parse {
                program: "whisper-cli".to_owned(),
                detail: text::string_of(v.as_slice()),
            },
        );
    }
    Ok(asset)
}

} // verus!
