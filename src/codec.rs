//! The single place where the integer and string identifiers of the host are
//! turned into typed parameters and model types, and back.
use vstd::prelude::*;

use crate::error::{BridgeError, InvalidArgument};

verus! {

pub const PROCESSOR_PARAM_BYPASS: i32 = 0;
pub const PROCESSOR_PARAM_ENHANCEMENT_LEVEL: i32 = 1;
pub const PROCESSOR_PARAM_VOICE_GAIN: i32 = 2;

pub const VAD_PARAM_SPEECH_HOLD_DURATION: i32 = 0;
pub const VAD_PARAM_SENSITIVITY: i32 = 1;
pub const VAD_PARAM_MINIMUM_SPEECH_DURATION: i32 = 2;

/// A tuning parameter of the enhancement engine.
#[derive(Debug, Clone, Copy, PartialEq, Eq, Structural)]
pub enum ProcessorParameter {
    Bypass,
    EnhancementLevel,
    VoiceGain,
}

/// A tuning parameter of the voice-activity detector.
#[derive(Debug, Clone, Copy, PartialEq, Eq, Structural)]
pub enum VadParameter {
    SpeechHoldDuration,
    Sensitivity,
    MinimumSpeechDuration,
}

/// The processor parameter that a wire code names, if any.
pub open spec fn processor_parameter_of(code: int) -> Option<ProcessorParameter> {
    if code == PROCESSOR_PARAM_BYPASS {
        Some(ProcessorParameter::Bypass)
    } else if code == PROCESSOR_PARAM_ENHANCEMENT_LEVEL {
        Some(ProcessorParameter::EnhancementLevel)
    } else if code == PROCESSOR_PARAM_VOICE_GAIN {
        Some(ProcessorParameter::VoiceGain)
    } else {
        None
    }
}

/// The VAD parameter that a wire code names, if any.
pub open spec fn vad_parameter_of(code: int) -> Option<VadParameter> {
    if code == VAD_PARAM_SPEECH_HOLD_DURATION {
        Some(VadParameter::SpeechHoldDuration)
    } else if code == VAD_PARAM_SENSITIVITY {
        Some(VadParameter::Sensitivity)
    } else if code == VAD_PARAM_MINIMUM_SPEECH_DURATION {
        Some(VadParameter::MinimumSpeechDuration)
    } else {
        None
    }
}

impl ProcessorParameter {
    pub open spec fn spec_code(self) -> i32 {
        match self {
            ProcessorParameter::Bypass => PROCESSOR_PARAM_BYPASS,
            ProcessorParameter::EnhancementLevel => PROCESSOR_PARAM_ENHANCEMENT_LEVEL,
            ProcessorParameter::VoiceGain => PROCESSOR_PARAM_VOICE_GAIN,
        }
    }

    /// The wire code of this parameter.
    #[verifier::when_used_as_spec(spec_code)]
    pub fn code(self) -> (r: i32)
        ensures
            r == self.spec_code(),
    {
        match self {
            ProcessorParameter::Bypass => PROCESSOR_PARAM_BYPASS,
            ProcessorParameter::EnhancementLevel => PROCESSOR_PARAM_ENHANCEMENT_LEVEL,
            ProcessorParameter::VoiceGain => PROCESSOR_PARAM_VOICE_GAIN,
        }
    }
}

impl VadParameter {
    pub open spec fn spec_code(self) -> i32 {
        match self {
            VadParameter::SpeechHoldDuration => VAD_PARAM_SPEECH_HOLD_DURATION,
            VadParameter::Sensitivity => VAD_PARAM_SENSITIVITY,
            VadParameter::MinimumSpeechDuration => VAD_PARAM_MINIMUM_SPEECH_DURATION,
        }
    }

    /// The wire code of this parameter.
    #[verifier::when_used_as_spec(spec_code)]
    pub fn code(self) -> (r: i32)
        ensures
            r == self.spec_code(),
    {
        match self {
            VadParameter::SpeechHoldDuration => VAD_PARAM_SPEECH_HOLD_DURATION,
            VadParameter::Sensitivity => VAD_PARAM_SENSITIVITY,
            VadParameter::MinimumSpeechDuration => VAD_PARAM_MINIMUM_SPEECH_DURATION,
        }
    }
}

/// Decodes a processor parameter; any code but 0, 1 and 2 is refused with
/// the code itself.
pub fn parse_processor_parameter(code: i32) -> (r: Result<ProcessorParameter, BridgeError>)
    ensures
        match processor_parameter_of(code as int) {
            Some(p) => r == Ok::<ProcessorParameter, BridgeError>(p),
            None => r == Err::<ProcessorParameter, BridgeError>(
                BridgeError::InvalidArgument(InvalidArgument::ProcessorParameter(code)),
            ),
        },
{
    if code == PROCESSOR_PARAM_BYPASS {
        Ok(ProcessorParameter::Bypass)
    } else if code == PROCESSOR_PARAM_ENHANCEMENT_LEVEL {
        Ok(ProcessorParameter::EnhancementLevel)
    } else if code == PROCESSOR_PARAM_VOICE_GAIN {
        Ok(ProcessorParameter::VoiceGain)
    } else {
        Err(BridgeError::InvalidArgument(InvalidArgument::ProcessorParameter(code)))
    }
}

/// Decodes a VAD parameter; any code but 0, 1 and 2 is refused with the code
/// itself.
pub fn parse_vad_parameter(code: i32) -> (r: Result<VadParameter, BridgeError>)
    ensures
        match vad_parameter_of(code as int) {
            Some(p) => r == Ok::<VadParameter, BridgeError>(p),
            None => r == Err::<VadParameter, BridgeError>(
                BridgeError::InvalidArgument(InvalidArgument::VadParameter(code)),
            ),
        },
{
    if code == VAD_PARAM_SPEECH_HOLD_DURATION {
        Ok(VadParameter::SpeechHoldDuration)
    } else if code == VAD_PARAM_SENSITIVITY {
        Ok(VadParameter::Sensitivity)
    } else if code == VAD_PARAM_MINIMUM_SPEECH_DURATION {
        Ok(VadParameter::MinimumSpeechDuration)
    } else {
        Err(BridgeError::InvalidArgument(InvalidArgument::VadParameter(code)))
    }
}

/// Codes outside 0, 1 and 2 name neither a processor parameter nor a VAD
/// parameter, so both decoders refuse them.
pub proof fn lemma_unknown_codes_rejected(code: int)
    requires
        code < 0 || code > 2,
    ensures
        processor_parameter_of(code) is None,
        vad_parameter_of(code) is None,
{
}

/// Decoding the code of a processor parameter gives that parameter back, and
/// every code that decodes is the code of what it decodes to.
pub proof fn lemma_processor_parameter_round_trip(p: ProcessorParameter, code: int)
    ensures
        processor_parameter_of(p.spec_code() as int) == Some(p),
        processor_parameter_of(code) matches Some(q) ==> q.spec_code() == code,
{
}

/// Decoding the code of a VAD parameter gives that parameter back, and every
/// code that decodes is the code of what it decodes to.
pub proof fn lemma_vad_parameter_round_trip(p: VadParameter, code: int)
    ensures
        vad_parameter_of(p.spec_code() as int) == Some(p),
        vad_parameter_of(code) matches Some(q) ==> q.spec_code() == code,
{
}

/// A model variant of the engine, named on the wire by a fixed string.
#[derive(Debug, Clone, Copy, PartialEq, Eq, Structural)]
pub enum ModelType {
    QuailL48,
    QuailL16,
    QuailL8,
    QuailS48,
    QuailS16,
    QuailS8,
    QuailXs,
    QuailXxs,
    QuailSttL16,
    QuailSttL8,
    QuailSttS16,
    QuailSttS8,
    QuailVfSttL16,
}

/// The model type whose name is exactly `s`, if any.
pub open spec fn model_type_named(s: Seq<char>) -> Option<ModelType> {
    if s == "QuailL48"@ {
        Some(ModelType::QuailL48)
    } else if s == "QuailL16"@ {
        Some(ModelType::QuailL16)
    } else if s == "QuailL8"@ {
        Some(ModelType::QuailL8)
    } else if s == "QuailS48"@ {
        Some(ModelType::QuailS48)
    } else if s == "QuailS16"@ {
        Some(ModelType::QuailS16)
    } else if s == "QuailS8"@ {
        Some(ModelType::QuailS8)
    } else if s == "QuailXs"@ {
        Some(ModelType::QuailXs)
    } else if s == "QuailXxs"@ {
        Some(ModelType::QuailXxs)
    } else if s == "QuailSttL16"@ {
        Some(ModelType::QuailSttL16)
    } else if s == "QuailSttL8"@ {
        Some(ModelType::QuailSttL8)
    } else if s == "QuailSttS16"@ {
        Some(ModelType::QuailSttS16)
    } else if s == "QuailSttS8"@ {
        Some(ModelType::QuailSttS8)
    } else if s == "QuailVfSttL16"@ {
        Some(ModelType::QuailVfSttL16)
    } else {
        None
    }
}

impl ModelType {
    pub open spec fn spec_name(self) -> Seq<char> {
        match self {
            ModelType::QuailL48 => "QuailL48"@,
            ModelType::QuailL16 => "QuailL16"@,
            ModelType::QuailL8 => "QuailL8"@,
            ModelType::QuailS48 => "QuailS48"@,
            ModelType::QuailS16 => "QuailS16"@,
            ModelType::QuailS8 => "QuailS8"@,
            ModelType::QuailXs => "QuailXs"@,
            ModelType::QuailXxs => "QuailXxs"@,
            ModelType::QuailSttL16 => "QuailSttL16"@,
            ModelType::QuailSttL8 => "QuailSttL8"@,
            ModelType::QuailSttS16 => "QuailSttS16"@,
            ModelType::QuailSttS8 => "QuailSttS8"@,
            ModelType::QuailVfSttL16 => "QuailVfSttL16"@,
        }
    }

    /// The wire name of this model type.
    pub fn name(self) -> (r: &'static str)
        ensures
            r@ == self.spec_name(),
    {
        match self {
            ModelType::QuailL48 => "QuailL48",
            ModelType::QuailL16 => "QuailL16",
            ModelType::QuailL8 => "QuailL8",
            ModelType::QuailS48 => "QuailS48",
            ModelType::QuailS16 => "QuailS16",
            ModelType::QuailS8 => "QuailS8",
            ModelType::QuailXs => "QuailXs",
            ModelType::QuailXxs => "QuailXxs",
            ModelType::QuailSttL16 => "QuailSttL16",
            ModelType::QuailSttL8 => "QuailSttL8",
            ModelType::QuailSttS16 => "QuailSttS16",
            ModelType::QuailSttS8 => "QuailSttS8",
            ModelType::QuailVfSttL16 => "QuailVfSttL16",
        }
    }
}

/// Whether two strings hold the same characters.
fn same_chars(a: &str, b: &str) -> (r: bool)
    ensures
        r == (a@ == b@),
{
    let n = a.unicode_len();
    if n != b.unicode_len() {
        return false;
    }
    let mut i: usize = 0;
    while i < n
        invariant
            n == a@.len(),
            n == b@.len(),
            i <= n,
            forall|k: int| 0 <= k < i ==> a@[k] == b@[k],
        decreases n - i,
    {
        if a.get_char(i) != b.get_char(i) {
            return false;
        }
        i = i + 1;
    }
    assert(a@ =~= b@);
    true
}

/// Decodes a model type from its exact name; any other string is refused
/// with the string itself.
pub fn parse_model_type(name: &str) -> (r: Result<ModelType, BridgeError>)
    ensures
        match model_type_named(name@) {
            Some(m) => r == Ok::<ModelType, BridgeError>(m),
            None => r matches Err(BridgeError::InvalidArgument(InvalidArgument::ModelType(s)))
                && s@ == name@,
        },
{
    if same_chars(name, "QuailL48") {
        return Ok(ModelType::QuailL48);
    }
    if same_chars(name, "QuailL16") {
        return Ok(ModelType::QuailL16);
    }
    if same_chars(name, "QuailL8") {
        return Ok(ModelType::QuailL8);
    }
    if same_chars(name, "QuailS48") {
        return Ok(ModelType::QuailS48);
    }
    if same_chars(name, "QuailS16") {
        return Ok(ModelType::QuailS16);
    }
    if same_chars(name, "QuailS8") {
        return Ok(ModelType::QuailS8);
    }
    if same_chars(name, "QuailXs") {
        return Ok(ModelType::QuailXs);
    }
    if same_chars(name, "QuailXxs") {
        return Ok(ModelType::QuailXxs);
    }
    if same_chars(name, "QuailSttL16") {
        return Ok(ModelType::QuailSttL16);
    }
    if same_chars(name, "QuailSttL8") {
        return Ok(ModelType::QuailSttL8);
    }
    if same_chars(name, "QuailSttS16") {
        return Ok(ModelType::QuailSttS16);
    }
    if same_chars(name, "QuailSttS8") {
        return Ok(ModelType::QuailSttS8);
    }
    if same_chars(name, "QuailVfSttL16") {
        return Ok(ModelType::QuailVfSttL16);
    }
    Err(BridgeError::InvalidArgument(InvalidArgument::ModelType(name.to_string())))
}

/// Every model type is decoded back from its own name.
pub proof fn lemma_model_type_round_trip(m: ModelType)
    ensures
        model_type_named(m.spec_name()) == Some(m),
{
    match m {
        ModelType::QuailL48 => {
            reveal_strlit("QuailL48");
        },
        ModelType::QuailL16 => {
            reveal_strlit("QuailL16");
            reveal_strlit("QuailL48");
            assert("QuailL16"@[6] != "QuailL48"@[6]);
        },
        ModelType::QuailL8 => {
            reveal_strlit("QuailL8");
            reveal_strlit("QuailL48");
            assert("QuailL8"@.len() != "QuailL48"@.len());
            reveal_strlit("QuailL16");
            assert("QuailL8"@.len() != "QuailL16"@.len());
        },
        ModelType::QuailS48 => {
            reveal_strlit("QuailS48");
            reveal_strlit("QuailL48");
            assert("QuailS48"@[5] != "QuailL48"@[5]);
            reveal_strlit("QuailL16");
            assert("QuailS48"@[5] != "QuailL16"@[5]);
            reveal_strlit("QuailL8");
            assert("QuailS48"@.len() != "QuailL8"@.len());
        },
        ModelType::QuailS16 => {
            reveal_strlit("QuailS16");
            reveal_strlit("QuailL48");
            assert("QuailS16"@[5] != "QuailL48"@[5]);
            reveal_strlit("QuailL16");
            assert("QuailS16"@[5] != "QuailL16"@[5]);
            reveal_strlit("QuailL8");
            assert("QuailS16"@.len() != "QuailL8"@.len());
            reveal_strlit("QuailS48");
            assert("QuailS16"@[6] != "QuailS48"@[6]);
        },
        ModelType::QuailS8 => {
            reveal_strlit("QuailS8");
            reveal_strlit("QuailL48");
            assert("QuailS8"@.len() != "QuailL48"@.len());
            reveal_strlit("QuailL16");
            assert("QuailS8"@.len() != "QuailL16"@.len());
            reveal_strlit("QuailL8");
            assert("QuailS8"@[5] != "QuailL8"@[5]);
            reveal_strlit("QuailS48");
            assert("QuailS8"@.len() != "QuailS48"@.len());
            reveal_strlit("QuailS16");
            assert("QuailS8"@.len() != "QuailS16"@.len());
        },
        ModelType::QuailXs => {
            reveal_strlit("QuailXs");
            reveal_strlit("QuailL48");
            assert("QuailXs"@.len() != "QuailL48"@.len());
            reveal_strlit("QuailL16");
            assert("QuailXs"@.len() != "QuailL16"@.len());
            reveal_strlit("QuailL8");
            assert("QuailXs"@[5] != "QuailL8"@[5]);
            reveal_strlit("QuailS48");
            assert("QuailXs"@.len() != "QuailS48"@.len());
            reveal_strlit("QuailS16");
            assert("QuailXs"@.len() != "QuailS16"@.len());
            reveal_strlit("QuailS8");
            assert("QuailXs"@[5] != "QuailS8"@[5]);
        },
        ModelType::QuailXxs => {
            reveal_strlit("QuailXxs");
            reveal_strlit("QuailL48");
            assert("QuailXxs"@[5] != "QuailL48"@[5]);
            reveal_strlit("QuailL16");
            assert("QuailXxs"@[5] != "QuailL16"@[5]);
            reveal_strlit("QuailL8");
            assert("QuailXxs"@.len() != "QuailL8"@.len());
            reveal_strlit("QuailS48");
            assert("QuailXxs"@[5] != "QuailS48"@[5]);
            reveal_strlit("QuailS16");
            assert("QuailXxs"@[5] != "QuailS16"@[5]);
            reveal_strlit("QuailS8");
            assert("QuailXxs"@.len() != "QuailS8"@.len());
            reveal_strlit("QuailXs");
            assert("QuailXxs"@.len() != "QuailXs"@.len());
        },
        ModelType::QuailSttL16 => {
            reveal_strlit("QuailSttL16");
            reveal_strlit("QuailL48");
            assert("QuailSttL16"@.len() != "QuailL48"@.len());
            reveal_strlit("QuailL16");
            assert("QuailSttL16"@.len() != "QuailL16"@.len());
            reveal_strlit("QuailL8");
            assert("QuailSttL16"@.len() != "QuailL8"@.len());
            reveal_strlit("QuailS48");
            assert("QuailSttL16"@.len() != "QuailS48"@.len());
            reveal_strlit("QuailS16");
            assert("QuailSttL16"@.len() != "QuailS16"@.len());
            reveal_strlit("QuailS8");
            assert("QuailSttL16"@.len() != "QuailS8"@.len());
            reveal_strlit("QuailXs");
            assert("QuailSttL16"@.len() != "QuailXs"@.len());
            reveal_strlit("QuailXxs");
            assert("QuailSttL16"@.len() != "QuailXxs"@.len());
        },
        ModelType::QuailSttL8 => {
            reveal_strlit("QuailSttL8");
            reveal_strlit("QuailL48");
            assert("QuailSttL8"@.len() != "QuailL48"@.len());
            reveal_strlit("QuailL16");
            assert("QuailSttL8"@.len() != "QuailL16"@.len());
            reveal_strlit("QuailL8");
            assert("QuailSttL8"@.len() != "QuailL8"@.len());
            reveal_strlit("QuailS48");
            assert("QuailSttL8"@.len() != "QuailS48"@.len());
            reveal_strlit("QuailS16");
            assert("QuailSttL8"@.len() != "QuailS16"@.len());
            reveal_strlit("QuailS8");
            assert("QuailSttL8"@.len() != "QuailS8"@.len());
            reveal_strlit("QuailXs");
            assert("QuailSttL8"@.len() != "QuailXs"@.len());
            reveal_strlit("QuailXxs");
            assert("QuailSttL8"@.len() != "QuailXxs"@.len());
            reveal_strlit("QuailSttL16");
            assert("QuailSttL8"@.len() != "QuailSttL16"@.len());
        },
        ModelType::QuailSttS16 => {
            reveal_strlit("QuailSttS16");
            reveal_strlit("QuailL48");
            assert("QuailSttS16"@.len() != "QuailL48"@.len());
            reveal_strlit("QuailL16");
            assert("QuailSttS16"@.len() != "QuailL16"@.len());
            reveal_strlit("QuailL8");
            assert("QuailSttS16"@.len() != "QuailL8"@.len());
            reveal_strlit("QuailS48");
            assert("QuailSttS16"@.len() != "QuailS48"@.len());
            reveal_strlit("QuailS16");
            assert("QuailSttS16"@.len() != "QuailS16"@.len());
            reveal_strlit("QuailS8");
            assert("QuailSttS16"@.len() != "QuailS8"@.len());
            reveal_strlit("QuailXs");
            assert("QuailSttS16"@.len() != "QuailXs"@.len());
            reveal_strlit("QuailXxs");
            assert("QuailSttS16"@.len() != "QuailXxs"@.len());
            reveal_strlit("QuailSttL16");
            assert("QuailSttS16"@[8] != "QuailSttL16"@[8]);
            reveal_strlit("QuailSttL8");
            assert("QuailSttS16"@.len() != "QuailSttL8"@.len());
        },
        ModelType::QuailSttS8 => {
            reveal_strlit("QuailSttS8");
            reveal_strlit("QuailL48");
            assert("QuailSttS8"@.len() != "QuailL48"@.len());
            reveal_strlit("QuailL16");
            assert("QuailSttS8"@.len() != "QuailL16"@.len());
            reveal_strlit("QuailL8");
            assert("QuailSttS8"@.len() != "QuailL8"@.len());
            reveal_strlit("QuailS48");
            assert("QuailSttS8"@.len() != "QuailS48"@.len());
            reveal_strlit("QuailS16");
            assert("QuailSttS8"@.len() != "QuailS16"@.len());
            reveal_strlit("QuailS8");
            assert("QuailSttS8"@.len() != "QuailS8"@.len());
            reveal_strlit("QuailXs");
            assert("QuailSttS8"@.len() != "QuailXs"@.len());
            reveal_strlit("QuailXxs");
            assert("QuailSttS8"@.len() != "QuailXxs"@.len());
            reveal_strlit("QuailSttL16");
            assert("QuailSttS8"@.len() != "QuailSttL16"@.len());
            reveal_strlit("QuailSttL8");
            assert("QuailSttS8"@[8] != "QuailSttL8"@[8]);
            reveal_strlit("QuailSttS16");
            assert("QuailSttS8"@.len() != "QuailSttS16"@.len());
        },
        ModelType::QuailVfSttL16 => {
            reveal_strlit("QuailVfSttL16");
            reveal_strlit("QuailL48");
            assert("QuailVfSttL16"@.len() != "QuailL48"@.len());
            reveal_strlit("QuailL16");
            assert("QuailVfSttL16"@.len() != "QuailL16"@.len());
            reveal_strlit("QuailL8");
            assert("QuailVfSttL16"@.len() != "QuailL8"@.len());
            reveal_strlit("QuailS48");
            assert("QuailVfSttL16"@.len() != "QuailS48"@.len());
            reveal_strlit("QuailS16");
            assert("QuailVfSttL16"@.len() != "QuailS16"@.len());
            reveal_strlit("QuailS8");
            assert("QuailVfSttL16"@.len() != "QuailS8"@.len());
            reveal_strlit("QuailXs");
            assert("QuailVfSttL16"@.len() != "QuailXs"@.len());
            reveal_strlit("QuailXxs");
            assert("QuailVfSttL16"@.len() != "QuailXxs"@.len());
            reveal_strlit("QuailSttL16");
            assert("QuailVfSttL16"@.len() != "QuailSttL16"@.len());
            reveal_strlit("QuailSttL8");
            assert("QuailVfSttL16"@.len() != "QuailSttL8"@.len());
            reveal_strlit("QuailSttS16");
            assert("QuailVfSttL16"@.len() != "QuailSttS16"@.len());
            reveal_strlit("QuailSttS8");
            assert("QuailVfSttL16"@.len() != "QuailSttS8"@.len());
        },
    }
}

/// A string that decodes is exactly the name of the model type it decodes to.
pub proof fn lemma_model_type_names_exact(s: Seq<char>)
    ensures
        model_type_named(s) matches Some(m) ==> m.spec_name() == s,
{
}

/// A string that is the name of no model type decodes to nothing, so
/// `parse_model_type` refuses it.
pub proof fn lemma_unknown_model_names_rejected(s: Seq<char>)
    requires
        forall|m: ModelType| m.spec_name() != s,
    ensures
        model_type_named(s) is None,
{
    lemma_model_type_names_exact(s);
    if let Some(m) = model_type_named(s) {
        assert(m.spec_name() == s);
    }
}

} // verus!
