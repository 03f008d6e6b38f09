//! The command line: what the user asked for, and whether it can be done.
use vstd::prelude::*;
use crate::error::{Error, Invalid};
use crate::session::{Phase, RecordingSession};

verus! {

/// A language that the service is asked to transcribe.
#[derive(Clone, Copy, Debug, PartialEq, Eq, Structural)]
pub enum Language {
    English,
    Polish,
}

/// The language that a two-letter code names, if it is supported.
pub open spec fn language_of(code: Seq<char>) -> Option<Language> {
    if code == "en"@ {
        Some(Language::English)
    } else if code == "pl"@ {
        Some(Language::Polish)
    } else {
        None
    }
}

impl Language {
    pub open spec fn spec_code(self) -> Seq<char> {
        match self {
            Language::English => "en"@,
            Language::Polish => "pl"@,
        }
    }

    /// The language's two-letter code.
    pub fn code(&self) -> (r: &'static str)
        ensures
            r@ == self.spec_code(),
    {
        match self {
            Language::English => "en",
            Language::Polish => "pl",
        }
    }
}

/// Whether two strings hold the same characters.
fn same_text(a: &str, b: &str) -> (r: bool)
    ensures
        r == (a@ == b@),
{
    String::from_str(a) == String::from_str(b)
}

/// The supported language named by `code`.
pub fn parse_language(code: &str) -> (r: Option<Language>)
    ensures
        r == language_of(code@),
{
    if same_text(code, "en") {
        Some(Language::English)
    } else if same_text(code, "pl") {
        Some(Language::Polish)
    } else {
        None
    }
}

/// What the user asked for.
#[derive(Debug)]
pub enum Command {
    /// List the audio input devices.
    ListDevices,
    /// Record from `device` and transcribe in `language`.
    Transcribe { language: Language, device: String },
}

/// Reads the command from the arguments (the program name left out).
/// `devices` lists the devices; `transcribe <language> <device>` records and
/// transcribes, and needs the service's credential, checked first.
pub fn parse_command(args: &Vec<String>, api_key_set: bool) -> (r: Result<Command, Error>)
    ensures
        args.len() == 0 ==> r matches Err(Error::ValidationFailed(Invalid::Arguments)),
        args.len() > 0 && args[0]@ == "devices"@ ==> r matches Ok(Command::ListDevices),
        args.len() > 0 && args[0]@ == "transcribe"@ ==> if !api_key_set {
            r matches Err(Error::ConfigMissing)
        } else if args.len() != 3 {
            r matches Err(Error::ValidationFailed(Invalid::Arguments))
        } else {
            match language_of(args[1]@) {
                None => r matches Err(Error::ValidationFailed(Invalid::UnsupportedLanguage)),
                Some(l) => r matches Ok(Command::Transcribe { language, device }) && language == l
                    && device@ == args[2]@,
            }
        },
        args.len() > 0 && args[0]@ != "devices"@ && args[0]@ != "transcribe"@ ==> r matches Err(
            Error::ValidationFailed(Invalid::Arguments),
        ),
{
    proof {
        reveal_strlit("devices");
        reveal_strlit("transcribe");
        assert("devices"@.len() != "transcribe"@.len());
    }
    if args.len() == 0 {
        return Err(Error::ValidationFailed(Invalid::Arguments));
    }
    if same_text(args[0].as_str(), "devices") {
        return Ok(Command::ListDevices);
    }
    if !same_text(args[0].as_str(), "transcribe") {
        return Err(Error::ValidationFailed(Invalid::Arguments));
    }
    if !api_key_set {
        return Err(Error::ConfigMissing);
    }
    if args.len() != 3 {
        return Err(Error::ValidationFailed(Invalid::Arguments));
    }
    match parse_language(args[1].as_str()) {
        None => Err(Error::ValidationFailed(Invalid::UnsupportedLanguage)),
        Some(language) => Ok(Command::Transcribe { language, device: args[2].clone() }),
    }
}

/// `device` is among the names in `devices`.
pub open spec fn is_listed(device: Seq<char>, devices: Seq<String>) -> bool {
    exists|i: int| 0 <= i < devices.len() && devices[i]@ == device
}

/// Whether `device` is among `devices`.
pub fn device_is_listed(device: &String, devices: &Vec<String>) -> (r: bool)
    ensures
        r == is_listed(device@, devices@),
{
    let mut i: usize = 0;
    while i < devices.len()
        invariant
            i <= devices.len(),
            forall|j: int| 0 <= j < i ==> devices@[j]@ != device@,
        decreases devices.len() - i,
    {
        if devices[i] == *device {
            return true;
        }
        i += 1;
    }
    false
}

/// A session to record from `device` into `output_path`, only when the
/// capture tool reports that device. An unknown device fails here, so no
/// capture process is ever started for it.
pub fn prepare_recording(device: String, output_path: String, devices: &Vec<String>) -> (r: Result<
    RecordingSession,
    Error,
>)
    ensures
        is_listed(device@, devices@) ==> (r matches Ok(s) && s.spec_phase() == Phase::Idle
            && s.spec_device() == device@ && s.spec_output_path() == output_path@),
        !is_listed(device@, devices@) ==> r matches Err(
            Error::ValidationFailed(Invalid::UnknownDevice),
        ),
{
    if device_is_listed(&device, devices) {
        Ok(RecordingSession::start(device, output_path))
    } else {
        Err(Error::ValidationFailed(Invalid::UnknownDevice))
    }
}

} // verus!
