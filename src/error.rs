//! The reasons an invocation fails.
use vstd::prelude::*;
use crate::text::push_char;

verus! {

/// A step of the work on a stream, a file or the network that failed.
#[derive(Clone, Copy, Debug, PartialEq, Eq, Structural)]
pub enum IoStep {
    /// Reading the capture tool's diagnostic output.
    ReadDiagnostics,
    /// Ending the capture process by force.
    Kill,
    /// The capture process offered no input stream.
    StdinUnavailable,
    /// Writing the quit command to the capture process.
    WriteQuit,
    /// Flushing the capture process's input stream.
    Flush,
    /// Waiting for the capture process to exit.
    Wait,
    /// Opening the finished recording.
    OpenRecording,
    /// Sending the request or reading the response.
    Transfer,
}

/// What is wrong with what the user asked for.
#[derive(Clone, Copy, Debug, PartialEq, Eq, Structural)]
pub enum Invalid {
    /// Missing, extra or unknown command-line arguments.
    Arguments,
    /// A language code outside the supported ones.
    UnsupportedLanguage,
    /// A device name that the capture tool does not report.
    UnknownDevice,
}

/// Why an invocation failed.
#[derive(Debug)]
pub enum Error {
    /// A subprocess could not be started.
    SpawnFailed,
    /// Reading, writing, flushing or waiting failed.
    IoFailed(IoStep),
    /// A malformed device line, or a response body without a text: the
    /// offending text.
    ParseFailed(String),
    /// The service answered with this non-success status.
    HttpStatusFailed(u16),
    /// The credential for the service is not set.
    ConfigMissing,
    /// The request is not valid.
    ValidationFailed(Invalid),
}

/// The character of a decimal digit.
pub open spec fn digit_char(d: nat) -> char {
    if d == 0 {
        '0'
    } else if d == 1 {
        '1'
    } else if d == 2 {
        '2'
    } else if d == 3 {
        '3'
    } else if d == 4 {
        '4'
    } else if d == 5 {
        '5'
    } else if d == 6 {
        '6'
    } else if d == 7 {
        '7'
    } else if d == 8 {
        '8'
    } else {
        '9'
    }
}

/// `n` written in decimal.
pub open spec fn decimal(n: nat) -> Seq<char>
    decreases n,
{
    if n < 10 {
        seq![digit_char(n)]
    } else {
        decimal(n / 10).push(digit_char(n % 10))
    }
}

/// `n` written in decimal.
pub fn decimal_string(n: u16) -> (r: String)
    ensures
        r@ == decimal(n as nat),
    decreases n,
{
    let d = n % 10;
    let c = if d == 0 {
        '0'
    } else if d == 1 {
        '1'
    } else if d == 2 {
        '2'
    } else if d == 3 {
        '3'
    } else if d == 4 {
        '4'
    } else if d == 5 {
        '5'
    } else if d == 6 {
        '6'
    } else if d == 7 {
        '7'
    } else if d == 8 {
        '8'
    } else {
        '9'
    };
    let mut s = if n < 10 {
        String::new()
    } else {
        decimal_string(n / 10)
    };
    push_char(&mut s, c);
    proof {
        if n < 10 {
            assert(s@ =~= decimal(n as nat));
        }
    }
    s
}

/// What a failed step is reported as.
pub open spec fn step_message(step: IoStep) -> Seq<char> {
    match step {
        IoStep::ReadDiagnostics => "failed to read the diagnostic output of ffmpeg"@,
        IoStep::Kill => "Failed to kill ffmpeg instance"@,
        IoStep::StdinUnavailable => "Unknown error occured while taking STDIN from ffmpeg process."@,
        IoStep::WriteQuit => "Failed to send 'q' key to ffmpeg instance"@,
        IoStep::Flush => "Failed to flush stdin of ffmpeg instance"@,
        IoStep::Wait => "Failed to wait for ffmpeg instance to exit"@,
        IoStep::OpenRecording => "Error occured while trying to read recorded audio sample"@,
        IoStep::Transfer => "Failed to reach the transcription service"@,
    }
}

/// What an invalid request is reported as.
pub open spec fn invalid_message(what: Invalid) -> Seq<char> {
    match what {
        Invalid::Arguments => "Usage: transcribe [language] [audio_device_name] | devices"@,
        Invalid::UnsupportedLanguage => "Unknown language, supported languages: 'en', 'pl'."@,
        Invalid::UnknownDevice => "This audio device does not exist."@,
    }
}

/// The message that tells the user of `err`.
pub open spec fn message(err: Error) -> Seq<char> {
    match err {
        Error::SpawnFailed => "could not spawn ffmpeg process"@,
        Error::IoFailed(step) => step_message(step),
        Error::ParseFailed(text) => "parsing error: \""@ + text@ + "\""@,
        Error::HttpStatusFailed(status) => "transcription service answered with HTTP status "@
            + decimal(status as nat),
        Error::ConfigMissing => "Required OPENAI_AUTH_KEY environment variable has not been set."@,
        Error::ValidationFailed(what) => invalid_message(what),
    }
}

/// The message that tells the user of `err`.
pub fn error_to_string(err: &Error) -> (r: String)
    ensures
        r@ == message(*err),
{
    match err {
        Error::SpawnFailed => String::from_str("could not spawn ffmpeg process"),
        Error::IoFailed(step) => String::from_str(
            match step {
                IoStep::ReadDiagnostics => "failed to read the diagnostic output of ffmpeg",
                IoStep::Kill => "Failed to kill ffmpeg instance",
                IoStep::StdinUnavailable =>
                    "Unknown error occured while taking STDIN from ffmpeg process.",
                IoStep::WriteQuit => "Failed to send 'q' key to ffmpeg instance",
                IoStep::Flush => "Failed to flush stdin of ffmpeg instance",
                IoStep::Wait => "Failed to wait for ffmpeg instance to exit",
                IoStep::OpenRecording => "Error occured while trying to read recorded audio sample",
                IoStep::Transfer => "Failed to reach the transcription service",
            },
        ),
        Error::ParseFailed(text) => String::from_str("parsing error: \"").concat(text.as_str()).concat(
            "\"",
        ),
        Error::HttpStatusFailed(status) => {
            let digits = decimal_string(*status);
            String::from_str("transcription service answered with HTTP status ").concat(
                digits.as_str(),
            )
        },
        Error::ConfigMissing => String::from_str(
            "Required OPENAI_AUTH_KEY environment variable has not been set.",
        ),
        Error::ValidationFailed(what) => String::from_str(
            match what {
                Invalid::Arguments => "Usage: transcribe [language] [audio_device_name] | devices",
                Invalid::UnsupportedLanguage => "Unknown language, supported languages: 'en', 'pl'.",
                Invalid::UnknownDevice => "This audio device does not exist.",
            },
        ),
    }
}

} // verus!
