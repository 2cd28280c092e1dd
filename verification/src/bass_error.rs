//! The errors that BASS reports, and how its error codes map onto them.
use vstd::prelude::*;

use crate::text::{dec_signed, push_dec_signed, string_from_chars};

verus! {

broadcast use vstd::string::group_string_axioms;

/// BASS error code `BASS_OK`.
pub const BASS_OK: i32 = 0;

/// BASS error code `BASS_ERROR_MEM`.
pub const BASS_ERROR_MEM: i32 = 1;

/// BASS error code `BASS_ERROR_FILEOPEN`.
pub const BASS_ERROR_FILEOPEN: i32 = 2;

/// BASS error code `BASS_ERROR_DRIVER`.
pub const BASS_ERROR_DRIVER: i32 = 3;

/// BASS error code `BASS_ERROR_BUFLOST`.
pub const BASS_ERROR_BUFLOST: i32 = 4;

/// BASS error code `BASS_ERROR_HANDLE`.
pub const BASS_ERROR_HANDLE: i32 = 5;

/// BASS error code `BASS_ERROR_FORMAT`.
pub const BASS_ERROR_FORMAT: i32 = 6;

/// BASS error code `BASS_ERROR_POSITION`.
pub const BASS_ERROR_POSITION: i32 = 7;

/// BASS error code `BASS_ERROR_INIT`.
pub const BASS_ERROR_INIT: i32 = 8;

/// BASS error code `BASS_ERROR_START`.
pub const BASS_ERROR_START: i32 = 9;

/// BASS error code `BASS_ERROR_ALREADY`.
pub const BASS_ERROR_ALREADY: i32 = 14;

/// BASS error code `BASS_ERROR_NOTAUDIO`.
pub const BASS_ERROR_NOTAUDIO: i32 = 17;

/// BASS error code `BASS_ERROR_NOCHAN`.
pub const BASS_ERROR_NOCHAN: i32 = 18;

/// BASS error code `BASS_ERROR_ILLTYPE`.
pub const BASS_ERROR_ILLTYPE: i32 = 19;

/// BASS error code `BASS_ERROR_ILLPARAM`.
pub const BASS_ERROR_ILLPARAM: i32 = 20;

/// BASS error code `BASS_ERROR_NO3D`.
pub const BASS_ERROR_NO3D: i32 = 21;

/// BASS error code `BASS_ERROR_NOEAX`.
pub const BASS_ERROR_NOEAX: i32 = 22;

/// BASS error code `BASS_ERROR_DEVICE`.
pub const BASS_ERROR_DEVICE: i32 = 23;

/// BASS error code `BASS_ERROR_NOPLAY`.
pub const BASS_ERROR_NOPLAY: i32 = 24;

/// BASS error code `BASS_ERROR_FREQ`.
pub const BASS_ERROR_FREQ: i32 = 25;

/// BASS error code `BASS_ERROR_NOTFILE`.
pub const BASS_ERROR_NOTFILE: i32 = 27;

/// BASS error code `BASS_ERROR_NOHW`.
pub const BASS_ERROR_NOHW: i32 = 29;

/// BASS error code `BASS_ERROR_EMPTY`.
pub const BASS_ERROR_EMPTY: i32 = 31;

/// BASS error code `BASS_ERROR_NONET`.
pub const BASS_ERROR_NONET: i32 = 32;

/// BASS error code `BASS_ERROR_CREATE`.
pub const BASS_ERROR_CREATE: i32 = 33;

/// BASS error code `BASS_ERROR_NOFX`.
pub const BASS_ERROR_NOFX: i32 = 34;

/// BASS error code `BASS_ERROR_NOTAVAIL`.
pub const BASS_ERROR_NOTAVAIL: i32 = 37;

/// BASS error code `BASS_ERROR_DECODE`.
pub const BASS_ERROR_DECODE: i32 = 38;

/// BASS error code `BASS_ERROR_DX`.
pub const BASS_ERROR_DX: i32 = 39;

/// BASS error code `BASS_ERROR_TIMEOUT`.
pub const BASS_ERROR_TIMEOUT: i32 = 40;

/// BASS error code `BASS_ERROR_FILEFORM`.
pub const BASS_ERROR_FILEFORM: i32 = 41;

/// BASS error code `BASS_ERROR_SPEAKER`.
pub const BASS_ERROR_SPEAKER: i32 = 42;

/// BASS error code `BASS_ERROR_VERSION`.
pub const BASS_ERROR_VERSION: i32 = 43;

/// BASS error code `BASS_ERROR_CODEC`.
pub const BASS_ERROR_CODEC: i32 = 44;

/// BASS error code `BASS_ERROR_ENDED`.
pub const BASS_ERROR_ENDED: i32 = 45;

/// BASS error code `BASS_ERROR_BUSY`.
pub const BASS_ERROR_BUSY: i32 = 46;

/// An error reported by BASS.
#[derive(Clone, Copy, PartialEq, Eq, Debug, Structural)]
pub enum BassError {
    /// all is ok
    AllOk,
    /// Memory error
    Mem,
    /// Can't open the file
    FileOpen,
    /// Can't find a free/valid driver
    Driver,
    /// The sample buffer was lost
    BufLost,
    /// Invalid handle
    Handle,
    /// Unsupported sample format
    Format,
    /// Invalid playback position
    Position,
    /// BASS_Init has not been successfully called
    Init,
    /// BASS_Start has not been successfully called
    Start,
    /// No CD in drive
    Nocd,
    /// Invalid track number
    Cdtrack,
    /// Already initialized/paused/whatever
    Already,
    /// Not paused
    Nopause,
    /// Not an audio track
    Notaudio,
    /// Can't get a free channel
    Nochan,
    /// An illegal type was specified
    Illtype,
    /// An illegal parameter was specified
    Illparam,
    /// No 3D support
    No3d,
    /// No EAX support
    Noeax,
    /// Illegal device number
    Device,
    /// Not playing
    Noplay,
    /// Illegal sample rate
    Freq,
    /// The stream is not a file stream
    Notfile,
    /// No hardware voices available
    Nohw,
    /// The MOD music has no sequence data
    Empty,
    /// No internet connection could be opened
    Nonet,
    /// Couldn't create the file
    Create,
    /// Effects are not available
    Nofx,
    /// The channel is playing
    Playing,
    /// Requested data is not available
    Notavail,
    /// The channel is a 'decoding channel'
    Decode,
    /// A sufficient DirectX version is not installed
    Dx,
    /// Connection timedout
    Timeout,
    /// Unsupported file format
    Fileform,
    /// Unavailable speaker
    Speaker,
    /// Invalid BASS version (used by add-ons)
    Version,
    /// Codec is not available/supported
    Codec,
    /// The channel/file has ended
    Ended,
    /// The device is busy (eg. in "exclusive" use by another process)
    Busy,
    /// BassWma: the file is protected
    WmaLicense,
    /// BassWma: WM9 is required
    WmaWm9,
    /// BassWma: access denied (user/pass is invalid)
    WmaDenied,
    /// BassWma: no appropriate codec is installed
    WmaCodec,
    /// BassWma: individualization is needed
    WmaIndividual,
    /// BassEnc: ACM codec selection cancelled
    AcmCancel,
    /// BassEnc: Access denied (invalid password)
    CastDenied,
    /// BASSWASAPI: no WASAPI available
    Wasapi,
    /// BASS_AAC: non-streamable due to MP4 atom order ('mdat' before 'moov')
    Mp4Nostream,
    /// Some other mystery error
    Unknown(i32),
}

/// The error that BASS means by `code`; codes it does not know give `Unknown`.
pub open spec fn error_for_code(code: i32) -> BassError {
    if code == 0 {
        BassError::AllOk
    }
    else if code == 1 {
        BassError::Mem
    }
    else if code == 2 {
        BassError::FileOpen
    }
    else if code == 3 {
        BassError::Driver
    }
    else if code == 4 {
        BassError::BufLost
    }
    else if code == 5 {
        BassError::Handle
    }
    else if code == 6 {
        BassError::Format
    }
    else if code == 7 {
        BassError::Position
    }
    else if code == 8 {
        BassError::Init
    }
    else if code == 9 {
        BassError::Start
    }
    else if code == 14 {
        BassError::Already
    }
    else if code == 17 {
        BassError::Notaudio
    }
    else if code == 18 {
        BassError::Nochan
    }
    else if code == 19 {
        BassError::Illtype
    }
    else if code == 20 {
        BassError::Illparam
    }
    else if code == 21 {
        BassError::No3d
    }
    else if code == 22 {
        BassError::Noeax
    }
    else if code == 23 {
        BassError::Device
    }
    else if code == 24 {
        BassError::Noplay
    }
    else if code == 25 {
        BassError::Freq
    }
    else if code == 27 {
        BassError::Notfile
    }
    else if code == 29 {
        BassError::Nohw
    }
    else if code == 31 {
        BassError::Empty
    }
    else if code == 32 {
        BassError::Nonet
    }
    else if code == 33 {
        BassError::Create
    }
    else if code == 34 {
        BassError::Nofx
    }
    else if code == 37 {
        BassError::Notavail
    }
    else if code == 38 {
        BassError::Decode
    }
    else if code == 39 {
        BassError::Dx
    }
    else if code == 40 {
        BassError::Timeout
    }
    else if code == 41 {
        BassError::Fileform
    }
    else if code == 42 {
        BassError::Speaker
    }
    else if code == 43 {
        BassError::Version
    }
    else if code == 44 {
        BassError::Codec
    }
    else if code == 45 {
        BassError::Ended
    }
    else if code == 46 {
        BassError::Busy
    }
    else {
        BassError::Unknown(code)
    }
}

/// The code BASS uses for `e`, when `from_code` can give `e` back.
pub open spec fn code_of(e: BassError) -> Option<i32> {
    match e {
        BassError::AllOk => Some(0i32),
        BassError::Mem => Some(1i32),
        BassError::FileOpen => Some(2i32),
        BassError::Driver => Some(3i32),
        BassError::BufLost => Some(4i32),
        BassError::Handle => Some(5i32),
        BassError::Format => Some(6i32),
        BassError::Position => Some(7i32),
        BassError::Init => Some(8i32),
        BassError::Start => Some(9i32),
        BassError::Already => Some(14i32),
        BassError::Notaudio => Some(17i32),
        BassError::Nochan => Some(18i32),
        BassError::Illtype => Some(19i32),
        BassError::Illparam => Some(20i32),
        BassError::No3d => Some(21i32),
        BassError::Noeax => Some(22i32),
        BassError::Device => Some(23i32),
        BassError::Noplay => Some(24i32),
        BassError::Freq => Some(25i32),
        BassError::Notfile => Some(27i32),
        BassError::Nohw => Some(29i32),
        BassError::Empty => Some(31i32),
        BassError::Nonet => Some(32i32),
        BassError::Create => Some(33i32),
        BassError::Nofx => Some(34i32),
        BassError::Notavail => Some(37i32),
        BassError::Decode => Some(38i32),
        BassError::Dx => Some(39i32),
        BassError::Timeout => Some(40i32),
        BassError::Fileform => Some(41i32),
        BassError::Speaker => Some(42i32),
        BassError::Version => Some(43i32),
        BassError::Codec => Some(44i32),
        BassError::Ended => Some(45i32),
        BassError::Busy => Some(46i32),
        _ => None,
    }
}

/// The text that describes `e`.
pub open spec fn message_of(e: BassError) -> Seq<char> {
    match e {
        BassError::AllOk => "All is OK"@,
        BassError::Mem => "Memory error"@,
        BassError::FileOpen => "Can't open the file or stream"@,
        BassError::Driver => "Can't find a free or valid driver"@,
        BassError::BufLost => "The sample buffer was lost"@,
        BassError::Handle => "Invalid handle"@,
        BassError::Format => "Unsupported sample format"@,
        BassError::Position => "Invalid playback position"@,
        BassError::Init => "General BASS library initialization failed"@,
        BassError::Start => "BASS was fail to start"@,
        BassError::Nocd => "No CD in drive"@,
        BassError::Cdtrack => "Inavlid CD track number"@,
        BassError::Already => "Already initialized/paused/whatever "@,
        BassError::Nopause => "Not paused"@,
        BassError::Notaudio => "Not an audio track"@,
        BassError::Nochan => "Can't get a free channel"@,
        BassError::Illtype => "An illegal type was specified"@,
        BassError::Illparam => "An illegal parameter was specified"@,
        BassError::No3d => "No 3D support"@,
        BassError::Noeax => "No EAX suppoer"@,
        BassError::Device => "Illegal device number"@,
        BassError::Noplay => "Not playing"@,
        BassError::Freq => "Illegal sample rate"@,
        BassError::Notfile => "The stream is not a file stream"@,
        BassError::Nohw => "No hardware voices available"@,
        BassError::Empty => "The MOD music has no sequence data"@,
        BassError::Nonet => "No internet connection could be opened"@,
        BassError::Create => "Couldn't create the file"@,
        BassError::Nofx => "Effects are not available"@,
        BassError::Playing => "The channel is playing"@,
        BassError::Notavail => "Requested data is not available"@,
        BassError::Decode => "The channel is a 'decoding channel'"@,
        BassError::Dx => "A sufficient DirectX version is not installed"@,
        BassError::Timeout => "Connection timedout"@,
        BassError::Fileform => "Unsupported file format"@,
        BassError::Speaker => "Unavailable speaker"@,
        BassError::Version => "Invalid BASS version"@,
        BassError::Codec => "Codec is not available or supported"@,
        BassError::Ended => "The channel or file has ended"@,
        BassError::Busy => "The device is busy (eg. in \"exclusive\" use by another process)"@,
        BassError::WmaLicense => "BassWma: the file is protected"@,
        BassError::WmaWm9 => "BassWma: WM9 is required"@,
        BassError::WmaDenied => "BassWma: access denied (user or password is invalid)"@,
        BassError::WmaCodec => "BassWma: no appropriate codec is installed "@,
        BassError::WmaIndividual => "BassWma: individualization is needed"@,
        BassError::AcmCancel => "BassEnc: ACM codec selection cancelled"@,
        BassError::CastDenied => "BassEnc: Access denied (invalid password)"@,
        BassError::Wasapi => "BASSWASAPI: no WASAPI available"@,
        BassError::Mp4Nostream => "BASS_AAC: non-streamable due to MP4 atom order ('mdat' before 'moov')"@,
        BassError::Unknown(err) => "Unknown error code: "@ + dec_signed(err as int),
    }
}

impl BassError {
    /// Gets the error that corresponds to an error code.
    pub fn from_code(bass_err: i32) -> (r: Self)
        ensures
            r == error_for_code(bass_err),
    {
        if bass_err == BASS_OK {
            BassError::AllOk
        } else if bass_err == BASS_ERROR_MEM {
            BassError::Mem
        } else if bass_err == BASS_ERROR_FILEOPEN {
            BassError::FileOpen
        } else if bass_err == BASS_ERROR_DRIVER {
            BassError::Driver
        } else if bass_err == BASS_ERROR_BUFLOST {
            BassError::BufLost
        } else if bass_err == BASS_ERROR_HANDLE {
            BassError::Handle
        } else if bass_err == BASS_ERROR_FORMAT {
            BassError::Format
        } else if bass_err == BASS_ERROR_POSITION {
            BassError::Position
        } else if bass_err == BASS_ERROR_INIT {
            BassError::Init
        } else if bass_err == BASS_ERROR_START {
            BassError::Start
        } else if bass_err == BASS_ERROR_ALREADY {
            BassError::Already
        } else if bass_err == BASS_ERROR_NOTAUDIO {
            BassError::Notaudio
        } else if bass_err == BASS_ERROR_NOCHAN {
            BassError::Nochan
        } else if bass_err == BASS_ERROR_ILLTYPE {
            BassError::Illtype
        } else if bass_err == BASS_ERROR_ILLPARAM {
            BassError::Illparam
        } else if bass_err == BASS_ERROR_NO3D {
            BassError::No3d
        } else if bass_err == BASS_ERROR_NOEAX {
            BassError::Noeax
        } else if bass_err == BASS_ERROR_DEVICE {
            BassError::Device
        } else if bass_err == BASS_ERROR_NOPLAY {
            BassError::Noplay
        } else if bass_err == BASS_ERROR_FREQ {
            BassError::Freq
        } else if bass_err == BASS_ERROR_NOTFILE {
            BassError::Notfile
        } else if bass_err == BASS_ERROR_NOHW {
            BassError::Nohw
        } else if bass_err == BASS_ERROR_EMPTY {
            BassError::Empty
        } else if bass_err == BASS_ERROR_NONET {
            BassError::Nonet
        } else if bass_err == BASS_ERROR_CREATE {
            BassError::Create
        } else if bass_err == BASS_ERROR_NOFX {
            BassError::Nofx
        } else if bass_err == BASS_ERROR_NOTAVAIL {
            BassError::Notavail
        } else if bass_err == BASS_ERROR_DECODE {
            BassError::Decode
        } else if bass_err == BASS_ERROR_DX {
            BassError::Dx
        } else if bass_err == BASS_ERROR_TIMEOUT {
            BassError::Timeout
        } else if bass_err == BASS_ERROR_FILEFORM {
            BassError::Fileform
        } else if bass_err == BASS_ERROR_SPEAKER {
            BassError::Speaker
        } else if bass_err == BASS_ERROR_VERSION {
            BassError::Version
        } else if bass_err == BASS_ERROR_CODEC {
            BassError::Codec
        } else if bass_err == BASS_ERROR_ENDED {
            BassError::Ended
        } else if bass_err == BASS_ERROR_BUSY {
            BassError::Busy
        } else {
            BassError::Unknown(bass_err)
        }
    }

    /// Gets the last error that occurred within BASS.
    pub fn get_last_error() -> (r: Self)
        ensures
            exists|code: i32| r == error_for_code(code),
    {
        let code = crate::bass_init::bass_error_get_code();
        Self::from_code(code)
    }

    /// The text that describes the error.
    pub fn to_string(&self) -> (r: String)
        ensures
            r@ == message_of(*self),
    {
        match self {
            BassError::AllOk => "All is OK".to_string(),
            BassError::Mem => "Memory error".to_string(),
            BassError::FileOpen => "Can't open the file or stream".to_string(),
            BassError::Driver => "Can't find a free or valid driver".to_string(),
            BassError::BufLost => "The sample buffer was lost".to_string(),
            BassError::Handle => "Invalid handle".to_string(),
            BassError::Format => "Unsupported sample format".to_string(),
            BassError::Position => "Invalid playback position".to_string(),
            BassError::Init => "General BASS library initialization failed".to_string(),
            BassError::Start => "BASS was fail to start".to_string(),
            BassError::Nocd => "No CD in drive".to_string(),
            BassError::Cdtrack => "Inavlid CD track number".to_string(),
            BassError::Already => "Already initialized/paused/whatever ".to_string(),
            BassError::Nopause => "Not paused".to_string(),
            BassError::Notaudio => "Not an audio track".to_string(),
            BassError::Nochan => "Can't get a free channel".to_string(),
            BassError::Illtype => "An illegal type was specified".to_string(),
            BassError::Illparam => "An illegal parameter was specified".to_string(),
            BassError::No3d => "No 3D support".to_string(),
            BassError::Noeax => "No EAX suppoer".to_string(),
            BassError::Device => "Illegal device number".to_string(),
            BassError::Noplay => "Not playing".to_string(),
            BassError::Freq => "Illegal sample rate".to_string(),
            BassError::Notfile => "The stream is not a file stream".to_string(),
            BassError::Nohw => "No hardware voices available".to_string(),
            BassError::Empty => "The MOD music has no sequence data".to_string(),
            BassError::Nonet => "No internet connection could be opened".to_string(),
            BassError::Create => "Couldn't create the file".to_string(),
            BassError::Nofx => "Effects are not available".to_string(),
            BassError::Playing => "The channel is playing".to_string(),
            BassError::Notavail => "Requested data is not available".to_string(),
            BassError::Decode => "The channel is a 'decoding channel'".to_string(),
            BassError::Dx => "A sufficient DirectX version is not installed".to_string(),
            BassError::Timeout => "Connection timedout".to_string(),
            BassError::Fileform => "Unsupported file format".to_string(),
            BassError::Speaker => "Unavailable speaker".to_string(),
            BassError::Version => "Invalid BASS version".to_string(),
            BassError::Codec => "Codec is not available or supported".to_string(),
            BassError::Ended => "The channel or file has ended".to_string(),
            BassError::Busy => "The device is busy (eg. in \"exclusive\" use by another process)".to_string(),
            BassError::WmaLicense => "BassWma: the file is protected".to_string(),
            BassError::WmaWm9 => "BassWma: WM9 is required".to_string(),
            BassError::WmaDenied => "BassWma: access denied (user or password is invalid)".to_string(),
            BassError::WmaCodec => "BassWma: no appropriate codec is installed ".to_string(),
            BassError::WmaIndividual => "BassWma: individualization is needed".to_string(),
            BassError::AcmCancel => "BassEnc: ACM codec selection cancelled".to_string(),
            BassError::CastDenied => "BassEnc: Access denied (invalid password)".to_string(),
            BassError::Wasapi => "BASSWASAPI: no WASAPI available".to_string(),
            BassError::Mp4Nostream => "BASS_AAC: non-streamable due to MP4 atom order ('mdat' before 'moov')".to_string(),
            BassError::Unknown(err) => {
                let mut out = crate::text::chars_of("Unknown error code: ");
                push_dec_signed(&mut out, *err);
                string_from_chars(out.as_slice())
            },
        }
    }
}

/// Every code that BASS documents for an error gives that error back.
pub proof fn lemma_from_code_known(e: BassError)
    requires
        code_of(e) is Some,
    ensures
        error_for_code(code_of(e)->0) == e,
{
}

/// A code is reported as `Unknown` exactly when it is not one of the codes
/// the error table holds, and then it carries the code.
pub proof fn lemma_from_code_unknown(code: i32)
    ensures
        (error_for_code(code) is Unknown) <==> (forall|e: BassError| code_of(e) != Some(code)),
        error_for_code(code) is Unknown ==> error_for_code(code) == BassError::Unknown(code),
{
    if !(error_for_code(code) is Unknown) {
        assert(code_of(error_for_code(code)) == Some(code));
    }
}

/// The length of the message of a named error.
pub open spec fn message_len(e: BassError) -> int {
    match e {
        BassError::AllOk => 9,
        BassError::Mem => 12,
        BassError::FileOpen => 29,
        BassError::Driver => 33,
        BassError::BufLost => 26,
        BassError::Handle => 14,
        BassError::Format => 25,
        BassError::Position => 25,
        BassError::Init => 42,
        BassError::Start => 22,
        BassError::Nocd => 14,
        BassError::Cdtrack => 23,
        BassError::Already => 36,
        BassError::Nopause => 10,
        BassError::Notaudio => 18,
        BassError::Nochan => 24,
        BassError::Illtype => 29,
        BassError::Illparam => 34,
        BassError::No3d => 13,
        BassError::Noeax => 14,
        BassError::Device => 21,
        BassError::Noplay => 11,
        BassError::Freq => 19,
        BassError::Notfile => 31,
        BassError::Nohw => 28,
        BassError::Empty => 34,
        BassError::Nonet => 38,
        BassError::Create => 24,
        BassError::Nofx => 25,
        BassError::Playing => 22,
        BassError::Notavail => 31,
        BassError::Decode => 35,
        BassError::Dx => 45,
        BassError::Timeout => 19,
        BassError::Fileform => 23,
        BassError::Speaker => 19,
        BassError::Version => 20,
        BassError::Codec => 35,
        BassError::Ended => 29,
        BassError::Busy => 62,
        BassError::WmaLicense => 30,
        BassError::WmaWm9 => 24,
        BassError::WmaDenied => 52,
        BassError::WmaCodec => 43,
        BassError::WmaIndividual => 36,
        BassError::AcmCancel => 38,
        BassError::CastDenied => 41,
        BassError::Wasapi => 31,
        BassError::Mp4Nostream => 69,
        BassError::Unknown(_) => 0,
    }
}

/// The fourth character of the message of a named error.
pub open spec fn message_char(e: BassError) -> char {
    match e {
        BassError::AllOk => ' ',
        BassError::Mem => 'o',
        BassError::FileOpen => '\'',
        BassError::Driver => '\'',
        BassError::BufLost => ' ',
        BassError::Handle => 'a',
        BassError::Format => 'u',
        BassError::Position => 'a',
        BassError::Init => 'e',
        BassError::Start => 'S',
        BassError::Nocd => 'C',
        BassError::Cdtrack => 'v',
        BassError::Already => 'e',
        BassError::Nopause => ' ',
        BassError::Notaudio => ' ',
        BassError::Nochan => '\'',
        BassError::Illtype => 'i',
        BassError::Illparam => 'i',
        BassError::No3d => '3',
        BassError::Noeax => 'E',
        BassError::Device => 'e',
        BassError::Noplay => ' ',
        BassError::Freq => 'e',
        BassError::Notfile => ' ',
        BassError::Nohw => 'h',
        BassError::Empty => ' ',
        BassError::Nonet => 'i',
        BassError::Create => 'l',
        BassError::Nofx => 'e',
        BassError::Playing => ' ',
        BassError::Notavail => 'u',
        BassError::Decode => ' ',
        BassError::Dx => 'u',
        BassError::Timeout => 'n',
        BassError::Fileform => 'u',
        BassError::Speaker => 'v',
        BassError::Version => 'a',
        BassError::Codec => 'e',
        BassError::Ended => ' ',
        BassError::Busy => ' ',
        BassError::WmaLicense => 's',
        BassError::WmaWm9 => 's',
        BassError::WmaDenied => 's',
        BassError::WmaCodec => 's',
        BassError::WmaIndividual => 's',
        BassError::AcmCancel => 's',
        BassError::CastDenied => 's',
        BassError::Wasapi => 'S',
        BassError::Mp4Nostream => 'S',
        BassError::Unknown(_) => ' ',
    }
}

/// The named error whose message has length `len` and fourth character
/// `c`: no two named errors share both.
pub open spec fn named_error_of(len: int, c: char) -> Option<BassError> {
    if len == 9 && c == ' ' {
        Some(BassError::AllOk)
    } else if len == 12 && c == 'o' {
        Some(BassError::Mem)
    } else if len == 29 && c == '\'' {
        Some(BassError::FileOpen)
    } else if len == 33 && c == '\'' {
        Some(BassError::Driver)
    } else if len == 26 && c == ' ' {
        Some(BassError::BufLost)
    } else if len == 14 && c == 'a' {
        Some(BassError::Handle)
    } else if len == 25 && c == 'u' {
        Some(BassError::Format)
    } else if len == 25 && c == 'a' {
        Some(BassError::Position)
    } else if len == 42 && c == 'e' {
        Some(BassError::Init)
    } else if len == 22 && c == 'S' {
        Some(BassError::Start)
    } else if len == 14 && c == 'C' {
        Some(BassError::Nocd)
    } else if len == 23 && c == 'v' {
        Some(BassError::Cdtrack)
    } else if len == 36 && c == 'e' {
        Some(BassError::Already)
    } else if len == 10 && c == ' ' {
        Some(BassError::Nopause)
    } else if len == 18 && c == ' ' {
        Some(BassError::Notaudio)
    } else if len == 24 && c == '\'' {
        Some(BassError::Nochan)
    } else if len == 29 && c == 'i' {
        Some(BassError::Illtype)
    } else if len == 34 && c == 'i' {
        Some(BassError::Illparam)
    } else if len == 13 && c == '3' {
        Some(BassError::No3d)
    } else if len == 14 && c == 'E' {
        Some(BassError::Noeax)
    } else if len == 21 && c == 'e' {
        Some(BassError::Device)
    } else if len == 11 && c == ' ' {
        Some(BassError::Noplay)
    } else if len == 19 && c == 'e' {
        Some(BassError::Freq)
    } else if len == 31 && c == ' ' {
        Some(BassError::Notfile)
    } else if len == 28 && c == 'h' {
        Some(BassError::Nohw)
    } else if len == 34 && c == ' ' {
        Some(BassError::Empty)
    } else if len == 38 && c == 'i' {
        Some(BassError::Nonet)
    } else if len == 24 && c == 'l' {
        Some(BassError::Create)
    } else if len == 25 && c == 'e' {
        Some(BassError::Nofx)
    } else if len == 22 && c == ' ' {
        Some(BassError::Playing)
    } else if len == 31 && c == 'u' {
        Some(BassError::Notavail)
    } else if len == 35 && c == ' ' {
        Some(BassError::Decode)
    } else if len == 45 && c == 'u' {
        Some(BassError::Dx)
    } else if len == 19 && c == 'n' {
        Some(BassError::Timeout)
    } else if len == 23 && c == 'u' {
        Some(BassError::Fileform)
    } else if len == 19 && c == 'v' {
        Some(BassError::Speaker)
    } else if len == 20 && c == 'a' {
        Some(BassError::Version)
    } else if len == 35 && c == 'e' {
        Some(BassError::Codec)
    } else if len == 29 && c == ' ' {
        Some(BassError::Ended)
    } else if len == 62 && c == ' ' {
        Some(BassError::Busy)
    } else if len == 30 && c == 's' {
        Some(BassError::WmaLicense)
    } else if len == 24 && c == 's' {
        Some(BassError::WmaWm9)
    } else if len == 52 && c == 's' {
        Some(BassError::WmaDenied)
    } else if len == 43 && c == 's' {
        Some(BassError::WmaCodec)
    } else if len == 36 && c == 's' {
        Some(BassError::WmaIndividual)
    } else if len == 38 && c == 's' {
        Some(BassError::AcmCancel)
    } else if len == 41 && c == 's' {
        Some(BassError::CastDenied)
    } else if len == 31 && c == 'S' {
        Some(BassError::Wasapi)
    } else if len == 69 && c == 'S' {
        Some(BassError::Mp4Nostream)
    } else {
        None
    }
}

proof fn lemma_message_key(e: BassError)
    ensures
        !(e is Unknown) ==> {
            &&& message_of(e).len() == message_len(e)
            &&& message_of(e)[3] == message_char(e)
            &&& named_error_of(message_len(e), message_char(e)) == Some(e)
            &&& !(message_of(e)[0] == 'U' && message_of(e)[2] == 'k')
        },
{
    match e {
        BassError::AllOk => {
            reveal_strlit("All is OK");
        },
        BassError::Mem => {
            reveal_strlit("Memory error");
        },
        BassError::FileOpen => {
            reveal_strlit("Can't open the file or stream");
        },
        BassError::Driver => {
            reveal_strlit("Can't find a free or valid driver");
        },
        BassError::BufLost => {
            reveal_strlit("The sample buffer was lost");
        },
        BassError::Handle => {
            reveal_strlit("Invalid handle");
        },
        BassError::Format => {
            reveal_strlit("Unsupported sample format");
        },
        BassError::Position => {
            reveal_strlit("Invalid playback position");
        },
        BassError::Init => {
            reveal_strlit("General BASS library initialization failed");
        },
        BassError::Start => {
            reveal_strlit("BASS was fail to start");
        },
        BassError::Nocd => {
            reveal_strlit("No CD in drive");
        },
        BassError::Cdtrack => {
            reveal_strlit("Inavlid CD track number");
        },
        BassError::Already => {
            reveal_strlit("Already initialized/paused/whatever ");
        },
        BassError::Nopause => {
            reveal_strlit("Not paused");
        },
        BassError::Notaudio => {
            reveal_strlit("Not an audio track");
        },
        BassError::Nochan => {
            reveal_strlit("Can't get a free channel");
        },
        BassError::Illtype => {
            reveal_strlit("An illegal type was specified");
        },
        BassError::Illparam => {
            reveal_strlit("An illegal parameter was specified");
        },
        BassError::No3d => {
            reveal_strlit("No 3D support");
        },
        BassError::Noeax => {
            reveal_strlit("No EAX suppoer");
        },
        BassError::Device => {
            reveal_strlit("Illegal device number");
        },
        BassError::Noplay => {
            reveal_strlit("Not playing");
        },
        BassError::Freq => {
            reveal_strlit("Illegal sample rate");
        },
        BassError::Notfile => {
            reveal_strlit("The stream is not a file stream");
        },
        BassError::Nohw => {
            reveal_strlit("No hardware voices available");
        },
        BassError::Empty => {
            reveal_strlit("The MOD music has no sequence data");
        },
        BassError::Nonet => {
            reveal_strlit("No internet connection could be opened");
        },
        BassError::Create => {
            reveal_strlit("Couldn't create the file");
        },
        BassError::Nofx => {
            reveal_strlit("Effects are not available");
        },
        BassError::Playing => {
            reveal_strlit("The channel is playing");
        },
        BassError::Notavail => {
            reveal_strlit("Requested data is not available");
        },
        BassError::Decode => {
            reveal_strlit("The channel is a 'decoding channel'");
        },
        BassError::Dx => {
            reveal_strlit("A sufficient DirectX version is not installed");
        },
        BassError::Timeout => {
            reveal_strlit("Connection timedout");
        },
        BassError::Fileform => {
            reveal_strlit("Unsupported file format");
        },
        BassError::Speaker => {
            reveal_strlit("Unavailable speaker");
        },
        BassError::Version => {
            reveal_strlit("Invalid BASS version");
        },
        BassError::Codec => {
            reveal_strlit("Codec is not available or supported");
        },
        BassError::Ended => {
            reveal_strlit("The channel or file has ended");
        },
        BassError::Busy => {
            reveal_strlit("The device is busy (eg. in \"exclusive\" use by another process)");
        },
        BassError::WmaLicense => {
            reveal_strlit("BassWma: the file is protected");
        },
        BassError::WmaWm9 => {
            reveal_strlit("BassWma: WM9 is required");
        },
        BassError::WmaDenied => {
            reveal_strlit("BassWma: access denied (user or password is invalid)");
        },
        BassError::WmaCodec => {
            reveal_strlit("BassWma: no appropriate codec is installed ");
        },
        BassError::WmaIndividual => {
            reveal_strlit("BassWma: individualization is needed");
        },
        BassError::AcmCancel => {
            reveal_strlit("BassEnc: ACM codec selection cancelled");
        },
        BassError::CastDenied => {
            reveal_strlit("BassEnc: Access denied (invalid password)");
        },
        BassError::Wasapi => {
            reveal_strlit("BASSWASAPI: no WASAPI available");
        },
        BassError::Mp4Nostream => {
            reveal_strlit("BASS_AAC: non-streamable due to MP4 atom order ('mdat' before 'moov')");
        },
        BassError::Unknown(_) => {},
    }
}

/// No error has an empty message, and two different errors never have the
/// same message: each named error has its own, and an unknown code is
/// printed with its number.
pub proof fn lemma_messages_distinct(e1: BassError, e2: BassError)
    requires
        e1 != e2,
    ensures
        message_of(e1).len() > 0,
        message_of(e1) != message_of(e2),
{
    reveal_strlit("Unknown error code: ");
    lemma_message_key(e1);
    lemma_message_key(e2);
    let m1 = message_of(e1);
    let m2 = message_of(e2);
    match e1 {
        BassError::Unknown(n1) => {
            assert(m1[0] == 'U' && m1[2] == 'k');
            match e2 {
                BassError::Unknown(n2) => {
                    crate::text::lemma_dec_signed_injective(n1 as int, n2 as int);
                    if m1 == m2 {
                        assert(m1.subrange(20, m1.len() as int) =~= dec_signed(n1 as int));
                        assert(m2.subrange(20, m2.len() as int) =~= dec_signed(n2 as int));
                    }
                },
                _ => {},
            }
        },
        _ => {
            match e2 {
                BassError::Unknown(_) => {
                    assert(m2[0] == 'U' && m2[2] == 'k');
                },
                _ => {},
            }
        },
    }
}

} // verus!
