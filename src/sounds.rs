//! Sound files handed to the caller as data URIs.
use vstd::prelude::*;

use crate::encoding::{base64_of, encode_base64, MAX_ENCODED_INPUT};
use crate::error::{Error, ErrorKind};
use crate::params::{check_no_parent_ref, ends_with, has_parent_ref, has_suffix, lower_of, lowercase};

verus! {

/// The sound formats that the toolset plays.
#[derive(Clone, Copy, Debug, PartialEq, Eq, Structural)]
pub enum SoundKind {
    Ogg,
    Wav,
}

/// The format of a file, from its lower-case name: `.wav` or `.ogg` at the end.
pub open spec fn sound_kind(lower_name: Seq<char>) -> Option<SoundKind> {
    if has_suffix(lower_name, ".wav"@) {
        Some(SoundKind::Wav)
    } else if has_suffix(lower_name, ".ogg"@) {
        Some(SoundKind::Ogg)
    } else {
        None
    }
}

/// The format of a file whose name is already in lower case.
pub fn sound_kind_of_lowercase(lower_name: &str) -> (r: Option<SoundKind>)
    ensures
        r == sound_kind(lower_name@),
{
    if ends_with(lower_name, ".wav") {
        Some(SoundKind::Wav)
    } else if ends_with(lower_name, ".ogg") {
        Some(SoundKind::Ogg)
    } else {
        None
    }
}

/// The format of a file, whatever the case of its name.
pub fn sound_kind_of(file: &str) -> (r: Option<SoundKind>)
    ensures
        r == sound_kind(lower_of(file@)),
{
    let lower = lowercase(file);
    sound_kind_of_lowercase(lower.as_str())
}

/// The content of a sound file with its format.
#[derive(Clone, Debug)]
pub enum Base64Sound {
    Ogg(Vec<u8>),
    Wav(Vec<u8>),
}

/// The data URI of a sound of the given MIME type.
pub open spec fn sound_data_uri(mime: Seq<char>, data: Seq<u8>) -> Seq<char> {
    "data:"@ + mime + ";base64,"@ + base64_of(data)
}

impl Base64Sound {
    pub fn new(kind: SoundKind, content: Vec<u8>) -> (r: Self)
        ensures
            r.kind() == kind,
            r.content() == content,
    {
        match kind {
            SoundKind::Ogg => Base64Sound::Ogg(content),
            SoundKind::Wav => Base64Sound::Wav(content),
        }
    }

    pub open spec fn kind(&self) -> SoundKind {
        match self {
            Base64Sound::Ogg(_) => SoundKind::Ogg,
            Base64Sound::Wav(_) => SoundKind::Wav,
        }
    }

    pub open spec fn content(&self) -> Vec<u8> {
        match self {
            Base64Sound::Ogg(v) => *v,
            Base64Sound::Wav(v) => *v,
        }
    }

    pub open spec fn spec_mime_type(&self) -> Seq<char> {
        match self {
            Base64Sound::Ogg(_) => "audio/ogg"@,
            Base64Sound::Wav(_) => "audio/wav"@,
        }
    }

    pub fn mime_type(&self) -> (r: &'static str)
        ensures
            r@ == self.spec_mime_type(),
    {
        match self {
            Base64Sound::Ogg(_) => "audio/ogg",
            Base64Sound::Wav(_) => "audio/wav",
        }
    }

    /// `data:<mime type>;base64,` followed by the content in base64.
    pub fn to_data_uri(&self) -> (r: String)
        requires
            self.content()@.len() <= MAX_ENCODED_INPUT,
        ensures
            r@ == sound_data_uri(self.spec_mime_type(), self.content()@),
    {
        let data = match self {
            Base64Sound::Ogg(v) => v,
            Base64Sound::Wav(v) => v,
        };
        let mut s = "data:".to_string();
        s.append(self.mime_type());
        s.append(";base64,");
        let encoded = encode_base64(data);
        s.append(encoded.as_str());
        s
    }
}

/// Parameters of the operation that reads a sound file.
#[derive(Clone, Debug)]
pub struct Read {
    pub file: String,
}

impl Read {
    pub fn name() -> (r: &'static str)
        ensures
            r@ == "sound/read"@,
    {
        "sound/read"
    }

    /// The file name holds no `..` and ends in `.wav` or `.ogg`, in any case.
    pub fn validate(&self) -> (r: Result<SoundKind, Error>)
        ensures
            r is Ok <==> (!has_parent_ref(self.file@) && sound_kind(lower_of(self.file@)) is Some),
            r matches Ok(k) ==> sound_kind(lower_of(self.file@)) == Some(k),
            r matches Err(e) ==> e.kind == ErrorKind::Parameter,
            r matches Err(e) ==> e.message@ == if has_parent_ref(self.file@) {
                "file path cannot contain `..`"@
            } else {
                "file does not seem to be a sound file"@
            },
    {
        check_no_parent_ref(self.file.as_str())?;
        match sound_kind_of(self.file.as_str()) {
            Some(k) => Ok(k),
            None => Err(Error::new(ErrorKind::Parameter, "file does not seem to be a sound file")),
        }
    }
}

} // verus!
