//! Typed segments of a multi-part message.

use vstd::prelude::*;
use vstd::string::*;
use crate::models::consts::content_part;

verus! {

/// A URL or base64-encoded image, with an optional detail level hint.
#[derive(Debug)]
pub struct ImageUrl {
    /// URL or base64-encoded image data (`data:<mime>;base64,<data>`).
    pub url: String,

    /// Resolution hint for vision models (`"auto"`, `"low"`, `"high"`).
    pub detail: Option<String>,
}

/// Raw audio payload for an input content part.
#[derive(Debug)]
pub struct InputAudioData {
    /// Base64-encoded audio bytes.
    pub data: String,

    /// Container format of the audio (`"wav"` or `"mp3"`).
    pub format: String,
}

/// File payload, given either inline as base64 data or as the ID of a file
/// uploaded earlier.
#[derive(Debug)]
pub struct FileData {
    /// Base64-encoded file contents.
    pub file_data: Option<String>,

    /// ID of a file that was previously uploaded via the Files API.
    pub file_id: Option<String>,

    /// Name of the file, used to hint at the MIME type.
    pub filename: Option<String>,
}

impl Default for FileData {
    fn default() -> (res: FileData)
        ensures
            res == (FileData { file_data: None, file_id: None, filename: None }),
    {
        FileData { file_data: None, file_id: None, filename: None }
    }
}

impl FileData {
    /// A file given inline as base64 content.
    pub fn from_data(data: String, filename: Option<String>) -> (res: FileData)
        ensures
            res == (FileData { file_data: Some(data), file_id: None, filename }),
    {
        FileData { file_data: Some(data), file_id: None, filename }
    }

    /// A file referenced by the ID it was uploaded under.
    pub fn from_id(id: String) -> (res: FileData)
        ensures
            res == (FileData { file_data: None, file_id: Some(id), filename: None }),
    {
        FileData { file_data: None, file_id: Some(id), filename: None }
    }
}

/// A single typed segment within a multi-part message. The constructors keep
/// `type_` consistent with the one populated field.
#[derive(Debug)]
pub struct ContentPart {
    /// Discriminator; names the populated field below.
    pub type_: String,
    pub text: Option<String>,
    pub image_url: Option<ImageUrl>,
    pub input_audio: Option<InputAudioData>,
    pub file: Option<FileData>,
}

impl Default for ContentPart {
    fn default() -> (res: ContentPart)
        ensures
            res.type_@ == Seq::<char>::empty(),
            res.text is None,
            res.image_url is None,
            res.input_audio is None,
            res.file is None,
    {
        ContentPart {
            type_: String::new(),
            text: None,
            image_url: None,
            input_audio: None,
            file: None,
        }
    }
}

impl ContentPart {
    /// `self` is a text part carrying `content`.
    pub open spec fn is_text_part(self, content: String) -> bool {
        &&& self.type_@ == content_part::TEXT@
        &&& self.text == Some(content)
        &&& self.image_url is None
        &&& self.input_audio is None
        &&& self.file is None
    }

    /// `self` is an image part for `url` with the given detail hint.
    pub open spec fn is_image_part(self, url: String, detail: Option<String>) -> bool {
        &&& self.type_@ == content_part::IMAGE_URL@
        &&& self.text is None
        &&& self.image_url == Some(ImageUrl { url, detail })
        &&& self.input_audio is None
        &&& self.file is None
    }

    /// `self` is an audio part with the given data and format.
    pub open spec fn is_audio_part(self, data: String, format: String) -> bool {
        &&& self.type_@ == content_part::AUDIO@
        &&& self.text is None
        &&& self.image_url is None
        &&& self.input_audio == Some(InputAudioData { data, format })
        &&& self.file is None
    }

    /// `self` is a file part carrying `file_data`.
    pub open spec fn is_file_part(self, file_data: FileData) -> bool {
        &&& self.type_@ == content_part::FILE@
        &&& self.text is None
        &&& self.image_url is None
        &&& self.input_audio is None
        &&& self.file == Some(file_data)
    }

    /// Plain-text content part.
    pub fn text(content: String) -> (res: ContentPart)
        ensures
            res.is_text_part(content),
    {
        ContentPart {
            type_: String::from_str(content_part::TEXT),
            text: Some(content),
            image_url: None,
            input_audio: None,
            file: None,
        }
    }

    /// Image content part from a URL or `data:` URI.
    pub fn image_url(url: String, detail: Option<String>) -> (res: ContentPart)
        ensures
            res.is_image_part(url, detail),
    {
        ContentPart {
            type_: String::from_str(content_part::IMAGE_URL),
            text: None,
            image_url: Some(ImageUrl { url, detail }),
            input_audio: None,
            file: None,
        }
    }

    /// Audio content part from base64-encoded bytes in the given format.
    pub fn input_audio(data: String, format: String) -> (res: ContentPart)
        ensures
            res.is_audio_part(data, format),
    {
        ContentPart {
            type_: String::from_str(content_part::AUDIO),
            text: None,
            image_url: None,
            input_audio: Some(InputAudioData { data, format }),
            file: None,
        }
    }

    /// File content part.
    pub fn file(file_data: FileData) -> (res: ContentPart)
        ensures
            res.is_file_part(file_data),
    {
        ContentPart {
            type_: String::from_str(content_part::FILE),
            text: None,
            image_url: None,
            input_audio: None,
            file: Some(file_data),
        }
    }
}

/// Another name for [`ContentPart`].
pub type ChatCompletionContentPart = ContentPart;

} // verus!
