//! File types of uploaded files: a closed set of known extensions with
//! their MIME types, plus custom MIME types.
use vstd::prelude::*;
use crate::text::str_eq;

verus! {

/// The kind of an uploaded file.
#[derive(Debug, Clone)]
pub enum FileType {
    // Images
    Jpeg,
    Jpg,
    Png,
    Gif,
    Svg,
    Webp,

    // Video
    Mp4,
    Webm,
    Avi,
    Mov,

    // Audio
    Mp3,
    Wav,
    Ogg,

    // Documents
    Pdf,
    Doc,
    Docx,
    Xls,
    Xlsx,
    Txt,

    // Data
    Json,
    Csv,
    Xml,
    Yaml,

    // Models
    Onnx,
    Pkl,
    H5,
    TfLite,
    SavedModel,
    Pt,
    Ckpt,

    // Any other MIME type
    Custom(String),
}

/// The MIME type of a file type; a custom type is its own MIME type.
pub open spec fn mime_of(t: FileType) -> Seq<char> {
    match t {
        FileType::Jpeg => "image/jpeg"@,
        FileType::Jpg => "image/jpeg"@,
        FileType::Png => "image/png"@,
        FileType::Gif => "image/gif"@,
        FileType::Svg => "image/svg+xml"@,
        FileType::Webp => "image/webp"@,
        FileType::Mp4 => "video/mp4"@,
        FileType::Webm => "video/webm"@,
        FileType::Avi => "video/x-msvideo"@,
        FileType::Mov => "video/quicktime"@,
        FileType::Mp3 => "audio/mpeg"@,
        FileType::Wav => "audio/x-wav"@,
        FileType::Ogg => "audio/ogg"@,
        FileType::Pdf => "application/pdf"@,
        FileType::Doc => "application/msword"@,
        FileType::Docx => "application/vnd.openxmlformats-officedocument.wordprocessingml.document"@,
        FileType::Xls => "application/vnd.ms-excel"@,
        FileType::Xlsx => "application/vnd.openxmlformats-officedocument.spreadsheetml.sheet"@,
        FileType::Txt => "text/plain"@,
        FileType::Json => "application/json"@,
        FileType::Csv => "text/csv"@,
        FileType::Xml => "application/xml"@,
        FileType::Yaml => "application/x-yaml"@,
        FileType::Onnx => "application/octet-stream"@,
        FileType::Pkl => "application/octet-stream"@,
        FileType::H5 => "application/x-hdf5"@,
        FileType::TfLite => "application/octet-stream"@,
        FileType::SavedModel => "application/octet-stream"@,
        FileType::Pt => "application/octet-stream"@,
        FileType::Ckpt => "application/octet-stream"@,
        FileType::Custom(m) => m@,
    }
}

/// The extension of a file type; a custom type has none.
pub open spec fn extension_of(t: FileType) -> Seq<char> {
    match t {
        FileType::Jpeg => "jpeg"@,
        FileType::Jpg => "jpg"@,
        FileType::Png => "png"@,
        FileType::Gif => "gif"@,
        FileType::Svg => "svg"@,
        FileType::Webp => "webp"@,
        FileType::Mp4 => "mp4"@,
        FileType::Webm => "webm"@,
        FileType::Avi => "avi"@,
        FileType::Mov => "mov"@,
        FileType::Mp3 => "mp3"@,
        FileType::Wav => "wav"@,
        FileType::Ogg => "ogg"@,
        FileType::Pdf => "pdf"@,
        FileType::Doc => "doc"@,
        FileType::Docx => "docx"@,
        FileType::Xls => "xls"@,
        FileType::Xlsx => "xlsx"@,
        FileType::Txt => "txt"@,
        FileType::Json => "json"@,
        FileType::Csv => "csv"@,
        FileType::Xml => "xml"@,
        FileType::Yaml => "yaml"@,
        FileType::Onnx => "onnx"@,
        FileType::Pkl => "pkl"@,
        FileType::H5 => "h5"@,
        FileType::TfLite => "tflite"@,
        FileType::SavedModel => "savedmodel"@,
        FileType::Pt => "pt"@,
        FileType::Ckpt => "ckpt"@,
        FileType::Custom(_) => Seq::empty(),
    }
}

/// The known file type that a lowercase extension names, if any.
pub open spec fn known_type(l: Seq<char>) -> Option<FileType> {
    if l == "jpeg"@ {
        Some(FileType::Jpeg)
    } else if l == "jpg"@ {
        Some(FileType::Jpg)
    } else if l == "png"@ {
        Some(FileType::Png)
    } else if l == "gif"@ {
        Some(FileType::Gif)
    } else if l == "svg"@ {
        Some(FileType::Svg)
    } else if l == "webp"@ {
        Some(FileType::Webp)
    } else if l == "mp4"@ {
        Some(FileType::Mp4)
    } else if l == "webm"@ {
        Some(FileType::Webm)
    } else if l == "avi"@ {
        Some(FileType::Avi)
    } else if l == "mov"@ {
        Some(FileType::Mov)
    } else if l == "mp3"@ {
        Some(FileType::Mp3)
    } else if l == "wav"@ {
        Some(FileType::Wav)
    } else if l == "ogg"@ {
        Some(FileType::Ogg)
    } else if l == "pdf"@ {
        Some(FileType::Pdf)
    } else if l == "doc"@ {
        Some(FileType::Doc)
    } else if l == "docx"@ {
        Some(FileType::Docx)
    } else if l == "xls"@ {
        Some(FileType::Xls)
    } else if l == "xlsx"@ {
        Some(FileType::Xlsx)
    } else if l == "txt"@ {
        Some(FileType::Txt)
    } else if l == "json"@ {
        Some(FileType::Json)
    } else if l == "csv"@ {
        Some(FileType::Csv)
    } else if l == "xml"@ {
        Some(FileType::Xml)
    } else if l == "yaml"@ || l == "yml"@ {
        Some(FileType::Yaml)
    } else if l == "onnx"@ {
        Some(FileType::Onnx)
    } else if l == "pkl"@ {
        Some(FileType::Pkl)
    } else if l == "h5"@ {
        Some(FileType::H5)
    } else if l == "tflite"@ {
        Some(FileType::TfLite)
    } else if l == "savedmodel"@ {
        Some(FileType::SavedModel)
    } else if l == "pt"@ {
        Some(FileType::Pt)
    } else if l == "ckpt"@ {
        Some(FileType::Ckpt)
    } else {
        None
    }
}

/// `t` is what a string reads as, given the string and its lowercase form:
/// the known type the lowercase form names, or else the string itself as a
/// custom MIME type.
pub open spec fn parsed_type(t: FileType, lowered: Seq<char>, text: Seq<char>) -> bool {
    match known_type(lowered) {
        Some(k) => t == k,
        None => t is Custom && t->Custom_0@ == text,
    }
}

/// Lowercase ASCII letters and ASCII digits only.
pub open spec fn is_lower_ascii_alnum(s: Seq<char>) -> bool {
    forall|i: int|
        0 <= i < s.len() ==> (97 <= (#[trigger] s[i] as u32) <= 122 || 48 <= (s[i] as u32) <= 57)
}

/// The lowercase form of a text, as std's Unicode case mapping gives it.
pub uninterp spec fn lowercase_of(s: Seq<char>) -> Seq<char>;

/// Relies on str::to_lowercase: the result depends on the characters alone,
/// and lowercase ASCII letters and digits map to themselves.
#[verifier::external_body]
fn to_lowercase(s: &str) -> (r: String)
    ensures
        r@ == lowercase_of(s@),
        is_lower_ascii_alnum(s@) ==> r@ == s@,
{
    s.to_lowercase()
}

/// A file type as it stands in a request: a JSON string, or a JSON object
/// whose `custom` member holds a MIME type.
#[derive(Debug, Clone)]
pub enum FileTypeJson {
    Text(String),
    Custom(String),
}

/// Which form a JSON file type has, and the text it holds.
pub open spec fn json_view(v: FileTypeJson) -> (bool, Seq<char>) {
    match v {
        FileTypeJson::Text(s) => (true, s@),
        FileTypeJson::Custom(m) => (false, m@),
    }
}

/// What reading the JSON form `v` gives.
pub open spec fn read_from_json(t: FileType, v: FileTypeJson) -> bool {
    match v {
        FileTypeJson::Text(s) => parsed_type(t, lowercase_of(s@), s@) && (is_lower_ascii_alnum(s@)
            ==> parsed_type(t, s@, s@)),
        FileTypeJson::Custom(m) => t is Custom && t->Custom_0@ == m@,
    }
}

/// The JSON form a file type is written as: its extension, or an object
/// holding its custom MIME type.
pub open spec fn json_of(t: FileType) -> (bool, Seq<char>) {
    match t {
        FileType::Custom(m) => (false, m@),
        _ => (true, extension_of(t)),
    }
}

impl FileType {
    /// The MIME type used as the upload's content type.
    pub fn mime_type(&self) -> (r: String)
        ensures
            r@ == mime_of(*self),
    {
        match self {
            FileType::Jpeg => String::from_str("image/jpeg"),
            FileType::Jpg => String::from_str("image/jpeg"),
            FileType::Png => String::from_str("image/png"),
            FileType::Gif => String::from_str("image/gif"),
            FileType::Svg => String::from_str("image/svg+xml"),
            FileType::Webp => String::from_str("image/webp"),
            FileType::Mp4 => String::from_str("video/mp4"),
            FileType::Webm => String::from_str("video/webm"),
            FileType::Avi => String::from_str("video/x-msvideo"),
            FileType::Mov => String::from_str("video/quicktime"),
            FileType::Mp3 => String::from_str("audio/mpeg"),
            FileType::Wav => String::from_str("audio/x-wav"),
            FileType::Ogg => String::from_str("audio/ogg"),
            FileType::Pdf => String::from_str("application/pdf"),
            FileType::Doc => String::from_str("application/msword"),
            FileType::Docx => String::from_str("application/vnd.openxmlformats-officedocument.wordprocessingml.document"),
            FileType::Xls => String::from_str("application/vnd.ms-excel"),
            FileType::Xlsx => String::from_str("application/vnd.openxmlformats-officedocument.spreadsheetml.sheet"),
            FileType::Txt => String::from_str("text/plain"),
            FileType::Json => String::from_str("application/json"),
            FileType::Csv => String::from_str("text/csv"),
            FileType::Xml => String::from_str("application/xml"),
            FileType::Yaml => String::from_str("application/x-yaml"),
            FileType::Onnx => String::from_str("application/octet-stream"),
            FileType::Pkl => String::from_str("application/octet-stream"),
            FileType::H5 => String::from_str("application/x-hdf5"),
            FileType::TfLite => String::from_str("application/octet-stream"),
            FileType::SavedModel => String::from_str("application/octet-stream"),
            FileType::Pt => String::from_str("application/octet-stream"),
            FileType::Ckpt => String::from_str("application/octet-stream"),
            FileType::Custom(m) => m.clone(),
        }
    }

    /// The extension stored in a file's metadata row; empty for a custom type.
    pub fn extension(&self) -> (r: String)
        ensures
            r@ == extension_of(*self),
    {
        match self {
            FileType::Jpeg => String::from_str("jpeg"),
            FileType::Jpg => String::from_str("jpg"),
            FileType::Png => String::from_str("png"),
            FileType::Gif => String::from_str("gif"),
            FileType::Svg => String::from_str("svg"),
            FileType::Webp => String::from_str("webp"),
            FileType::Mp4 => String::from_str("mp4"),
            FileType::Webm => String::from_str("webm"),
            FileType::Avi => String::from_str("avi"),
            FileType::Mov => String::from_str("mov"),
            FileType::Mp3 => String::from_str("mp3"),
            FileType::Wav => String::from_str("wav"),
            FileType::Ogg => String::from_str("ogg"),
            FileType::Pdf => String::from_str("pdf"),
            FileType::Doc => String::from_str("doc"),
            FileType::Docx => String::from_str("docx"),
            FileType::Xls => String::from_str("xls"),
            FileType::Xlsx => String::from_str("xlsx"),
            FileType::Txt => String::from_str("txt"),
            FileType::Json => String::from_str("json"),
            FileType::Csv => String::from_str("csv"),
            FileType::Xml => String::from_str("xml"),
            FileType::Yaml => String::from_str("yaml"),
            FileType::Onnx => String::from_str("onnx"),
            FileType::Pkl => String::from_str("pkl"),
            FileType::H5 => String::from_str("h5"),
            FileType::TfLite => String::from_str("tflite"),
            FileType::SavedModel => String::from_str("savedmodel"),
            FileType::Pt => String::from_str("pt"),
            FileType::Ckpt => String::from_str("ckpt"),
            FileType::Custom(_) => String::new(),
        }
    }

    /// The file type a string names, given the string and its lowercase
    /// form: a known extension, or else the string as a custom MIME type.
    pub fn from_lowercase(lowered: &str, text: &str) -> (r: FileType)
        ensures
            parsed_type(r, lowered@, text@),
    {
        if str_eq(lowered, "jpeg") {
            FileType::Jpeg
        } else if str_eq(lowered, "jpg") {
            FileType::Jpg
        } else if str_eq(lowered, "png") {
            FileType::Png
        } else if str_eq(lowered, "gif") {
            FileType::Gif
        } else if str_eq(lowered, "svg") {
            FileType::Svg
        } else if str_eq(lowered, "webp") {
            FileType::Webp
        } else if str_eq(lowered, "mp4") {
            FileType::Mp4
        } else if str_eq(lowered, "webm") {
            FileType::Webm
        } else if str_eq(lowered, "avi") {
            FileType::Avi
        } else if str_eq(lowered, "mov") {
            FileType::Mov
        } else if str_eq(lowered, "mp3") {
            FileType::Mp3
        } else if str_eq(lowered, "wav") {
            FileType::Wav
        } else if str_eq(lowered, "ogg") {
            FileType::Ogg
        } else if str_eq(lowered, "pdf") {
            FileType::Pdf
        } else if str_eq(lowered, "doc") {
            FileType::Doc
        } else if str_eq(lowered, "docx") {
            FileType::Docx
        } else if str_eq(lowered, "xls") {
            FileType::Xls
        } else if str_eq(lowered, "xlsx") {
            FileType::Xlsx
        } else if str_eq(lowered, "txt") {
            FileType::Txt
        } else if str_eq(lowered, "json") {
            FileType::Json
        } else if str_eq(lowered, "csv") {
            FileType::Csv
        } else if str_eq(lowered, "xml") {
            FileType::Xml
        } else if str_eq(lowered, "yaml") || str_eq(lowered, "yml") {
            FileType::Yaml
        } else if str_eq(lowered, "onnx") {
            FileType::Onnx
        } else if str_eq(lowered, "pkl") {
            FileType::Pkl
        } else if str_eq(lowered, "h5") {
            FileType::H5
        } else if str_eq(lowered, "tflite") {
            FileType::TfLite
        } else if str_eq(lowered, "savedmodel") {
            FileType::SavedModel
        } else if str_eq(lowered, "pt") {
            FileType::Pt
        } else if str_eq(lowered, "ckpt") {
            FileType::Ckpt
        } else {
            FileType::Custom(String::from_str(text))
        }
    }

    /// The file type a string names, compared without regard to case; an
    /// unknown string is kept as a custom MIME type.
    pub fn from_str(s: &str) -> (r: Option<FileType>)
        ensures
            r is Some,
            parsed_type(r->Some_0, lowercase_of(s@), s@),
            is_lower_ascii_alnum(s@) ==> parsed_type(r->Some_0, s@, s@),
    {
        let lowered = to_lowercase(s);
        Some(FileType::from_lowercase(lowered.as_str(), s))
    }

    /// Reads the JSON form of a file type.
    pub fn from_json(v: FileTypeJson) -> (r: FileType)
        ensures
            read_from_json(r, v),
    {
        match v {
            FileTypeJson::Text(s) => match FileType::from_str(s.as_str()) {
                Some(t) => t,
                None => FileType::Custom(s),
            },
            FileTypeJson::Custom(m) => FileType::Custom(m),
        }
    }

    /// Writes the JSON form of a file type.
    pub fn to_json(&self) -> (r: FileTypeJson)
        ensures
            json_view(r) == json_of(*self),
    {
        match self {
            FileType::Custom(m) => FileTypeJson::Custom(m.clone()),
            _ => FileTypeJson::Text(self.extension()),
        }
    }
}

/// Reading the JSON form of a file type and writing it back gives the same
/// JSON, for the extension of every known type and for every custom object.
pub proof fn lemma_file_type_json_round_trip(v: FileTypeJson, t: FileType)
    requires
        v is Text ==> exists|k: FileType| !(k is Custom) && v->Text_0@ == extension_of(k),
        read_from_json(t, v),
    ensures
        json_of(t) == json_view(v),
{
    if v is Text {
        let k = choose|k: FileType| !(k is Custom) && v->Text_0@ == extension_of(k);
        reveal_strlit("jpeg");
        reveal_strlit("jpg");
        reveal_strlit("png");
        reveal_strlit("gif");
        reveal_strlit("svg");
        reveal_strlit("webp");
        reveal_strlit("mp4");
        reveal_strlit("webm");
        reveal_strlit("avi");
        reveal_strlit("mov");
        reveal_strlit("mp3");
        reveal_strlit("wav");
        reveal_strlit("ogg");
        reveal_strlit("pdf");
        reveal_strlit("doc");
        reveal_strlit("docx");
        reveal_strlit("xls");
        reveal_strlit("xlsx");
        reveal_strlit("txt");
        reveal_strlit("json");
        reveal_strlit("csv");
        reveal_strlit("xml");
        reveal_strlit("yaml");
        reveal_strlit("onnx");
        reveal_strlit("pkl");
        reveal_strlit("h5");
        reveal_strlit("tflite");
        reveal_strlit("savedmodel");
        reveal_strlit("pt");
        reveal_strlit("ckpt");
        reveal_strlit("yml");
        assert(is_lower_ascii_alnum(extension_of(k)));
        match k {
            FileType::Jpeg => {
                assert(known_type(extension_of(k)) == Some(k));
            },
            FileType::Jpg => {
                assert(known_type(extension_of(k)) == Some(k));
            },
            FileType::Png => {
                assert("png"@[0] != "jpg"@[0]);
                assert(known_type(extension_of(k)) == Some(k));
            },
            FileType::Gif => {
                assert("gif"@[0] != "jpg"@[0]);
                assert("gif"@[0] != "png"@[0]);
                assert(known_type(extension_of(k)) == Some(k));
            },
            FileType::Svg => {
                assert("svg"@[0] != "jpg"@[0]);
                assert("svg"@[0] != "png"@[0]);
                assert("svg"@[0] != "gif"@[0]);
                assert(known_type(extension_of(k)) == Some(k));
            },
            FileType::Webp => {
                assert("webp"@[0] != "jpeg"@[0]);
                assert(known_type(extension_of(k)) == Some(k));
            },
            FileType::Mp4 => {
                assert("mp4"@[0] != "jpg"@[0]);
                assert("mp4"@[0] != "png"@[0]);
                assert("mp4"@[0] != "gif"@[0]);
                assert("mp4"@[0] != "svg"@[0]);
                assert(known_type(extension_of(k)) == Some(k));
            },
            FileType::Webm => {
                assert("webm"@[0] != "jpeg"@[0]);
                assert("webm"@[3] != "webp"@[3]);
                assert(known_type(extension_of(k)) == Some(k));
            },
            FileType::Avi => {
                assert("avi"@[0] != "jpg"@[0]);
                assert("avi"@[0] != "png"@[0]);
                assert("avi"@[0] != "gif"@[0]);
                assert("avi"@[0] != "svg"@[0]);
                assert("avi"@[0] != "mp4"@[0]);
                assert(known_type(extension_of(k)) == Some(k));
            },
            FileType::Mov => {
                assert("mov"@[0] != "jpg"@[0]);
                assert("mov"@[0] != "png"@[0]);
                assert("mov"@[0] != "gif"@[0]);
                assert("mov"@[0] != "svg"@[0]);
                assert("mov"@[1] != "mp4"@[1]);
                assert("mov"@[0] != "avi"@[0]);
                assert(known_type(extension_of(k)) == Some(k));
            },
            FileType::Mp3 => {
                assert("mp3"@[0] != "jpg"@[0]);
                assert("mp3"@[0] != "png"@[0]);
                assert("mp3"@[0] != "gif"@[0]);
                assert("mp3"@[0] != "svg"@[0]);
                assert("mp3"@[2] != "mp4"@[2]);
                assert("mp3"@[0] != "avi"@[0]);
                assert("mp3"@[1] != "mov"@[1]);
                assert(known_type(extension_of(k)) == Some(k));
            },
            FileType::Wav => {
                assert("wav"@[0] != "jpg"@[0]);
                assert("wav"@[0] != "png"@[0]);
                assert("wav"@[0] != "gif"@[0]);
                assert("wav"@[0] != "svg"@[0]);
                assert("wav"@[0] != "mp4"@[0]);
                assert("wav"@[0] != "avi"@[0]);
                assert("wav"@[0] != "mov"@[0]);
                assert("wav"@[0] != "mp3"@[0]);
                assert(known_type(extension_of(k)) == Some(k));
            },
            FileType::Ogg => {
                assert("ogg"@[0] != "jpg"@[0]);
                assert("ogg"@[0] != "png"@[0]);
                assert("ogg"@[0] != "gif"@[0]);
                assert("ogg"@[0] != "svg"@[0]);
                assert("ogg"@[0] != "mp4"@[0]);
                assert("ogg"@[0] != "avi"@[0]);
                assert("ogg"@[0] != "mov"@[0]);
                assert("ogg"@[0] != "mp3"@[0]);
                assert("ogg"@[0] != "wav"@[0]);
                assert(known_type(extension_of(k)) == Some(k));
            },
            FileType::Pdf => {
                assert("pdf"@[0] != "jpg"@[0]);
                assert("pdf"@[1] != "png"@[1]);
                assert("pdf"@[0] != "gif"@[0]);
                assert("pdf"@[0] != "svg"@[0]);
                assert("pdf"@[0] != "mp4"@[0]);
                assert("pdf"@[0] != "avi"@[0]);
                assert("pdf"@[0] != "mov"@[0]);
                assert("pdf"@[0] != "mp3"@[0]);
                assert("pdf"@[0] != "wav"@[0]);
                assert("pdf"@[0] != "ogg"@[0]);
                assert(known_type(extension_of(k)) == Some(k));
            },
            FileType::Doc => {
                assert("doc"@[0] != "jpg"@[0]);
                assert("doc"@[0] != "png"@[0]);
                assert("doc"@[0] != "gif"@[0]);
                assert("doc"@[0] != "svg"@[0]);
                assert("doc"@[0] != "mp4"@[0]);
                assert("doc"@[0] != "avi"@[0]);
                assert("doc"@[0] != "mov"@[0]);
                assert("doc"@[0] != "mp3"@[0]);
                assert("doc"@[0] != "wav"@[0]);
                assert("doc"@[0] != "ogg"@[0]);
                assert("doc"@[0] != "pdf"@[0]);
                assert(known_type(extension_of(k)) == Some(k));
            },
            FileType::Docx => {
                assert("docx"@[0] != "jpeg"@[0]);
                assert("docx"@[0] != "webp"@[0]);
                assert("docx"@[0] != "webm"@[0]);
                assert(known_type(extension_of(k)) == Some(k));
            },
            FileType::Xls => {
                assert("xls"@[0] != "jpg"@[0]);
                assert("xls"@[0] != "png"@[0]);
                assert("xls"@[0] != "gif"@[0]);
                assert("xls"@[0] != "svg"@[0]);
                assert("xls"@[0] != "mp4"@[0]);
                assert("xls"@[0] != "avi"@[0]);
                assert("xls"@[0] != "mov"@[0]);
                assert("xls"@[0] != "mp3"@[0]);
                assert("xls"@[0] != "wav"@[0]);
                assert("xls"@[0] != "ogg"@[0]);
                assert("xls"@[0] != "pdf"@[0]);
                assert("xls"@[0] != "doc"@[0]);
                assert(known_type(extension_of(k)) == Some(k));
            },
            FileType::Xlsx => {
                assert("xlsx"@[0] != "jpeg"@[0]);
                assert("xlsx"@[0] != "webp"@[0]);
                assert("xlsx"@[0] != "webm"@[0]);
                assert("xlsx"@[0] != "docx"@[0]);
                assert(known_type(extension_of(k)) == Some(k));
            },
            FileType::Txt => {
                assert("txt"@[0] != "jpg"@[0]);
                assert("txt"@[0] != "png"@[0]);
                assert("txt"@[0] != "gif"@[0]);
                assert("txt"@[0] != "svg"@[0]);
                assert("txt"@[0] != "mp4"@[0]);
                assert("txt"@[0] != "avi"@[0]);
                assert("txt"@[0] != "mov"@[0]);
                assert("txt"@[0] != "mp3"@[0]);
                assert("txt"@[0] != "wav"@[0]);
                assert("txt"@[0] != "ogg"@[0]);
                assert("txt"@[0] != "pdf"@[0]);
                assert("txt"@[0] != "doc"@[0]);
                assert("txt"@[0] != "xls"@[0]);
                assert(known_type(extension_of(k)) == Some(k));
            },
            FileType::Json => {
                assert("json"@[1] != "jpeg"@[1]);
                assert("json"@[0] != "webp"@[0]);
                assert("json"@[0] != "webm"@[0]);
                assert("json"@[0] != "docx"@[0]);
                assert("json"@[0] != "xlsx"@[0]);
                assert(known_type(extension_of(k)) == Some(k));
            },
            FileType::Csv => {
                assert("csv"@[0] != "jpg"@[0]);
                assert("csv"@[0] != "png"@[0]);
                assert("csv"@[0] != "gif"@[0]);
                assert("csv"@[0] != "svg"@[0]);
                assert("csv"@[0] != "mp4"@[0]);
                assert("csv"@[0] != "avi"@[0]);
                assert("csv"@[0] != "mov"@[0]);
                assert("csv"@[0] != "mp3"@[0]);
                assert("csv"@[0] != "wav"@[0]);
                assert("csv"@[0] != "ogg"@[0]);
                assert("csv"@[0] != "pdf"@[0]);
                assert("csv"@[0] != "doc"@[0]);
                assert("csv"@[0] != "xls"@[0]);
                assert("csv"@[0] != "txt"@[0]);
                assert(known_type(extension_of(k)) == Some(k));
            },
            FileType::Xml => {
                assert("xml"@[0] != "jpg"@[0]);
                assert("xml"@[0] != "png"@[0]);
                assert("xml"@[0] != "gif"@[0]);
                assert("xml"@[0] != "svg"@[0]);
                assert("xml"@[0] != "mp4"@[0]);
                assert("xml"@[0] != "avi"@[0]);
                assert("xml"@[0] != "mov"@[0]);
                assert("xml"@[0] != "mp3"@[0]);
                assert("xml"@[0] != "wav"@[0]);
                assert("xml"@[0] != "ogg"@[0]);
                assert("xml"@[0] != "pdf"@[0]);
                assert("xml"@[0] != "doc"@[0]);
                assert("xml"@[1] != "xls"@[1]);
                assert("xml"@[0] != "txt"@[0]);
                assert("xml"@[0] != "csv"@[0]);
                assert(known_type(extension_of(k)) == Some(k));
            },
            FileType::Yaml => {
                assert("yaml"@[0] != "jpeg"@[0]);
                assert("yaml"@[0] != "webp"@[0]);
                assert("yaml"@[0] != "webm"@[0]);
                assert("yaml"@[0] != "docx"@[0]);
                assert("yaml"@[0] != "xlsx"@[0]);
                assert("yaml"@[0] != "json"@[0]);
                assert(known_type(extension_of(k)) == Some(k));
            },
            FileType::Onnx => {
                assert("onnx"@[0] != "jpeg"@[0]);
                assert("onnx"@[0] != "webp"@[0]);
                assert("onnx"@[0] != "webm"@[0]);
                assert("onnx"@[0] != "docx"@[0]);
                assert("onnx"@[0] != "xlsx"@[0]);
                assert("onnx"@[0] != "json"@[0]);
                assert("onnx"@[0] != "yaml"@[0]);
                assert(known_type(extension_of(k)) == Some(k));
            },
            FileType::Pkl => {
                assert("pkl"@[0] != "jpg"@[0]);
                assert("pkl"@[1] != "png"@[1]);
                assert("pkl"@[0] != "gif"@[0]);
                assert("pkl"@[0] != "svg"@[0]);
                assert("pkl"@[0] != "mp4"@[0]);
                assert("pkl"@[0] != "avi"@[0]);
                assert("pkl"@[0] != "mov"@[0]);
                assert("pkl"@[0] != "mp3"@[0]);
                assert("pkl"@[0] != "wav"@[0]);
                assert("pkl"@[0] != "ogg"@[0]);
                assert("pkl"@[1] != "pdf"@[1]);
                assert("pkl"@[0] != "doc"@[0]);
                assert("pkl"@[0] != "xls"@[0]);
                assert("pkl"@[0] != "txt"@[0]);
                assert("pkl"@[0] != "csv"@[0]);
                assert("pkl"@[0] != "xml"@[0]);
                assert("pkl"@[0] != "yml"@[0]);
                assert(known_type(extension_of(k)) == Some(k));
            },
            FileType::H5 => {
                assert(known_type(extension_of(k)) == Some(k));
            },
            FileType::TfLite => {
                assert(known_type(extension_of(k)) == Some(k));
            },
            FileType::SavedModel => {
                assert(known_type(extension_of(k)) == Some(k));
            },
            FileType::Pt => {
                assert("pt"@[0] != "h5"@[0]);
                assert(known_type(extension_of(k)) == Some(k));
            },
            FileType::Ckpt => {
                assert("ckpt"@[0] != "jpeg"@[0]);
                assert("ckpt"@[0] != "webp"@[0]);
                assert("ckpt"@[0] != "webm"@[0]);
                assert("ckpt"@[0] != "docx"@[0]);
                assert("ckpt"@[0] != "xlsx"@[0]);
                assert("ckpt"@[0] != "json"@[0]);
                assert("ckpt"@[0] != "yaml"@[0]);
                assert("ckpt"@[0] != "onnx"@[0]);
                assert(known_type(extension_of(k)) == Some(k));
            },
            FileType::Custom(_) => {},
        }
    }
}

} // verus!
