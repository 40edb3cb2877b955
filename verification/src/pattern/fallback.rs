use vstd::prelude::*;
use crate::media::ImgInfo;
use crate::paths::{extension_of, file_name_of};
use crate::pattern::PatternElement;
use crate::text::{lower_ascii, str_eq, to_lower_ascii};

verus! {

/// A coarse classification of files by extension, used for fallback routing.
#[derive(Debug, Clone, Copy, PartialEq, Eq, Structural)]
pub enum GeneralFileType {
    Video,
    Picture,
    Audio,
    Text,
    Document,
    Other,
}

/// The coarse file type denoted by an extension, ignoring its case.
pub open spec fn general_type_of(ext: Seq<char>) -> GeneralFileType {
    let l = lower_ascii(ext);
    if l == "mov"@ || l == "mp4"@ || l == "mpeg"@ || l == "mpg"@ || l == "ts"@ || l == "mkv"@ || l
        == "avi"@ {
        GeneralFileType::Video
    } else if l == "mp3"@ || l == "wav"@ || l == "flac"@ || l == "ogg"@ || l == "wma"@ {
        GeneralFileType::Audio
    } else if l == "pdf"@ || l == "doc"@ || l == "docx"@ || l == "rtf"@ || l == "odt"@ {
        GeneralFileType::Document
    } else if l == "txt"@ || l == "ini"@ || l == "json"@ {
        GeneralFileType::Text
    } else {
        GeneralFileType::Other
    }
}

impl GeneralFileType {
    /// Classifies an extension, ignoring its case.
    pub fn from(extension: &str) -> (r: GeneralFileType)
        ensures
            r == general_type_of(extension@),
    {
        let l = to_lower_ascii(extension);
        let s = l.as_str();
        if str_eq(s, "mov") || str_eq(s, "mp4") || str_eq(s, "mpeg") || str_eq(s, "mpg") || str_eq(
            s,
            "ts",
        ) || str_eq(s, "mkv") || str_eq(s, "avi") {
            GeneralFileType::Video
        } else if str_eq(s, "mp3") || str_eq(s, "wav") || str_eq(s, "flac") || str_eq(s, "ogg")
            || str_eq(s, "wma") {
            GeneralFileType::Audio
        } else if str_eq(s, "pdf") || str_eq(s, "doc") || str_eq(s, "docx") || str_eq(s, "rtf")
            || str_eq(s, "odt") {
            GeneralFileType::Document
        } else if str_eq(s, "txt") || str_eq(s, "ini") || str_eq(s, "json") {
            GeneralFileType::Text
        } else {
            GeneralFileType::Other
        }
    }
}

/// A fallback segment drawn from the coarse file type alone.
#[derive(Debug, Clone)]
pub struct SimpleFileTypePattern {
    pub video: String,
    pub picture: String,
    pub audio: String,
    pub text: String,
    pub document: String,
    pub other: String,
}

impl SimpleFileTypePattern {
    /// The segment this pattern produces for a path.
    pub open spec fn translated(self, path: Seq<char>) -> Seq<char> {
        match extension_of(file_name_of(path)) {
            Option::None => self.other@,
            Option::Some(ext) => match general_type_of(ext) {
                GeneralFileType::Video => self.video@,
                GeneralFileType::Picture => self.picture@,
                GeneralFileType::Audio => self.audio@,
                GeneralFileType::Text => self.text@,
                GeneralFileType::Document => self.document@,
                GeneralFileType::Other => self.other@,
            },
        }
    }

    pub fn def_video() -> (r: String)
        ensures
            r@ == "videos"@,
    {
        "videos".to_owned()
    }

    pub fn def_picture() -> (r: String)
        ensures
            r@ == "pictures"@,
    {
        "pictures".to_owned()
    }

    pub fn def_audio() -> (r: String)
        ensures
            r@ == "audio_files"@,
    {
        "audio_files".to_owned()
    }

    pub fn def_text() -> (r: String)
        ensures
            r@ == "text_files"@,
    {
        "text_files".to_owned()
    }

    pub fn def_document() -> (r: String)
        ensures
            r@ == "documents"@,
    {
        "documents".to_owned()
    }

    pub fn def_other() -> (r: String)
        ensures
            r@ == "other"@,
    {
        "other".to_owned()
    }

    /// A builder primed with the default segment names.
    pub fn new() -> (r: SimpleFileTypePatternBuilder)
        ensures
            r.video@ == "videos"@,
            r.picture@ == "pictures"@,
            r.audio@ == "audio_files"@,
            r.text@ == "text_files"@,
            r.document@ == "documents"@,
            r.other@ == "other"@,
    {
        SimpleFileTypePatternBuilder {
            video: Self::def_video(),
            picture: Self::def_picture(),
            audio: Self::def_audio(),
            text: Self::def_text(),
            document: Self::def_document(),
            other: Self::def_other(),
        }
    }

    pub fn video(&self) -> (r: &str)
        ensures
            r@ == self.video@,
    {
        self.video.as_str()
    }

    pub fn picture(&self) -> (r: &str)
        ensures
            r@ == self.picture@,
    {
        self.picture.as_str()
    }

    pub fn audio(&self) -> (r: &str)
        ensures
            r@ == self.audio@,
    {
        self.audio.as_str()
    }

    pub fn text(&self) -> (r: &str)
        ensures
            r@ == self.text@,
    {
        self.text.as_str()
    }

    pub fn document(&self) -> (r: &str)
        ensures
            r@ == self.document@,
    {
        self.document.as_str()
    }

    pub fn other(&self) -> (r: &str)
        ensures
            r@ == self.other@,
    {
        self.other.as_str()
    }

    pub fn is_optional(&self) -> (r: bool)
        ensures
            r == true,
    {
        true
    }

    /// Produces the fallback segment for a file; a segment is always produced.
    pub fn translate(&self, info: &ImgInfo) -> (r: Option<String>)
        ensures
            r matches Some(s) && s@ == self.translated(info.fp@),
    {
        let name = crate::paths::file_name(info.path());
        let result = match crate::paths::extension(name.as_str()) {
            Option::None => self.other.clone(),
            Option::Some(ext) => match GeneralFileType::from(ext.as_str()) {
                GeneralFileType::Video => self.video.clone(),
                GeneralFileType::Picture => self.picture.clone(),
                GeneralFileType::Audio => self.audio.clone(),
                GeneralFileType::Text => self.text.clone(),
                GeneralFileType::Document => self.document.clone(),
                GeneralFileType::Other => self.other.clone(),
            },
        };
        Option::Some(result)
    }

    /// A description of the configuration, for diagnostics.
    pub fn display(&self) -> String {
        let mut out = String::new();
        out.append("video=\"");
        out.append(self.video.as_str());
        out.append("\" pic=\"");
        out.append(self.picture.as_str());
        out.append("\" audio=\"");
        out.append(self.audio.as_str());
        out.append("\" txt=\"");
        out.append(self.text.as_str());
        out.append("\" doc=\"");
        out.append(self.document.as_str());
        out.append("\" other=\"");
        out.append(self.other.as_str());
        out.append("\"");
        out
    }

    pub fn name(&self) -> (r: &str)
        ensures
            r@ == "SimpleFileTypePattern"@,
    {
        "SimpleFileTypePattern"
    }

    /// A copy of this pattern with the same configuration.
    pub fn clone_config(&self) -> (r: SimpleFileTypePattern)
        ensures
            r.video@ == self.video@,
            r.picture@ == self.picture@,
            r.audio@ == self.audio@,
            r.text@ == self.text@,
            r.document@ == self.document@,
            r.other@ == self.other@,
    {
        SimpleFileTypePattern {
            video: self.video.clone(),
            picture: self.picture.clone(),
            audio: self.audio.clone(),
            text: self.text.clone(),
            document: self.document.clone(),
            other: self.other.clone(),
        }
    }
}

/// Builder for `SimpleFileTypePattern`.
pub struct SimpleFileTypePatternBuilder {
    pub video: String,
    pub picture: String,
    pub audio: String,
    pub text: String,
    pub document: String,
    pub other: String,
}

impl SimpleFileTypePatternBuilder {
    pub fn video(self, s: String) -> (r: SimpleFileTypePatternBuilder)
        ensures
            r.video@ == s@,
            r.picture@ == self.picture@,
            r.audio@ == self.audio@,
            r.text@ == self.text@,
            r.document@ == self.document@,
            r.other@ == self.other@,
    {
        let mut b = self;
        b.video = s;
        b
    }

    pub fn picture(self, s: String) -> (r: SimpleFileTypePatternBuilder)
        ensures
            r.video@ == self.video@,
            r.picture@ == s@,
            r.audio@ == self.audio@,
            r.text@ == self.text@,
            r.document@ == self.document@,
            r.other@ == self.other@,
    {
        let mut b = self;
        b.picture = s;
        b
    }

    pub fn text(self, s: String) -> (r: SimpleFileTypePatternBuilder)
        ensures
            r.video@ == self.video@,
            r.picture@ == self.picture@,
            r.audio@ == self.audio@,
            r.text@ == s@,
            r.document@ == self.document@,
            r.other@ == self.other@,
    {
        let mut b = self;
        b.text = s;
        b
    }

    pub fn audio(self, s: String) -> (r: SimpleFileTypePatternBuilder)
        ensures
            r.video@ == self.video@,
            r.picture@ == self.picture@,
            r.audio@ == s@,
            r.text@ == self.text@,
            r.document@ == self.document@,
            r.other@ == self.other@,
    {
        let mut b = self;
        b.audio = s;
        b
    }

    pub fn document(self, s: String) -> (r: SimpleFileTypePatternBuilder)
        ensures
            r.video@ == self.video@,
            r.picture@ == self.picture@,
            r.audio@ == self.audio@,
            r.text@ == self.text@,
            r.document@ == s@,
            r.other@ == self.other@,
    {
        let mut b = self;
        b.document = s;
        b
    }

    pub fn other(self, s: String) -> (r: SimpleFileTypePatternBuilder)
        ensures
            r.video@ == self.video@,
            r.picture@ == self.picture@,
            r.audio@ == self.audio@,
            r.text@ == self.text@,
            r.document@ == self.document@,
            r.other@ == s@,
    {
        let mut b = self;
        b.other = s;
        b
    }

    /// Finishes the pattern as a segment provider.
    pub fn build(self) -> (r: PatternElement)
        ensures
            r matches PatternElement::SimpleFileType(p) && p.video@ == self.video@ && p.picture@
                == self.picture@ && p.audio@ == self.audio@ && p.text@ == self.text@ && p.document@
                == self.document@ && p.other@ == self.other@,
    {
        PatternElement::SimpleFileType(
            SimpleFileTypePattern {
                video: self.video,
                picture: self.picture,
                audio: self.audio,
                text: self.text,
                document: self.document,
                other: self.other,
            },
        )
    }
}

/// A segment that always translates to one fixed string.
#[derive(Debug, Clone)]
pub struct DummyPattern {
    pub name: String,
}

impl DummyPattern {
    /// A fixed segment provider.
    pub fn new(name: &str) -> (r: PatternElement)
        ensures
            r matches PatternElement::Dummy(p) && p.name@ == name@,
    {
        PatternElement::Dummy(DummyPattern { name: name.to_owned() })
    }

    pub fn name(&self) -> (r: &str)
        ensures
            r@ == self.name@,
    {
        self.name.as_str()
    }

    pub fn is_optional(&self) -> (r: bool)
        ensures
            r == false,
    {
        false
    }

    /// Produces the fixed segment, whatever the file.
    pub fn translate(&self, _info: &ImgInfo) -> (r: Option<String>)
        ensures
            r matches Some(s) && s@ == self.name@,
    {
        Option::Some(self.name.clone())
    }

    /// A description of the configuration, for diagnostics.
    pub fn display(&self) -> String {
        let mut out = String::new();
        out.append("name=\"");
        out.append(self.name.as_str());
        out.append("\"");
        out
    }

    /// A copy of this pattern with the same configuration.
    pub fn clone_config(&self) -> (r: DummyPattern)
        ensures
            r.name@ == self.name@,
    {
        DummyPattern { name: self.name.clone() }
    }
}

} // verus!
