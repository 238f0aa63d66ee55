use vstd::prelude::*;

verus! {

#[verifier::external_type_specification]
#[verifier::external_body]
pub struct ExJsonValue(serde_json::Value);

#[verifier::external_type_specification]
#[verifier::external_body]
pub struct ExYamlValue(serde_yaml::Value);

#[verifier::external_type_specification]
#[verifier::external_body]
pub struct ExJsonError(serde_json::Error);

#[verifier::external_type_specification]
#[verifier::external_body]
pub struct ExYamlError(serde_yaml::Error);

/// Whether the JSON decoder accepts the text as one well-formed document.
pub uninterp spec fn json_accepts(s: Seq<char>) -> bool;

/// Whether the YAML decoder accepts the text as one well-formed document.
pub uninterp spec fn yaml_accepts(s: Seq<char>) -> bool;

/// Relies on `serde_json::from_str` into `serde_json::Value`: whether it
/// succeeds depends on the text alone.
#[verifier::external_body]
fn json_from_str(s: &str) -> (r: Result<serde_json::Value, serde_json::Error>)
    ensures
        r is Ok <==> json_accepts(s@),
{
    serde_json::from_str::<serde_json::Value>(s)
}

/// Relies on `serde_yaml::from_str` into `serde_yaml::Value`: whether it
/// succeeds depends on the text alone.
#[verifier::external_body]
fn yaml_from_str(s: &str) -> (r: Result<serde_yaml::Value, serde_yaml::Error>)
    ensures
        r is Ok <==> yaml_accepts(s@),
{
    serde_yaml::from_str::<serde_yaml::Value>(s)
}

/// The syntax that a text is written in.
#[derive(Debug, Clone, Copy, PartialEq, Eq, Structural)]
pub enum ContentType {
    Json,
    Yaml,
}

/// Whether the decoder for `content_type` accepts the text.
pub open spec fn accepts(content_type: ContentType, s: Seq<char>) -> bool {
    match content_type {
        ContentType::Json => json_accepts(s),
        ContentType::Yaml => yaml_accepts(s),
    }
}

/// A decoded document, tagged with the decoder that produced it.
#[derive(Debug)]
pub enum ExtractOutput {
    Json(serde_json::Value),
    Yaml(serde_yaml::Value),
}

impl ExtractOutput {
    /// The syntax whose decoder produced this value.
    pub open spec fn content_type(self) -> ContentType {
        match self {
            ExtractOutput::Json(_) => ContentType::Json,
            ExtractOutput::Yaml(_) => ContentType::Yaml,
        }
    }
}

impl From<serde_json::Value> for ExtractOutput {
    fn from(value: serde_json::Value) -> (r: ExtractOutput) {
        ExtractOutput::Json(value)
    }
}

impl vstd::std_specs::convert::FromSpecImpl<serde_json::Value> for ExtractOutput {
    open spec fn obeys_from_spec() -> bool {
        true
    }

    open spec fn from_spec(value: serde_json::Value) -> ExtractOutput {
        ExtractOutput::Json(value)
    }
}

impl From<serde_yaml::Value> for ExtractOutput {
    fn from(value: serde_yaml::Value) -> (r: ExtractOutput) {
        ExtractOutput::Yaml(value)
    }
}

impl vstd::std_specs::convert::FromSpecImpl<serde_yaml::Value> for ExtractOutput {
    open spec fn obeys_from_spec() -> bool {
        true
    }

    open spec fn from_spec(value: serde_yaml::Value) -> ExtractOutput {
        ExtractOutput::Yaml(value)
    }
}

/// The decoder's own account of why a text or a value was refused.
#[derive(Debug)]
pub enum DecodeCause {
    Json(serde_json::Error),
    Yaml(serde_yaml::Error),
}

impl DecodeCause {
    /// The syntax whose decoder reported this failure.
    pub open spec fn content_type(self) -> ContentType {
        match self {
            DecodeCause::Json(_) => ContentType::Json,
            DecodeCause::Yaml(_) => ContentType::Yaml,
        }
    }
}

/// What went wrong while extracting a file.
#[derive(Debug)]
pub enum FileCause {
    /// The file could not be read as text; holds the reader's message.
    Read(String),
    /// The text was read but did not decode; holds that failure.
    Decode(Box<ExtractError>),
}

/// The step of a file extraction that failed.
#[derive(Debug, Clone, Copy, PartialEq, Eq, Structural)]
pub enum FileStep {
    ReadToString,
    ExtractFromString,
}

/// A failed extraction.
#[derive(Debug)]
pub enum ExtractError {
    /// Extracting the file at `path` failed.
    FromFile { path: String, cause: FileCause },
    /// The text did not decode; holds the whole text and the decoder's report.
    FromString(String, DecodeCause),
}

impl ExtractError {
    /// The failing step of a file extraction.
    pub fn func(&self) -> (r: Option<FileStep>)
        ensures
            r == match self {
                ExtractError::FromFile { cause: FileCause::Read(_), .. } => Some(FileStep::ReadToString),
                ExtractError::FromFile { cause: FileCause::Decode(_), .. } => Some(FileStep::ExtractFromString),
                ExtractError::FromString(..) => None::<FileStep>,
            },
    {
        match self {
            ExtractError::FromFile { cause: FileCause::Read(_), .. } => Some(FileStep::ReadToString),
            ExtractError::FromFile { cause: FileCause::Decode(_), .. } => Some(FileStep::ExtractFromString),
            ExtractError::FromString(..) => None,
        }
    }
}

/// Whether `e` reports that `text` did not decode in syntax `content_type`.
pub open spec fn is_decode_failure(e: ExtractError, text: Seq<char>, content_type: ContentType) -> bool {
    e matches ExtractError::FromString(s, c) && s@ == text && c.content_type() == content_type
}

/// Decodes text into a generic value with the decoder that the caller picks.
#[derive(Debug, Default)]
pub struct Extractor;

impl Extractor {
    fn extract_from_json(&self, content: &str) -> (r: Result<serde_json::Value, ExtractError>)
        ensures
            r is Ok <==> json_accepts(content@),
            r matches Err(e) ==> e matches ExtractError::FromString(s, c) && s@ == content@
                && c is Json,
    {
        match json_from_str(content) {
            Ok(v) => Ok(v),
            Err(e) => Err(ExtractError::FromString(content.to_string(), DecodeCause::Json(e))),
        }
    }

    fn extract_from_yaml(&self, content: &str) -> (r: Result<serde_yaml::Value, ExtractError>)
        ensures
            r is Ok <==> yaml_accepts(content@),
            r matches Err(e) ==> e matches ExtractError::FromString(s, c) && s@ == content@
                && c is Yaml,
    {
        match yaml_from_str(content) {
            Ok(v) => Ok(v),
            Err(e) => Err(ExtractError::FromString(content.to_string(), DecodeCause::Yaml(e))),
        }
    }

    /// Decodes `content` with the decoder for `content_type`. It succeeds
    /// exactly when that decoder accepts the text; the value is tagged with
    /// that syntax, and a failure holds the whole text.
    pub fn extract_from_string(&self, content: &str, content_type: ContentType) -> (r: Result<
        ExtractOutput,
        ExtractError,
    >)
        ensures
            r is Ok <==> accepts(content_type, content@),
            r matches Ok(v) ==> v.content_type() == content_type,
            r matches Err(e) ==> is_decode_failure(e, content@, content_type),
    {
        match content_type {
            ContentType::Json => match self.extract_from_json(content) {
                Ok(v) => Ok(ExtractOutput::from(v)),
                Err(e) => Err(e),
            },
            ContentType::Yaml => match self.extract_from_yaml(content) {
                Ok(v) => Ok(ExtractOutput::from(v)),
                Err(e) => Err(e),
            },
        }
    }

    /// Extracts a file from the outcome of reading it whole as text. A failed
    /// read is reported with the reader's message; text that does not decode
    /// is reported with the decoding failure as cause. Both name the path.
    pub fn extract_from_file_text(
        &self,
        path: &str,
        read: Result<String, String>,
        content_type: ContentType,
    ) -> (r: Result<ExtractOutput, ExtractError>)
        ensures
            match read {
                Err(m) => r matches Err(ExtractError::FromFile { path: p, cause: FileCause::Read(m2) })
                    && p@ == path@ && m2 == m,
                Ok(text) => {
                    &&& r is Ok <==> accepts(content_type, text@)
                    &&& r matches Ok(v) ==> v.content_type() == content_type
                    &&& r matches Err(e) ==> e matches ExtractError::FromFile {
                        path: p,
                        cause: FileCause::Decode(d),
                    } && p@ == path@ && is_decode_failure(*d, text@, content_type)
                },
            },
    {
        match read {
            Err(m) => Err(ExtractError::FromFile { path: path.to_string(), cause: FileCause::Read(m) }),
            Ok(text) => match self.extract_from_string(text.as_str(), content_type) {
                Ok(v) => Ok(v),
                Err(e) => Err(
                    ExtractError::FromFile {
                        path: path.to_string(),
                        cause: FileCause::Decode(Box::new(e)),
                    },
                ),
            },
        }
    }
}

} // verus!
