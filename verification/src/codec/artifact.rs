//! The stored form of artifact records.

use vstd::prelude::*;

use crate::codec::gallery::{visual_asset_role_as_str, visual_asset_role_from_str, visual_asset_role_parse, visual_asset_role_text};
use crate::codec::json::JsonCodec;
use crate::codec::resource::{clone_opt_string, ResourceRefDto};
use crate::codec::scalars::{
    artifact_kind_as_str, artifact_kind_from_str, artifact_kind_parse, artifact_kind_text, variant_kind_as_str,
    variant_kind_from_str, variant_kind_parse, variant_kind_text,
};
use crate::decode::{first_failure, lemma_first_failure_extends, lemma_first_failure_none, lemma_first_failure_step};
use crate::domain::artifacts::{
    ArtifactMetadata, ArtifactRecord, ArtifactReplayManifest, ArtifactSource, EmbeddedMetadataStatus,
    EmbeddedMetadataWarning, VisualAssetRef,
};
use crate::error::{decode_message, ensure_schema, schema_version_message, DatabaseError, DatabaseErrorKind, DatabaseResult, JSON_SCHEMA_VERSION};
use crate::text::str_eq;

verus! {

/// The text that stores each [`EmbeddedMetadataStatus`] value.
pub open spec fn embedded_metadata_status_text(value: EmbeddedMetadataStatus) -> Seq<char> {
    match value {
        EmbeddedMetadataStatus::Parsed => "parsed"@,
        EmbeddedMetadataStatus::NotPresent => "not_present"@,
        EmbeddedMetadataStatus::UnsupportedFormat => "unsupported_format"@,
        EmbeddedMetadataStatus::Invalid => "invalid"@,
    }
}

/// The status a stored text reads as: an unknown text reads as invalid.
pub open spec fn embedded_metadata_status_read(text: Seq<char>) -> EmbeddedMetadataStatus {
    if text == "parsed"@ {
        EmbeddedMetadataStatus::Parsed
    } else if text == "not_present"@ {
        EmbeddedMetadataStatus::NotPresent
    } else if text == "unsupported_format"@ {
        EmbeddedMetadataStatus::UnsupportedFormat
    } else {
        EmbeddedMetadataStatus::Invalid
    }
}

/// Reading the stored text of a status gives the status back.
pub proof fn lemma_embedded_metadata_status_round_trip(value: EmbeddedMetadataStatus)
    ensures
        embedded_metadata_status_read(embedded_metadata_status_text(value)) == value,
{
    reveal_strlit("parsed");
    reveal_strlit("not_present");
    reveal_strlit("unsupported_format");
    reveal_strlit("invalid");
    assert("parsed"@.len() == 6);
    assert("not_present"@.len() == 11);
    assert("unsupported_format"@.len() == 18);
    assert("invalid"@.len() == 7);
}

/// The text that stores `value`.
pub fn embedded_metadata_status_as_str(value: EmbeddedMetadataStatus) -> (text: &'static str)
    ensures
        text@ == embedded_metadata_status_text(value),
{
    match value {
        EmbeddedMetadataStatus::Parsed => "parsed",
        EmbeddedMetadataStatus::NotPresent => "not_present",
        EmbeddedMetadataStatus::UnsupportedFormat => "unsupported_format",
        EmbeddedMetadataStatus::Invalid => "invalid",
    }
}

/// Reads a stored status; a text it does not know reads as invalid.
pub fn embedded_metadata_status_from_str(value: &str) -> (status: EmbeddedMetadataStatus)
    ensures
        status == embedded_metadata_status_read(value@),
{
    if str_eq(value, "parsed") {
        EmbeddedMetadataStatus::Parsed
    } else if str_eq(value, "not_present") {
        EmbeddedMetadataStatus::NotPresent
    } else if str_eq(value, "unsupported_format") {
        EmbeddedMetadataStatus::UnsupportedFormat
    } else {
        EmbeddedMetadataStatus::Invalid
    }
}

/// The text an optional stored string stands for: empty when absent.
pub open spec fn text_or_empty(value: Option<String>) -> Seq<char> {
    match value {
        Some(text) => text@,
        None => Seq::empty(),
    }
}

fn string_or_empty(value: Option<String>) -> (text: String)
    ensures
        text@ == text_or_empty(value),
{
    match value {
        Some(text) => text,
        None => String::new(),
    }
}

/// Stored form of an [`EmbeddedMetadataWarning`].
#[derive(Clone, Debug)]
pub struct EmbeddedMetadataWarningDto {
    pub code: String,
    pub keyword: Option<String>,
    pub message: Option<String>,
}

impl EmbeddedMetadataWarningDto {
    /// `self` stores exactly `value`.
    pub open spec fn encodes(self, value: EmbeddedMetadataWarning) -> bool {
        match value {
            EmbeddedMetadataWarning::InvalidCommentJson =>
                self.code@ == "invalid_comment_json"@ && self.keyword is None && self.message is None,
            EmbeddedMetadataWarning::InvalidTextChunk { keyword, message } =>
                self.code@ == "invalid_text_chunk"@ && self.keyword == Some(keyword) && self.message == Some(message),
            EmbeddedMetadataWarning::Unknown(text) =>
                self.code@ == "unknown"@ && self.keyword is None && self.message == Some(text),
        }
    }

    /// `value` is the warning `self` holds: a known code gives its warning,
    /// with absent texts read as empty; any other code is kept as an unknown
    /// warning.
    pub open spec fn decodes_to(self, value: EmbeddedMetadataWarning) -> bool {
        if self.code@ == "invalid_comment_json"@ {
            value == EmbeddedMetadataWarning::InvalidCommentJson
        } else if self.code@ == "invalid_text_chunk"@ {
            value matches EmbeddedMetadataWarning::InvalidTextChunk { keyword, message }
                && keyword@ == text_or_empty(self.keyword) && message@ == text_or_empty(self.message)
        } else if self.code@ == "unknown"@ {
            value matches EmbeddedMetadataWarning::Unknown(text) && text@ == text_or_empty(self.message)
        } else {
            value matches EmbeddedMetadataWarning::Unknown(text) && text@ == self.code@
        }
    }

    /// The stored form of `value`.
    pub fn from_domain(value: &EmbeddedMetadataWarning) -> (dto: Self)
        ensures
            dto.encodes(*value),
    {
        match value {
            EmbeddedMetadataWarning::InvalidCommentJson => EmbeddedMetadataWarningDto {
                code: "invalid_comment_json".to_owned(),
                keyword: None,
                message: None,
            },
            EmbeddedMetadataWarning::InvalidTextChunk { keyword, message } => EmbeddedMetadataWarningDto {
                code: "invalid_text_chunk".to_owned(),
                keyword: Some(keyword.clone()),
                message: Some(message.clone()),
            },
            EmbeddedMetadataWarning::Unknown(text) => EmbeddedMetadataWarningDto {
                code: "unknown".to_owned(),
                keyword: None,
                message: Some(text.clone()),
            },
        }
    }

    /// The warning `self` holds; every stored warning reads as one.
    pub fn into_domain(self) -> (value: EmbeddedMetadataWarning)
        ensures
            self.decodes_to(value),
    {
        if str_eq(self.code.as_str(), "invalid_comment_json") {
            EmbeddedMetadataWarning::InvalidCommentJson
        } else if str_eq(self.code.as_str(), "invalid_text_chunk") {
            EmbeddedMetadataWarning::InvalidTextChunk {
                keyword: string_or_empty(self.keyword),
                message: string_or_empty(self.message),
            }
        } else if str_eq(self.code.as_str(), "unknown") {
            EmbeddedMetadataWarning::Unknown(string_or_empty(self.message))
        } else {
            EmbeddedMetadataWarning::Unknown(self.code)
        }
    }
}

/// Reading a stored warning gives back the warning that was stored.
pub proof fn lemma_embedded_metadata_warning_round_trip(dto: EmbeddedMetadataWarningDto, value: EmbeddedMetadataWarning)
    requires
        dto.encodes(value),
    ensures
        dto.decodes_to(value),
{
    reveal_strlit("invalid_comment_json");
    reveal_strlit("invalid_text_chunk");
    reveal_strlit("unknown");
    assert("invalid_comment_json"@.len() == 20);
    assert("invalid_text_chunk"@.len() == 18);
    assert("unknown"@.len() == 7);
}

/// Stored form of an [`ArtifactSource`].
#[derive(Clone, Debug)]
pub struct ArtifactSourceDto {
    pub job_id: Option<String>,
    pub batch_id: Option<String>,
    pub run_id: Option<String>,
}

/// The message of a stored source without an id.
pub open spec fn missing_source_message() -> Seq<char> {
    "artifact source is missing a source id"@
}

impl ArtifactSourceDto {
    /// `self` stores exactly `value`.
    pub open spec fn encodes(self, value: ArtifactSource) -> bool {
        match value {
            ArtifactSource::GenerationJob { job_id, batch_id } =>
                self.job_id == Some(job_id) && self.batch_id == batch_id && self.run_id is None,
            ArtifactSource::DirectorRun { run_id } =>
                self.job_id is None && self.batch_id is None && self.run_id == Some(run_id),
        }
    }

    /// The source `self` holds: a job when it names a job, else a director
    /// run when it names a run; with neither it holds none.
    pub open spec fn spec_decode(self) -> Result<ArtifactSource, Seq<char>> {
        match self.job_id {
            Some(job_id) => Ok(ArtifactSource::GenerationJob { job_id, batch_id: self.batch_id }),
            None => match self.run_id {
                Some(run_id) => Ok(ArtifactSource::DirectorRun { run_id }),
                None => Err(missing_source_message()),
            },
        }
    }

    /// The stored form of `value`.
    pub fn from_domain(value: &ArtifactSource) -> (dto: Self)
        ensures
            dto.encodes(*value),
    {
        match value {
            ArtifactSource::GenerationJob { job_id, batch_id } => ArtifactSourceDto {
                job_id: Some(job_id.clone()),
                batch_id: clone_opt_string(batch_id),
                run_id: None,
            },
            ArtifactSource::DirectorRun { run_id } => ArtifactSourceDto {
                job_id: None,
                batch_id: None,
                run_id: Some(run_id.clone()),
            },
        }
    }

    /// The source `self` holds.
    pub fn into_domain(self) -> (result: DatabaseResult<ArtifactSource>)
        ensures
            crate::decode::db_result_matches(result, self.spec_decode()),
    {
        if let Some(job_id) = self.job_id {
            return Ok(ArtifactSource::GenerationJob { job_id, batch_id: self.batch_id });
        }
        if let Some(run_id) = self.run_id {
            return Ok(ArtifactSource::DirectorRun { run_id });
        }
        Err(DatabaseError::new("artifact source is missing a source id".to_owned()))
    }
}

/// Stored form of a [`VisualAssetRef`].
#[derive(Clone, Debug)]
pub struct VisualAssetRefDto {
    pub role: String,
    pub resource: ResourceRefDto,
    pub variant_kind: Option<String>,
}

impl VisualAssetRefDto {
    /// `self` stores exactly `value`.
    pub open spec fn encodes(self, value: VisualAssetRef) -> bool {
        &&& self.role@ == visual_asset_role_text(value.role)
        &&& self.resource.encodes(value.resource)
        &&& match value.variant_kind {
            Some(kind) => self.variant_kind matches Some(text) && text@ == variant_kind_text(kind),
            None => self.variant_kind is None,
        }
    }

    /// The asset `self` holds, or the message naming its unknown role or
    /// variant kind.
    pub open spec fn spec_decode(self) -> Result<VisualAssetRef, Seq<char>> {
        match visual_asset_role_parse(self.role@) {
            None => Err(decode_message("visual asset role"@, self.role@)),
            Some(role) => match self.variant_kind {
                Some(text) => match variant_kind_parse(text@) {
                    None => Err(decode_message("resource variant kind"@, text@)),
                    Some(kind) => Ok(VisualAssetRef { role, resource: self.resource.spec_decode(), variant_kind: Some(kind) }),
                },
                None => Ok(VisualAssetRef { role, resource: self.resource.spec_decode(), variant_kind: None }),
            },
        }
    }

    /// The stored form of `value`.
    pub fn from_domain(value: &VisualAssetRef) -> (dto: Self)
        ensures
            dto.encodes(*value),
    {
        VisualAssetRefDto {
            role: visual_asset_role_as_str(value.role).to_owned(),
            resource: ResourceRefDto::from_domain(&value.resource),
            variant_kind: match value.variant_kind {
                Some(kind) => Some(variant_kind_as_str(kind).to_owned()),
                None => None,
            },
        }
    }

    /// The asset `self` holds.
    pub fn into_domain(self) -> (result: DatabaseResult<VisualAssetRef>)
        ensures
            crate::decode::db_result_matches(result, self.spec_decode()),
    {
        let role = visual_asset_role_from_str(self.role.as_str())?;
        let variant_kind = match &self.variant_kind {
            Some(text) => Some(variant_kind_from_str(text.as_str())?),
            None => None,
        };
        Ok(VisualAssetRef { role, resource: self.resource.into_domain(), variant_kind })
    }
}

/// Decoding a stored asset gives back the asset that was stored.
pub proof fn lemma_visual_asset_ref_round_trip(dto: VisualAssetRefDto, value: VisualAssetRef)
    requires
        dto.encodes(value),
    ensures
        dto.spec_decode() == Ok::<VisualAssetRef, Seq<char>>(value),
{
    crate::codec::gallery::lemma_visual_asset_role_round_trip(value.role, dto.role@);
    if let Some(kind) = value.variant_kind {
        crate::codec::scalars::lemma_variant_kind_round_trip(kind, dto.variant_kind->0@);
    }
}

/// Stored form of an [`ArtifactReplayManifest`].
#[derive(Clone, Debug)]
pub struct ArtifactReplayManifestDto {
    pub payload_ref: Option<String>,
    pub prepared_payload_ref: Option<String>,
    pub prompt_snapshot: Option<String>,
    pub negative_prompt_snapshot: Option<String>,
}

impl ArtifactReplayManifestDto {
    /// The manifest `self` holds.
    pub open spec fn spec_decode(self) -> ArtifactReplayManifest {
        ArtifactReplayManifest {
            payload_ref: self.payload_ref,
            prepared_payload_ref: self.prepared_payload_ref,
            prompt_snapshot: self.prompt_snapshot,
            negative_prompt_snapshot: self.negative_prompt_snapshot,
        }
    }

    /// The stored form of `value`.
    pub fn from_domain(value: &ArtifactReplayManifest) -> (dto: Self)
        ensures
            dto.spec_decode() == *value,
    {
        ArtifactReplayManifestDto {
            payload_ref: clone_opt_string(&value.payload_ref),
            prepared_payload_ref: clone_opt_string(&value.prepared_payload_ref),
            prompt_snapshot: clone_opt_string(&value.prompt_snapshot),
            negative_prompt_snapshot: clone_opt_string(&value.negative_prompt_snapshot),
        }
    }

    /// The manifest `self` holds; every stored manifest reads as one.
    pub fn into_domain(self) -> (value: ArtifactReplayManifest)
        ensures
            value == self.spec_decode(),
    {
        ArtifactReplayManifest {
            payload_ref: self.payload_ref,
            prepared_payload_ref: self.prepared_payload_ref,
            prompt_snapshot: self.prompt_snapshot,
            negative_prompt_snapshot: self.negative_prompt_snapshot,
        }
    }
}

/// Copies key/value pairs, keeping their values.
pub fn clone_pairs(pairs: &Vec<(String, String)>) -> (copy: Vec<(String, String)>)
    ensures
        copy@ == pairs@,
{
    let mut copy: Vec<(String, String)> = Vec::new();
    let mut index: usize = 0;
    while index < pairs.len()
        invariant
            index <= pairs@.len(),
            copy@ == pairs@.take(index as int),
        decreases pairs.len() - index,
    {
        let (key, value) = &pairs[index];
        copy.push((key.clone(), value.clone()));
        assert(pairs@.take(index + 1) =~= pairs@.take(index as int).push(pairs@[index as int]));
        index = index + 1;
    }
    assert(pairs@.take(pairs@.len() as int) =~= pairs@);
    copy
}

/// Stored form of an [`ArtifactMetadata`].
#[derive(Clone, Debug)]
pub struct ArtifactMetadataDto {
    pub request_seed: Option<i64>,
    pub seed: Option<i64>,
    pub sample_index: Option<u32>,
    pub model_name: Option<String>,
    pub embedded_metadata_status: Option<String>,
    pub embedded_prompt: Option<String>,
    pub embedded_negative_prompt: Option<String>,
    pub embedded_metadata_json: Option<String>,
    pub embedded_metadata_error: Option<String>,
    pub embedded_metadata_warnings: Vec<EmbeddedMetadataWarningDto>,
    pub extensions: Vec<(String, String)>,
}

impl ArtifactMetadataDto {
    /// `self` stores exactly `value`.
    pub open spec fn encodes(self, value: ArtifactMetadata) -> bool {
        &&& self.request_seed == value.request_seed
        &&& self.seed == value.seed
        &&& self.sample_index == value.sample_index
        &&& self.model_name == value.model_name
        &&& match value.embedded_metadata_status {
            Some(status) => self.embedded_metadata_status matches Some(text) && text@ == embedded_metadata_status_text(status),
            None => self.embedded_metadata_status is None,
        }
        &&& self.embedded_prompt == value.embedded_prompt
        &&& self.embedded_negative_prompt == value.embedded_negative_prompt
        &&& self.embedded_metadata_json == value.embedded_metadata_json
        &&& self.embedded_metadata_error == value.embedded_metadata_error
        &&& self.embedded_metadata_warnings@.len() == value.embedded_metadata_warnings@.len()
        &&& forall|i: int| 0 <= i < self.embedded_metadata_warnings@.len() ==>
            #[trigger] self.embedded_metadata_warnings@[i].encodes(value.embedded_metadata_warnings@[i])
        &&& self.extensions@ == value.extensions@
    }

    /// `value` is the metadata `self` holds.
    pub open spec fn decodes_to(self, value: ArtifactMetadata) -> bool {
        &&& value.request_seed == self.request_seed
        &&& value.seed == self.seed
        &&& value.sample_index == self.sample_index
        &&& value.model_name == self.model_name
        &&& match self.embedded_metadata_status {
            Some(text) => value.embedded_metadata_status == Some(embedded_metadata_status_read(text@)),
            None => value.embedded_metadata_status is None,
        }
        &&& value.embedded_prompt == self.embedded_prompt
        &&& value.embedded_negative_prompt == self.embedded_negative_prompt
        &&& value.embedded_metadata_json == self.embedded_metadata_json
        &&& value.embedded_metadata_error == self.embedded_metadata_error
        &&& value.embedded_metadata_warnings@.len() == self.embedded_metadata_warnings@.len()
        &&& forall|i: int| 0 <= i < self.embedded_metadata_warnings@.len() ==>
            #[trigger] self.embedded_metadata_warnings@[i].decodes_to(value.embedded_metadata_warnings@[i])
        &&& value.extensions@ == self.extensions@
    }

    /// The stored form of `value`.
    pub fn from_domain(value: &ArtifactMetadata) -> (dto: Self)
        ensures
            dto.encodes(*value),
    {
        let mut warnings: Vec<EmbeddedMetadataWarningDto> = Vec::new();
        let mut index: usize = 0;
        while index < value.embedded_metadata_warnings.len()
            invariant
                index <= value.embedded_metadata_warnings@.len(),
                warnings@.len() == index,
                forall|i: int| 0 <= i < index ==> #[trigger] warnings@[i].encodes(value.embedded_metadata_warnings@[i]),
            decreases value.embedded_metadata_warnings.len() - index,
        {
            warnings.push(EmbeddedMetadataWarningDto::from_domain(&value.embedded_metadata_warnings[index]));
            index = index + 1;
        }
        ArtifactMetadataDto {
            request_seed: value.request_seed,
            seed: value.seed,
            sample_index: value.sample_index,
            model_name: clone_opt_string(&value.model_name),
            embedded_metadata_status: match value.embedded_metadata_status {
                Some(status) => Some(embedded_metadata_status_as_str(status).to_owned()),
                None => None,
            },
            embedded_prompt: clone_opt_string(&value.embedded_prompt),
            embedded_negative_prompt: clone_opt_string(&value.embedded_negative_prompt),
            embedded_metadata_json: clone_opt_string(&value.embedded_metadata_json),
            embedded_metadata_error: clone_opt_string(&value.embedded_metadata_error),
            embedded_metadata_warnings: warnings,
            extensions: clone_pairs(&value.extensions),
        }
    }

    /// The metadata `self` holds; every stored metadata reads as one.
    pub fn into_domain(self) -> (value: ArtifactMetadata)
        ensures
            self.decodes_to(value),
    {
        let ArtifactMetadataDto {
            request_seed,
            seed,
            sample_index,
            model_name,
            embedded_metadata_status,
            embedded_prompt,
            embedded_negative_prompt,
            embedded_metadata_json,
            embedded_metadata_error,
            embedded_metadata_warnings,
            extensions,
        } = self;
        let ghost stored = embedded_metadata_warnings@;
        let mut remaining = embedded_metadata_warnings;
        let mut warnings: Vec<EmbeddedMetadataWarning> = Vec::new();
        while remaining.len() > 0
            invariant
                warnings@.len() + remaining@.len() == stored.len(),
                remaining@ == stored.skip(warnings@.len() as int),
                forall|i: int| 0 <= i < warnings@.len() ==> #[trigger] stored[i].decodes_to(warnings@[i]),
            decreases remaining.len(),
        {
            let ghost done = warnings@.len();
            let next = remaining.remove(0);
            assert(next == stored[done as int]);
            warnings.push(next.into_domain());
            assert(remaining@ =~= stored.skip(warnings@.len() as int));
        }
        ArtifactMetadata {
            request_seed,
            seed,
            sample_index,
            model_name,
            embedded_metadata_status: match &embedded_metadata_status {
                Some(text) => Some(embedded_metadata_status_from_str(text.as_str())),
                None => None,
            },
            embedded_prompt,
            embedded_negative_prompt,
            embedded_metadata_json,
            embedded_metadata_error,
            embedded_metadata_warnings: warnings,
            extensions,
        }
    }
}

/// Reading stored metadata gives back the metadata that was stored.
pub proof fn lemma_artifact_metadata_round_trip(dto: ArtifactMetadataDto, value: ArtifactMetadata)
    requires
        dto.encodes(value),
    ensures
        dto.decodes_to(value),
{
    if let Some(status) = value.embedded_metadata_status {
        lemma_embedded_metadata_status_round_trip(status);
    }
    assert forall|i: int| 0 <= i < dto.embedded_metadata_warnings@.len() implies
        #[trigger] dto.embedded_metadata_warnings@[i].decodes_to(value.embedded_metadata_warnings@[i]) by {
        lemma_embedded_metadata_warning_round_trip(dto.embedded_metadata_warnings@[i], value.embedded_metadata_warnings@[i]);
    }
}

/// Stored form of an [`ArtifactRecord`].
#[derive(Clone, Debug)]
pub struct ArtifactRecordDto {
    pub schema_version: u32,
    pub id: String,
    pub kind: String,
    pub source: ArtifactSourceDto,
    pub primary_resource: ResourceRefDto,
    pub metadata: ArtifactMetadataDto,
    pub replay: Option<ArtifactReplayManifestDto>,
    pub assets: Vec<VisualAssetRefDto>,
}

/// Why a stored asset holds no asset, if it holds none.
pub open spec fn asset_failure(asset: VisualAssetRefDto) -> Option<Seq<char>> {
    match asset.spec_decode() {
        Ok(_) => None,
        Err(message) => Some(message),
    }
}

impl ArtifactRecordDto {
    /// `self` stores exactly `value`, in the current document version.
    pub open spec fn encodes(self, value: ArtifactRecord) -> bool {
        &&& self.schema_version == JSON_SCHEMA_VERSION
        &&& self.id == value.id
        &&& self.kind@ == artifact_kind_text(value.kind)
        &&& self.source.encodes(value.source)
        &&& self.primary_resource.encodes(value.primary_resource)
        &&& self.metadata.encodes(value.metadata)
        &&& match value.replay {
            Some(replay) => self.replay matches Some(dto) && dto.spec_decode() == replay,
            None => self.replay is None,
        }
        &&& self.assets@.len() == value.assets@.len()
        &&& forall|i: int| 0 <= i < self.assets@.len() ==> #[trigger] self.assets@[i].encodes(value.assets@[i])
    }

    /// Why `self` holds no record, if it holds none: the first of an
    /// unsupported document version, an unknown kind, a source without an
    /// id, and the first asset that holds no asset.
    pub open spec fn decode_failure(self) -> Option<Seq<char>> {
        if self.schema_version != JSON_SCHEMA_VERSION {
            Some(schema_version_message(self.schema_version as nat))
        } else if artifact_kind_parse(self.kind@) is None {
            Some(decode_message("artifact kind"@, self.kind@))
        } else if self.source.spec_decode() is Err {
            Some(self.source.spec_decode()->Err_0)
        } else {
            first_failure(self.assets@, |asset: VisualAssetRefDto| asset_failure(asset))
        }
    }

    /// `value` is the record `self` holds.
    pub open spec fn decodes_to(self, value: ArtifactRecord) -> bool {
        &&& value.id == self.id
        &&& Some(value.kind) == artifact_kind_parse(self.kind@)
        &&& Ok::<ArtifactSource, Seq<char>>(value.source) == self.source.spec_decode()
        &&& value.primary_resource == self.primary_resource.spec_decode()
        &&& self.metadata.decodes_to(value.metadata)
        &&& match self.replay {
            Some(dto) => value.replay == Some(dto.spec_decode()),
            None => value.replay is None,
        }
        &&& value.assets@.len() == self.assets@.len()
        &&& forall|i: int| 0 <= i < self.assets@.len() ==>
            #[trigger] self.assets@[i].spec_decode() == Ok::<VisualAssetRef, Seq<char>>(value.assets@[i])
    }
}

impl JsonCodec<ArtifactRecord> for ArtifactRecordDto {
    /// The stored form of `value`.
    fn from_domain(value: &ArtifactRecord) -> (dto: Self)
        ensures
            dto.encodes(*value),
    {
        let mut assets: Vec<VisualAssetRefDto> = Vec::new();
        let mut index: usize = 0;
        while index < value.assets.len()
            invariant
                index <= value.assets@.len(),
                assets@.len() == index,
                forall|i: int| 0 <= i < index ==> #[trigger] assets@[i].encodes(value.assets@[i]),
            decreases value.assets.len() - index,
        {
            assets.push(VisualAssetRefDto::from_domain(&value.assets[index]));
            index = index + 1;
        }
        ArtifactRecordDto {
            schema_version: JSON_SCHEMA_VERSION,
            id: value.id.clone(),
            kind: artifact_kind_as_str(value.kind).to_owned(),
            source: ArtifactSourceDto::from_domain(&value.source),
            primary_resource: ResourceRefDto::from_domain(&value.primary_resource),
            metadata: ArtifactMetadataDto::from_domain(&value.metadata),
            replay: match &value.replay {
                Some(replay) => Some(ArtifactReplayManifestDto::from_domain(replay)),
                None => None,
            },
            assets,
        }
    }

    /// The record `self` holds, checking the document version first.
    fn into_domain(self) -> (result: DatabaseResult<ArtifactRecord>)
        ensures
            match result {
                Ok(value) => self.decode_failure() is None && self.decodes_to(value),
                Err(error) => {
                    &&& error.spec_kind() == DatabaseErrorKind::Database
                    &&& self.decode_failure() == Some(error.spec_message())
                },
            },
    {
        let ghost original = self;
        ensure_schema(self.schema_version)?;
        let kind = artifact_kind_from_str(self.kind.as_str())?;
        let ArtifactRecordDto { schema_version: _, id, kind: _, source, primary_resource, metadata, replay, assets } = self;
        let source = source.into_domain()?;
        let primary_resource = primary_resource.into_domain();
        let metadata = metadata.into_domain();
        let replay = match replay {
            Some(dto) => Some(dto.into_domain()),
            None => None,
        };
        let ghost stored = assets@;
        let ghost failure = |asset: VisualAssetRefDto| asset_failure(asset);
        let mut remaining = assets;
        let mut decoded: Vec<VisualAssetRef> = Vec::new();
        while remaining.len() > 0
            invariant
                decoded@.len() + remaining@.len() == stored.len(),
                remaining@ == stored.skip(decoded@.len() as int),
                failure == (|asset: VisualAssetRefDto| asset_failure(asset)),
                original == self,
                original.schema_version == JSON_SCHEMA_VERSION,
                artifact_kind_parse(original.kind@) is Some,
                original.source.spec_decode() is Ok,
                stored == original.assets@,
                first_failure(stored.take(decoded@.len() as int), failure) is None,
                forall|i: int| 0 <= i < decoded@.len() ==>
                    #[trigger] stored[i].spec_decode() == Ok::<VisualAssetRef, Seq<char>>(decoded@[i]),
            decreases remaining.len(),
        {
            let ghost done = decoded@.len() as int;
            let next = remaining.remove(0);
            assert(next == stored[done]);
            proof {
                lemma_first_failure_step(stored, failure, done);
            }
            match next.into_domain() {
                Ok(asset) => {
                    decoded.push(asset);
                    assert(remaining@ =~= stored.skip(decoded@.len() as int));
                },
                Err(error) => {
                    proof {
                        assert(failure(stored[done]) == Some(error.spec_message()));
                        lemma_first_failure_extends(stored, failure, done + 1);
                    }
                    return Err(error);
                },
            }
        }
        assert(stored.take(decoded@.len() as int) =~= stored);
        Ok(ArtifactRecord { id, kind, source, primary_resource, metadata, replay, assets: decoded })
    }
}

/// Decoding a stored record gives back the record that was stored.
pub proof fn lemma_artifact_record_round_trip(dto: ArtifactRecordDto, value: ArtifactRecord)
    requires
        dto.encodes(value),
    ensures
        dto.decode_failure() is None,
        dto.decodes_to(value),
{
    crate::codec::scalars::lemma_artifact_kind_round_trip(value.kind, dto.kind@);
    lemma_artifact_metadata_round_trip(dto.metadata, value.metadata);
    let failure = |asset: VisualAssetRefDto| asset_failure(asset);
    assert forall|i: int| 0 <= i < dto.assets@.len() implies
        #[trigger] dto.assets@[i].spec_decode() == Ok::<VisualAssetRef, Seq<char>>(value.assets@[i]) by {
        lemma_visual_asset_ref_round_trip(dto.assets@[i], value.assets@[i]);
    }
    assert forall|i: int| 0 <= i < dto.assets@.len() implies #[trigger] failure(dto.assets@[i]) is None by {
        lemma_visual_asset_ref_round_trip(dto.assets@[i], value.assets@[i]);
    }
    lemma_first_failure_none(dto.assets@, failure);
}

} // verus!
