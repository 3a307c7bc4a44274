//! Schema checks of a workspace database: whether its stored format can be
//! used, and which migration brings it one version closer to the supported
//! one.

use vstd::prelude::*;

pub mod v1_to_v2;
pub mod v3_to_v4;
pub mod v4_rerun;
pub mod v4_to_v5;
pub mod v5_to_v6;
pub mod v7_to_v8;

use crate::error::{DatabaseError, DatabaseErrorKind, DatabaseResult};
use crate::text::{i64_to_decimal, signed_decimal_text, str_eq};

verus! {

/// The format name stamped into every workspace database.
pub open spec fn database_format() -> Seq<char> {
    "atelier-workspace-database"@
}

/// The schema version this library reads and writes.
pub const DATABASE_SCHEMA_VERSION: i64 = 2;

/// The message for a database without readable schema metadata.
pub open spec fn missing_metadata_message() -> Seq<char> {
    "database does not contain valid Atelier schema metadata"@
}

/// The message for a database of another format.
pub open spec fn foreign_format_message(format: Seq<char>, version: int) -> Seq<char> {
    "unsupported database schema `"@ + format + "` version "@ + signed_decimal_text(version)
        + "; expected `atelier-workspace-database` version 2"@
}

/// The message for a database written by a newer version.
pub open spec fn newer_version_message(version: int) -> Seq<char> {
    "database schema version "@ + signed_decimal_text(version) + " is newer than supported version 2"@
}

/// What the stored schema metadata allows: the version to migrate from, or
/// the message refusing the database.
pub open spec fn schema_metadata_outcome(metadata: Option<(Seq<char>, int)>) -> Result<int, Seq<char>> {
    match metadata {
        None => Err(missing_metadata_message()),
        Some((format, version)) => if format != database_format() {
            Err(foreign_format_message(format, version))
        } else if version > DATABASE_SCHEMA_VERSION {
            Err(newer_version_message(version))
        } else {
            Ok(version)
        },
    }
}

/// Checks the stored schema metadata (absent when it could not be read) and
/// gives the version to migrate from; a database of another format, or one
/// newer than this library, is refused as an unsupported schema.
pub fn validate_schema_metadata(metadata: Option<(String, i64)>) -> (result: DatabaseResult<i64>)
    ensures
        match (result, schema_metadata_outcome(
            match metadata { Some((format, version)) => Some((format@, version as int)), None => None },
        )) {
            (Ok(version), Ok(expected)) => version == expected,
            (Err(error), Err(message)) => {
                &&& error.spec_kind() == DatabaseErrorKind::UnsupportedSchema
                &&& error.spec_message() == message
            },
            _ => false,
        },
{
    proof {
        reveal_strlit("atelier-workspace-database");
    }
    match metadata {
        None => Err(DatabaseError::unsupported_schema(
            "database does not contain valid Atelier schema metadata".to_owned(),
        )),
        Some((format, version)) => {
            if !str_eq(format.as_str(), "atelier-workspace-database") {
                let mut message = "unsupported database schema `".to_owned();
                message.append(format.as_str());
                message.append("` version ");
                let digits = i64_to_decimal(version);
                message.append(digits.as_str());
                message.append("; expected `atelier-workspace-database` version 2");
                Err(DatabaseError::unsupported_schema(message))
            } else if version > DATABASE_SCHEMA_VERSION {
                let mut message = "database schema version ".to_owned();
                let digits = i64_to_decimal(version);
                message.append(digits.as_str());
                message.append(" is newer than supported version 2");
                Err(DatabaseError::unsupported_schema(message))
            } else {
                Ok(version)
            }
        },
    }
}

/// A migration of the stored schema by one version.
#[derive(Copy, Clone, Debug, PartialEq, Eq, Structural)]
pub enum SchemaMigration {
    V1ToV2,
    V2ToV3,
    V3ToV4,
    V4ToV5,
    V5ToV6,
    V6ToV7,
    V7ToV8,
}

/// The migration that starts at `version`, if there is one.
pub open spec fn migration_from(version: int) -> Option<SchemaMigration> {
    if version == 1 {
        Some(SchemaMigration::V1ToV2)
    } else if version == 2 {
        Some(SchemaMigration::V2ToV3)
    } else if version == 3 {
        Some(SchemaMigration::V3ToV4)
    } else if version == 4 {
        Some(SchemaMigration::V4ToV5)
    } else if version == 5 {
        Some(SchemaMigration::V5ToV6)
    } else if version == 6 {
        Some(SchemaMigration::V6ToV7)
    } else if version == 7 {
        Some(SchemaMigration::V7ToV8)
    } else {
        None
    }
}

impl SchemaMigration {
    /// The version this migration starts from.
    pub open spec fn spec_from_version(self) -> int {
        match self {
            SchemaMigration::V1ToV2 => 1,
            SchemaMigration::V2ToV3 => 2,
            SchemaMigration::V3ToV4 => 3,
            SchemaMigration::V4ToV5 => 4,
            SchemaMigration::V5ToV6 => 5,
            SchemaMigration::V6ToV7 => 6,
            SchemaMigration::V7ToV8 => 7,
        }
    }

    /// The version a database has once this migration has run.
    pub fn to_version(self) -> (version: i64)
        ensures
            version == self.spec_from_version() + 1,
    {
        match self {
            SchemaMigration::V1ToV2 => 2,
            SchemaMigration::V2ToV3 => 3,
            SchemaMigration::V3ToV4 => 4,
            SchemaMigration::V4ToV5 => 5,
            SchemaMigration::V5ToV6 => 6,
            SchemaMigration::V6ToV7 => 7,
            SchemaMigration::V7ToV8 => 8,
        }
    }
}

/// The message for a version that no migration starts from.
pub open spec fn no_migration_message(version: int) -> Seq<char> {
    "no database migration starts at schema version "@ + signed_decimal_text(version)
}

/// The next migration of a database at `version` towards `target`: none once
/// it has reached `target`, and an unsupported-schema error when no migration
/// starts at its version.
pub fn next_schema_migration(version: i64, target: i64) -> (result: DatabaseResult<Option<SchemaMigration>>)
    ensures
        version >= target ==> result == Ok::<Option<SchemaMigration>, DatabaseError>(None),
        version < target && migration_from(version as int) is Some ==>
            result == Ok::<Option<SchemaMigration>, DatabaseError>(migration_from(version as int)),
        version < target && migration_from(version as int) is None ==> (result matches Err(error) && {
            &&& error.spec_kind() == DatabaseErrorKind::UnsupportedSchema
            &&& error.spec_message() == no_migration_message(version as int)
        }),
{
    if version >= target {
        return Ok(None);
    }
    let step = if version == 1 {
        SchemaMigration::V1ToV2
    } else if version == 2 {
        SchemaMigration::V2ToV3
    } else if version == 3 {
        SchemaMigration::V3ToV4
    } else if version == 4 {
        SchemaMigration::V4ToV5
    } else if version == 5 {
        SchemaMigration::V5ToV6
    } else if version == 6 {
        SchemaMigration::V6ToV7
    } else if version == 7 {
        SchemaMigration::V7ToV8
    } else {
        let mut message = "no database migration starts at schema version ".to_owned();
        let digits = i64_to_decimal(version);
        message.append(digits.as_str());
        return Err(DatabaseError::unsupported_schema(message));
    };
    Ok(Some(step))
}

/// Every version from 1 up to the last migrated one has a migration, each
/// raising the version by one: a database at any version from 1 to `target`
/// (at most 8) reaches `target` without error.
pub proof fn lemma_migrations_reach_target(version: int, target: int)
    requires
        1 <= version < target <= 8,
    ensures
        migration_from(version) is Some,
        migration_from(version)->0.spec_from_version() == version,
        version + 1 <= target,
{
}

} // verus!
