//! Which way a database is opened: as it is, built fresh, or refused.
use vstd::prelude::*;
use vstd::string::StringExecFns;
use crate::text::{i64_to_decimal, signed_decimal};

verus! {

broadcast use vstd::string::group_string_axioms;

/// The schema version this library reads and writes.
pub const SCHEMA_VERSION: i32 = 1;

/// What opening a database at some version does.
#[derive(Debug, Clone, Copy, PartialEq, Eq, Structural)]
pub enum SchemaOpening {
    /// The database is at the current version and is used as it is.
    UpToDate,
    /// The database has no version yet: it is built fresh if it holds no table.
    InspectTables,
}

/// Why a database is refused.
#[derive(Debug, Clone, Copy, PartialEq, Eq, Structural)]
pub enum SchemaInitError {
    /// Written by a later version, or an old development database.
    Newer { current_version: i32 },
    /// Tables without a version: a development database from before the baseline.
    LegacyPreBaseline,
    /// An earlier version with no migration to the current one.
    OlderWithoutMigration { current_version: i32 },
}

/// How a database at `current_version` is opened.
pub fn schema_version_decision(current_version: i32) -> (r: Result<SchemaOpening, SchemaInitError>)
    ensures
        r == version_opening(current_version),
        current_version == SCHEMA_VERSION ==> r == Ok::<SchemaOpening, SchemaInitError>(
            SchemaOpening::UpToDate,
        ),
        current_version > SCHEMA_VERSION ==> r == Err::<SchemaOpening, SchemaInitError>(
            SchemaInitError::Newer { current_version },
        ),
        current_version == 0 ==> r == Ok::<SchemaOpening, SchemaInitError>(
            SchemaOpening::InspectTables,
        ),
        current_version != 0 && current_version < SCHEMA_VERSION ==> r == Err::<
            SchemaOpening,
            SchemaInitError,
        >(SchemaInitError::OlderWithoutMigration { current_version }),
{
    if current_version == SCHEMA_VERSION {
        Ok(SchemaOpening::UpToDate)
    } else if current_version > SCHEMA_VERSION {
        Err(SchemaInitError::Newer { current_version })
    } else if current_version == 0 {
        Ok(SchemaOpening::InspectTables)
    } else {
        Err(SchemaInitError::OlderWithoutMigration { current_version })
    }
}

/// Whether a database without a version is built fresh: only when it holds
/// no table at all, so that a half-old database is never mixed with new tables.
pub fn fresh_database_decision(table_count: i64) -> (r: Result<(), SchemaInitError>)
    ensures
        table_count > 0 ==> r == Err::<(), SchemaInitError>(SchemaInitError::LegacyPreBaseline),
        table_count <= 0 ==> r is Ok,
{
    if table_count > 0 {
        Err(SchemaInitError::LegacyPreBaseline)
    } else {
        Ok(())
    }
}

pub open spec fn schema_error_text(e: SchemaInitError) -> Seq<char> {
    match e {
        SchemaInitError::Newer { current_version } => "数据库版本("@ + signed_decimal(
            current_version as int,
        ) + ")与当前基线版本("@ + signed_decimal(SCHEMA_VERSION as int)
            + ")不兼容。若为 schema 重置前的旧开发库，请退出应用并运行 scripts/reset-dev-data.sh 重置开发数据；否则请使用写入该数据库的更新版本应用打开。"@,
        SchemaInitError::LegacyPreBaseline => "检测到 schema 重置前的旧开发数据库（user_version=0 但已有数据表），无法自动迁移。请退出应用并运行 scripts/reset-dev-data.sh 重置开发数据后重试。"@,
        SchemaInitError::OlderWithoutMigration { current_version } => "数据库版本("@
            + signed_decimal(current_version as int) + ")低于当前基线版本("@ + signed_decimal(
            SCHEMA_VERSION as int,
        ) + ")且尚无对应迁移路径；开发阶段请运行 scripts/reset-dev-data.sh 重置开发数据。"@,
    }
}

impl SchemaInitError {
    /// The error's message.
    pub fn message(&self) -> (r: String)
        ensures
            r@ == schema_error_text(*self),
    {
        match self {
            SchemaInitError::Newer { current_version } => {
                let mut m = String::from_str("数据库版本(");
                let v = i64_to_decimal(*current_version as i64);
                m.append(v.as_str());
                m.append(")与当前基线版本(");
                let b = i64_to_decimal(SCHEMA_VERSION as i64);
                m.append(b.as_str());
                m.append(
                    ")不兼容。若为 schema 重置前的旧开发库，请退出应用并运行 scripts/reset-dev-data.sh 重置开发数据；否则请使用写入该数据库的更新版本应用打开。",
                );
                m
            },
            SchemaInitError::LegacyPreBaseline => String::from_str(
                "检测到 schema 重置前的旧开发数据库（user_version=0 但已有数据表），无法自动迁移。请退出应用并运行 scripts/reset-dev-data.sh 重置开发数据后重试。",
            ),
            SchemaInitError::OlderWithoutMigration { current_version } => {
                let mut m = String::from_str("数据库版本(");
                let v = i64_to_decimal(*current_version as i64);
                m.append(v.as_str());
                m.append(")低于当前基线版本(");
                let b = i64_to_decimal(SCHEMA_VERSION as i64);
                m.append(b.as_str());
                m.append(")且尚无对应迁移路径；开发阶段请运行 scripts/reset-dev-data.sh 重置开发数据。");
                m
            },
        }
    }
}

/// How a database at `current_version` is opened, as a value.
pub open spec fn version_opening(current_version: i32) -> Result<SchemaOpening, SchemaInitError> {
    if current_version == SCHEMA_VERSION {
        Ok(SchemaOpening::UpToDate)
    } else if current_version > SCHEMA_VERSION {
        Err(SchemaInitError::Newer { current_version })
    } else if current_version == 0 {
        Ok(SchemaOpening::InspectTables)
    } else {
        Err(SchemaInitError::OlderWithoutMigration { current_version })
    }
}

/// Whether opening a database with this version and this many tables
/// builds and seeds it: only an unversioned database without tables.
pub open spec fn builds_baseline(current_version: i32, table_count: i64) -> bool {
    version_opening(current_version) == Ok::<SchemaOpening, SchemaInitError>(
        SchemaOpening::InspectTables,
    ) && table_count <= 0
}

/// Whether opening succeeds.
pub open spec fn opens(current_version: i32, table_count: i64) -> bool {
    &&& version_opening(current_version) is Ok
    &&& version_opening(current_version) == Ok::<SchemaOpening, SchemaInitError>(
        SchemaOpening::InspectTables,
    ) ==> table_count <= 0
}

/// The version a database has after an open that succeeded: a built
/// database is stamped with the current version, any other keeps its own.
pub open spec fn version_after_open(current_version: i32, table_count: i64) -> i32 {
    if builds_baseline(current_version, table_count) {
        SCHEMA_VERSION
    } else {
        current_version
    }
}

/// Reopening a database after an open that succeeded uses it as it is:
/// it is at the current version, so nothing is built or seeded again,
/// whatever tables it now holds, and the open succeeds.
pub proof fn law_reopen_uses_database_as_is(current_version: i32, table_count: i64, later_table_count: i64)
    requires
        opens(current_version, table_count),
    ensures
        version_after_open(current_version, table_count) == SCHEMA_VERSION,
        version_opening(version_after_open(current_version, table_count)) == Ok::<
            SchemaOpening,
            SchemaInitError,
        >(SchemaOpening::UpToDate),
        !builds_baseline(version_after_open(current_version, table_count), later_table_count),
        opens(version_after_open(current_version, table_count), later_table_count),
{
}

} // verus!
