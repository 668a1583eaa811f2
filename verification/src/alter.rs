//! `ALTER` operations: on tables, columns, policies, indexes, types and connectors.
use vstd::prelude::*;
use vstd::string::*;

use crate::column::{ColumnDef, ColumnOption, GeneratedAs};
use crate::constraint::{
    append_spaced_list, spaced_list, DropBehavior, TableConstraint,
};
use crate::create::Partition;
use crate::fragment::{
    DataType, Expr, Ident, MySQLColumnPosition, ObjectName, ProjectionSelect, SequenceOptions,
    SqlOption, ValueWithSpan,
};
use crate::text::{
    contains_text, ends_with, lemma_ends, lemma_has, lemma_starts, starts_with,
    all_displayable, append_option, append_sql, append_when, comma_separated, concatenated,
    display_comma_separated, display_concatenated, display_separated, if_text,
    option_displayable, option_text, separated, SqlDisplay,
};

verus! {

/// ALTER TABLE operation REPLICA IDENTITY values
#[derive(Debug, Clone, PartialEq, PartialOrd, Eq, Ord, Hash)]
pub enum ReplicaIdentity {
    /// `NOTHING`
    Nothing,
    Full,
    Default,
    Index(Ident),
}

impl SqlDisplay for ReplicaIdentity {
    open spec fn displayable(&self) -> bool {
        match self {
            ReplicaIdentity::Index(idx) => idx.displayable(),
            _ => true,
        }
    }

    open spec fn sql(&self) -> Seq<char> {
        match self {
            ReplicaIdentity::Nothing => "NOTHING"@,
            ReplicaIdentity::Full => "FULL"@,
            ReplicaIdentity::Default => "DEFAULT"@,
            ReplicaIdentity::Index(idx) => "USING INDEX "@ + idx.sql(),
        }
    }

    fn to_string(&self) -> (s: String) {
        match self {
            ReplicaIdentity::Nothing => String::from_str("NOTHING"),
            ReplicaIdentity::Full => String::from_str("FULL"),
            ReplicaIdentity::Default => String::from_str("DEFAULT"),
            ReplicaIdentity::Index(idx) => {
                let mut s = String::from_str("USING INDEX ");
                append_sql(&mut s, idx);
                s
            },
        }
    }
}

/// An `ALTER TABLE` (`Statement::AlterTable`) operation
#[derive(Debug, Clone, PartialEq, PartialOrd, Eq, Ord, Hash)]
pub enum AlterTableOperation {
    /// `ADD <table_constraint> [NOT VALID]`
    AddConstraint { constraint: TableConstraint, not_valid: bool },
    /// `ADD [COLUMN] [IF NOT EXISTS] <column_def>`
    AddColumn {
        /// `[COLUMN]`.
        column_keyword: bool,
        /// `[IF NOT EXISTS]`
        if_not_exists: bool,
        /// <column_def>.
        column_def: ColumnDef,
        /// MySQL `ALTER TABLE` only  [FIRST | AFTER column_name]
        column_position: Option<MySQLColumnPosition>,
    },
    /// `ADD PROJECTION [IF NOT EXISTS] name ( SELECT <COLUMN LIST EXPR> [GROUP BY] [ORDER BY])`
    ///
    /// Note: this is a ClickHouse-specific operation.
    AddProjection { if_not_exists: bool, name: Ident, select: ProjectionSelect },
    /// `DROP PROJECTION [IF EXISTS] name`
    ///
    /// Note: this is a ClickHouse-specific operation.
    DropProjection { if_exists: bool, name: Ident },
    /// `MATERIALIZE PROJECTION [IF EXISTS] name [IN PARTITION partition_name]`
    ///
    /// Note: this is a ClickHouse-specific operation.
    MaterializeProjection { if_exists: bool, name: Ident, partition: Option<Ident> },
    /// `CLEAR PROJECTION [IF EXISTS] name [IN PARTITION partition_name]`
    ///
    /// Note: this is a ClickHouse-specific operation.
    ClearProjection { if_exists: bool, name: Ident, partition: Option<Ident> },
    /// `DISABLE ROW LEVEL SECURITY`
    ///
    /// Note: this is a PostgreSQL-specific operation.
    DisableRowLevelSecurity,
    /// `DISABLE RULE rewrite_rule_name`
    ///
    /// Note: this is a PostgreSQL-specific operation.
    DisableRule { name: Ident },
    /// `DISABLE TRIGGER [ trigger_name | ALL | USER ]`
    ///
    /// Note: this is a PostgreSQL-specific operation.
    DisableTrigger { name: Ident },
    /// `DROP CONSTRAINT [ IF EXISTS ] <name>`
    DropConstraint { if_exists: bool, name: Ident, drop_behavior: Option<DropBehavior> },
    /// `DROP [ COLUMN ] [ IF EXISTS ] <column_name> [ , <column_name>, ... ] [ CASCADE ]`
    DropColumn {
        has_column_keyword: bool,
        column_names: Vec<Ident>,
        if_exists: bool,
        drop_behavior: Option<DropBehavior>,
    },
    /// `ATTACH PART|PARTITION <partition_expr>`
    /// Note: this is a ClickHouse-specific operation.
    AttachPartition {
        // PART is not a short form of PARTITION, it's a separate keyword
        // which represents a physical file on disk and partition is a logical entity.
        partition: Partition,
    },
    /// `DETACH PART|PARTITION <partition_expr>`
    /// Note: this is a ClickHouse-specific operation.
    DetachPartition {
        // See `AttachPartition` for more details
        partition: Partition,
    },
    /// `FREEZE PARTITION <partition_expr>`
    /// Note: this is a ClickHouse-specific operation.
    FreezePartition { partition: Partition, with_name: Option<Ident> },
    /// `UNFREEZE PARTITION <partition_expr>`
    /// Note: this is a ClickHouse-specific operation.
    UnfreezePartition { partition: Partition, with_name: Option<Ident> },
    /// `DROP PRIMARY KEY`
    ///
    /// Note: this is a MySQL-specific operation.
    DropPrimaryKey,
    /// `DROP FOREIGN KEY <fk_symbol>`
    ///
    /// Note: this is a MySQL-specific operation.
    DropForeignKey { name: Ident },
    /// `DROP INDEX <index_name>`
    DropIndex { name: Ident },
    /// `ENABLE ALWAYS RULE rewrite_rule_name`
    ///
    /// Note: this is a PostgreSQL-specific operation.
    EnableAlwaysRule { name: Ident },
    /// `ENABLE ALWAYS TRIGGER trigger_name`
    ///
    /// Note: this is a PostgreSQL-specific operation.
    EnableAlwaysTrigger { name: Ident },
    /// `ENABLE REPLICA RULE rewrite_rule_name`
    ///
    /// Note: this is a PostgreSQL-specific operation.
    EnableReplicaRule { name: Ident },
    /// `ENABLE REPLICA TRIGGER trigger_name`
    ///
    /// Note: this is a PostgreSQL-specific operation.
    EnableReplicaTrigger { name: Ident },
    /// `ENABLE ROW LEVEL SECURITY`
    ///
    /// Note: this is a PostgreSQL-specific operation.
    EnableRowLevelSecurity,
    /// `ENABLE RULE rewrite_rule_name`
    ///
    /// Note: this is a PostgreSQL-specific operation.
    EnableRule { name: Ident },
    /// `ENABLE TRIGGER [ trigger_name | ALL | USER ]`
    ///
    /// Note: this is a PostgreSQL-specific operation.
    EnableTrigger { name: Ident },
    /// `RENAME TO PARTITION (partition=val)`
    RenamePartitions { old_partitions: Vec<Expr>, new_partitions: Vec<Expr> },
    /// REPLICA IDENTITY { DEFAULT | USING INDEX index_name | FULL | NOTHING }
    ///
    /// Note: this is a PostgreSQL-specific operation.
    ReplicaIdentity { identity: ReplicaIdentity },
    /// Add Partitions
    AddPartitions { if_not_exists: bool, new_partitions: Vec<Partition> },
    DropPartitions { partitions: Vec<Expr>, if_exists: bool },
    /// `RENAME [ COLUMN ] <old_column_name> TO <new_column_name>`
    RenameColumn { old_column_name: Ident, new_column_name: Ident },
    /// `RENAME TO <table_name>`
    RenameTable { table_name: ObjectName },
    // CHANGE [ COLUMN ] <old_name> <new_name> <data_type> [ <options> ]
    ChangeColumn {
        old_name: Ident,
        new_name: Ident,
        data_type: DataType,
        options: Vec<ColumnOption>,
        /// MySQL `ALTER TABLE` only  [FIRST | AFTER column_name]
        column_position: Option<MySQLColumnPosition>,
    },
    // CHANGE [ COLUMN ] <col_name> <data_type> [ <options> ]
    ModifyColumn {
        col_name: Ident,
        data_type: DataType,
        options: Vec<ColumnOption>,
        /// MySQL `ALTER TABLE` only  [FIRST | AFTER column_name]
        column_position: Option<MySQLColumnPosition>,
    },
    /// `RENAME CONSTRAINT <old_constraint_name> TO <new_constraint_name>`
    ///
    /// Note: this is a PostgreSQL-specific operation.
    RenameConstraint { old_name: Ident, new_name: Ident },
    /// `ALTER [ COLUMN ]`
    AlterColumn { column_name: Ident, op: AlterColumnOperation },
    /// 'SWAP WITH <table_name>'
    ///
    /// Note: this is Snowflake specific
    SwapWith { table_name: ObjectName },
    /// 'SET TBLPROPERTIES ( { property_key [ = ] property_val } [, ...] )'
    SetTblProperties { table_properties: Vec<SqlOption> },
    /// `OWNER TO { <new_owner> | CURRENT_ROLE | CURRENT_USER | SESSION_USER }`
    ///
    /// Note: this is PostgreSQL-specific
    OwnerTo { new_owner: Owner },
    /// Snowflake table clustering options
    ClusterBy { exprs: Vec<Expr> },
    DropClusteringKey,
    SuspendRecluster,
    ResumeRecluster,
    /// `ALGORITHM [=] { DEFAULT | INSTANT | INPLACE | COPY }`
    ///
    /// MySQL-specific table alter algorithm.
    Algorithm { equals: bool, algorithm: AlterTableAlgorithm },
    /// `LOCK [=] { DEFAULT | NONE | SHARED | EXCLUSIVE }`
    ///
    /// MySQL-specific table alter lock.
    Lock { equals: bool, lock: AlterTableLock },
    /// `AUTO_INCREMENT [=] <value>`
    ///
    /// MySQL-specific table option for raising current auto increment value.
    AutoIncrement { equals: bool, value: ValueWithSpan },
    /// `VALIDATE CONSTRAINT <name>`
    ValidateConstraint { name: Ident },
    /// Arbitrary parenthesized `SET` options: `SET (scale_factor = 0.01, threshold = 500)`
    SetOptionsParens { options: Vec<SqlOption> },
}

/// ` RESTRICT`, ` CASCADE` or nothing.
pub open spec fn drop_behavior_text(drop_behavior: Option<DropBehavior>) -> Seq<char> {
    match drop_behavior {
        None => Seq::empty(),
        Some(DropBehavior::Restrict) => " RESTRICT"@,
        Some(DropBehavior::Cascade) => " CASCADE"@,
    }
}

/// Appends ` RESTRICT`, ` CASCADE` or nothing.
pub fn append_drop_behavior(s: &mut String, drop_behavior: &Option<DropBehavior>)
    ensures
        final(s)@ == old(s)@ + drop_behavior_text(*drop_behavior),
{
    match drop_behavior {
        None => {
            assert(old(s)@ + drop_behavior_text(*drop_behavior) =~= old(s)@);
        },
        Some(DropBehavior::Restrict) => {
            s.append(" RESTRICT");
        },
        Some(DropBehavior::Cascade) => {
            s.append(" CASCADE");
        },
    }
}

impl SqlDisplay for AlterTableOperation {
    open spec fn displayable(&self) -> bool {
        match self {
            AlterTableOperation::AddConstraint { constraint, .. } => constraint.displayable(),
            AlterTableOperation::AddColumn { column_def, .. } => column_def.displayable(),
            AlterTableOperation::AddProjection { name, .. } => name.displayable(),
            AlterTableOperation::DropProjection { name, .. } => name.displayable(),
            AlterTableOperation::MaterializeProjection { name, partition, .. } => name.displayable()
                && option_displayable(*partition),
            AlterTableOperation::ClearProjection { name, partition, .. } => name.displayable()
                && option_displayable(*partition),
            AlterTableOperation::DisableRule { name } => name.displayable(),
            AlterTableOperation::DisableTrigger { name } => name.displayable(),
            AlterTableOperation::DropConstraint { name, .. } => name.displayable(),
            AlterTableOperation::DropColumn { column_names, .. } => all_displayable(column_names@),
            AlterTableOperation::AttachPartition { partition } => partition.displayable(),
            AlterTableOperation::DetachPartition { partition } => partition.displayable(),
            AlterTableOperation::FreezePartition { partition, with_name } => partition.displayable()
                && option_displayable(*with_name),
            AlterTableOperation::UnfreezePartition { partition, with_name } => partition.displayable()
                && option_displayable(*with_name),
            AlterTableOperation::DropForeignKey { name } => name.displayable(),
            AlterTableOperation::DropIndex { name } => name.displayable(),
            AlterTableOperation::EnableAlwaysRule { name } => name.displayable(),
            AlterTableOperation::EnableAlwaysTrigger { name } => name.displayable(),
            AlterTableOperation::EnableReplicaRule { name } => name.displayable(),
            AlterTableOperation::EnableReplicaTrigger { name } => name.displayable(),
            AlterTableOperation::EnableRule { name } => name.displayable(),
            AlterTableOperation::EnableTrigger { name } => name.displayable(),
            AlterTableOperation::ReplicaIdentity { identity } => identity.displayable(),
            AlterTableOperation::AddPartitions { new_partitions, .. } => all_displayable(
                new_partitions@,
            ),
            AlterTableOperation::RenameColumn { old_column_name, new_column_name } => {
                old_column_name.displayable() && new_column_name.displayable()
            },
            AlterTableOperation::RenameTable { table_name } => table_name.displayable(),
            AlterTableOperation::ChangeColumn { old_name, new_name, options, .. } => {
                old_name.displayable() && new_name.displayable() && all_displayable(options@)
            },
            AlterTableOperation::ModifyColumn { col_name, options, .. } => col_name.displayable()
                && all_displayable(options@),
            AlterTableOperation::RenameConstraint { old_name, new_name } => old_name.displayable()
                && new_name.displayable(),
            AlterTableOperation::AlterColumn { column_name, .. } => column_name.displayable(),
            AlterTableOperation::SwapWith { table_name } => table_name.displayable(),
            AlterTableOperation::OwnerTo { new_owner } => new_owner.displayable(),
            AlterTableOperation::ValidateConstraint { name } => name.displayable(),
            _ => true,
        }
    }

    open spec fn sql(&self) -> Seq<char> {
        match self {
            AlterTableOperation::AddPartitions { if_not_exists, new_partitions } => "ADD"@
                + if_text(*if_not_exists, " IF NOT EXISTS"@) + " "@ + separated(
                new_partitions@,
                " "@,
            ),
            AlterTableOperation::AddConstraint { not_valid, constraint } => "ADD "@
                + constraint.sql() + if_text(*not_valid, " NOT VALID"@),
            AlterTableOperation::AddColumn {
                column_keyword,
                if_not_exists,
                column_def,
                column_position,
            } => "ADD"@ + if_text(*column_keyword, " COLUMN"@) + if_text(
                *if_not_exists,
                " IF NOT EXISTS"@,
            ) + " "@ + column_def.sql() + option_text(" "@, Seq::empty(), *column_position),
            AlterTableOperation::AddProjection { if_not_exists, name, select } => "ADD PROJECTION"@
                + if_text(*if_not_exists, " IF NOT EXISTS"@) + " "@ + name.sql() + " ("@
                + select.sql() + ")"@,
            AlterTableOperation::Algorithm { equals, algorithm } => "ALGORITHM "@ + if_text(
                *equals,
                "= "@,
            ) + algorithm.sql(),
            AlterTableOperation::DropProjection { if_exists, name } => "DROP PROJECTION"@
                + if_text(*if_exists, " IF EXISTS"@) + " "@ + name.sql(),
            AlterTableOperation::MaterializeProjection { if_exists, name, partition } =>
                "MATERIALIZE PROJECTION"@ + if_text(*if_exists, " IF EXISTS"@) + " "@ + name.sql()
                + option_text(" IN PARTITION "@, Seq::empty(), *partition),
            AlterTableOperation::ClearProjection { if_exists, name, partition } =>
                "CLEAR PROJECTION"@ + if_text(*if_exists, " IF EXISTS"@) + " "@ + name.sql()
                + option_text(" IN PARTITION "@, Seq::empty(), *partition),
            AlterTableOperation::AlterColumn { column_name, op } => "ALTER COLUMN "@
                + column_name.sql() + " "@ + op.sql(),
            AlterTableOperation::DisableRowLevelSecurity => "DISABLE ROW LEVEL SECURITY"@,
            AlterTableOperation::DisableRule { name } => "DISABLE RULE "@ + name.sql(),
            AlterTableOperation::DisableTrigger { name } => "DISABLE TRIGGER "@ + name.sql(),
            AlterTableOperation::DropPartitions { partitions, if_exists } => "DROP"@ + if_text(
                *if_exists,
                " IF EXISTS"@,
            ) + " PARTITION ("@ + comma_separated(partitions@) + ")"@,
            AlterTableOperation::DropConstraint { if_exists, name, drop_behavior } =>
                "DROP CONSTRAINT "@ + if_text(*if_exists, "IF EXISTS "@) + name.sql()
                + drop_behavior_text(*drop_behavior),
            AlterTableOperation::DropPrimaryKey => "DROP PRIMARY KEY"@,
            AlterTableOperation::DropForeignKey { name } => "DROP FOREIGN KEY "@ + name.sql(),
            AlterTableOperation::DropIndex { name } => "DROP INDEX "@ + name.sql(),
            AlterTableOperation::DropColumn {
                has_column_keyword,
                column_names,
                if_exists,
                drop_behavior,
            } => "DROP "@ + if_text(*has_column_keyword, "COLUMN "@) + if_text(
                *if_exists,
                "IF EXISTS "@,
            ) + comma_separated(column_names@) + drop_behavior_text(*drop_behavior),
            AlterTableOperation::AttachPartition { partition } => "ATTACH "@ + partition.sql(),
            AlterTableOperation::DetachPartition { partition } => "DETACH "@ + partition.sql(),
            AlterTableOperation::EnableAlwaysRule { name } => "ENABLE ALWAYS RULE "@ + name.sql(),
            AlterTableOperation::EnableAlwaysTrigger { name } => "ENABLE ALWAYS TRIGGER "@
                + name.sql(),
            AlterTableOperation::EnableReplicaRule { name } => "ENABLE REPLICA RULE "@
                + name.sql(),
            AlterTableOperation::EnableReplicaTrigger { name } => "ENABLE REPLICA TRIGGER "@
                + name.sql(),
            AlterTableOperation::EnableRowLevelSecurity => "ENABLE ROW LEVEL SECURITY"@,
            AlterTableOperation::EnableRule { name } => "ENABLE RULE "@ + name.sql(),
            AlterTableOperation::EnableTrigger { name } => "ENABLE TRIGGER "@ + name.sql(),
            AlterTableOperation::RenamePartitions { old_partitions, new_partitions } =>
                "PARTITION ("@ + comma_separated(old_partitions@) + ") RENAME TO PARTITION ("@
                + comma_separated(new_partitions@) + ")"@,
            AlterTableOperation::RenameColumn { old_column_name, new_column_name } =>
                "RENAME COLUMN "@ + old_column_name.sql() + " TO "@ + new_column_name.sql(),
            AlterTableOperation::RenameTable { table_name } => "RENAME TO "@ + table_name.sql(),
            AlterTableOperation::ChangeColumn {
                old_name,
                new_name,
                data_type,
                options,
                column_position,
            } => "CHANGE COLUMN "@ + old_name.sql() + " "@ + new_name.sql() + " "@
                + data_type.sql() + spaced_list(options@, " "@) + option_text(
                " "@,
                Seq::empty(),
                *column_position,
            ),
            AlterTableOperation::ModifyColumn { col_name, data_type, options, column_position } =>
                "MODIFY COLUMN "@ + col_name.sql() + " "@ + data_type.sql() + spaced_list(
                options@,
                " "@,
            ) + option_text(" "@, Seq::empty(), *column_position),
            AlterTableOperation::RenameConstraint { old_name, new_name } => "RENAME CONSTRAINT "@
                + old_name.sql() + " TO "@ + new_name.sql(),
            AlterTableOperation::SwapWith { table_name } => "SWAP WITH "@ + table_name.sql(),
            AlterTableOperation::OwnerTo { new_owner } => "OWNER TO "@ + new_owner.sql(),
            AlterTableOperation::SetTblProperties { table_properties } => "SET TBLPROPERTIES("@
                + comma_separated(table_properties@) + ")"@,
            AlterTableOperation::FreezePartition { partition, with_name } => "FREEZE "@
                + partition.sql() + option_text(" WITH NAME "@, Seq::empty(), *with_name),
            AlterTableOperation::UnfreezePartition { partition, with_name } => "UNFREEZE "@
                + partition.sql() + option_text(" WITH NAME "@, Seq::empty(), *with_name),
            AlterTableOperation::ClusterBy { exprs } => "CLUSTER BY ("@ + comma_separated(exprs@)
                + ")"@,
            AlterTableOperation::DropClusteringKey => "DROP CLUSTERING KEY"@,
            AlterTableOperation::SuspendRecluster => "SUSPEND RECLUSTER"@,
            AlterTableOperation::ResumeRecluster => "RESUME RECLUSTER"@,
            AlterTableOperation::AutoIncrement { equals, value } => "AUTO_INCREMENT "@ + if_text(
                *equals,
                "= "@,
            ) + value.sql(),
            AlterTableOperation::Lock { equals, lock } => "LOCK "@ + if_text(*equals, "= "@)
                + lock.sql(),
            AlterTableOperation::ReplicaIdentity { identity } => "REPLICA IDENTITY "@
                + identity.sql(),
            AlterTableOperation::ValidateConstraint { name } => "VALIDATE CONSTRAINT "@
                + name.sql(),
            AlterTableOperation::SetOptionsParens { options } => "SET ("@ + comma_separated(
                options@,
            ) + ")"@,
        }
    }

    #[verifier::spinoff_prover]
    fn to_string(&self) -> (s: String) {
        match self {
            AlterTableOperation::AddPartitions { if_not_exists, new_partitions } => {
                let mut s = String::from_str("ADD");
                append_when(&mut s, *if_not_exists, " IF NOT EXISTS");
                s.append(" ");
                s.append(display_separated(new_partitions, " ").as_str());
                s
            },
            AlterTableOperation::AddConstraint { not_valid, constraint } => {
                let mut s = String::from_str("ADD ");
                append_sql(&mut s, constraint);
                append_when(&mut s, *not_valid, " NOT VALID");
                s
            },
            AlterTableOperation::AddColumn {
                column_keyword,
                if_not_exists,
                column_def,
                column_position,
            } => {
                let mut s = String::from_str("ADD");
                append_when(&mut s, *column_keyword, " COLUMN");
                append_when(&mut s, *if_not_exists, " IF NOT EXISTS");
                s.append(" ");
                append_sql(&mut s, column_def);
                append_option(&mut s, " ", column_position);
                s
            },
            AlterTableOperation::AddProjection { if_not_exists, name, select } => {
                let mut s = String::from_str("ADD PROJECTION");
                append_when(&mut s, *if_not_exists, " IF NOT EXISTS");
                s.append(" ");
                append_sql(&mut s, name);
                s.append(" (");
                append_sql(&mut s, select);
                s.append(")");
                s
            },
            AlterTableOperation::Algorithm { equals, algorithm } => {
                let mut s = String::from_str("ALGORITHM ");
                append_when(&mut s, *equals, "= ");
                append_sql(&mut s, algorithm);
                s
            },
            AlterTableOperation::DropProjection { if_exists, name } => {
                let mut s = String::from_str("DROP PROJECTION");
                append_when(&mut s, *if_exists, " IF EXISTS");
                s.append(" ");
                append_sql(&mut s, name);
                s
            },
            AlterTableOperation::MaterializeProjection { if_exists, name, partition } => {
                let mut s = String::from_str("MATERIALIZE PROJECTION");
                append_when(&mut s, *if_exists, " IF EXISTS");
                s.append(" ");
                append_sql(&mut s, name);
                append_option(&mut s, " IN PARTITION ", partition);
                s
            },
            AlterTableOperation::ClearProjection { if_exists, name, partition } => {
                let mut s = String::from_str("CLEAR PROJECTION");
                append_when(&mut s, *if_exists, " IF EXISTS");
                s.append(" ");
                append_sql(&mut s, name);
                append_option(&mut s, " IN PARTITION ", partition);
                s
            },
            AlterTableOperation::AlterColumn { column_name, op } => {
                let mut s = String::from_str("ALTER COLUMN ");
                append_sql(&mut s, column_name);
                s.append(" ");
                append_sql(&mut s, op);
                s
            },
            AlterTableOperation::DisableRowLevelSecurity => String::from_str(
                "DISABLE ROW LEVEL SECURITY",
            ),
            AlterTableOperation::DisableRule { name } => {
                let mut s = String::from_str("DISABLE RULE ");
                append_sql(&mut s, name);
                s
            },
            AlterTableOperation::DisableTrigger { name } => {
                let mut s = String::from_str("DISABLE TRIGGER ");
                append_sql(&mut s, name);
                s
            },
            AlterTableOperation::DropPartitions { partitions, if_exists } => {
                let mut s = String::from_str("DROP");
                append_when(&mut s, *if_exists, " IF EXISTS");
                s.append(" PARTITION (");
                s.append(display_comma_separated(partitions).as_str());
                s.append(")");
                s
            },
            AlterTableOperation::DropConstraint { if_exists, name, drop_behavior } => {
                let mut s = String::from_str("DROP CONSTRAINT ");
                append_when(&mut s, *if_exists, "IF EXISTS ");
                append_sql(&mut s, name);
                append_drop_behavior(&mut s, drop_behavior);
                s
            },
            AlterTableOperation::DropPrimaryKey => String::from_str("DROP PRIMARY KEY"),
            AlterTableOperation::DropForeignKey { name } => {
                let mut s = String::from_str("DROP FOREIGN KEY ");
                append_sql(&mut s, name);
                s
            },
            AlterTableOperation::DropIndex { name } => {
                let mut s = String::from_str("DROP INDEX ");
                append_sql(&mut s, name);
                s
            },
            AlterTableOperation::DropColumn {
                has_column_keyword,
                column_names,
                if_exists,
                drop_behavior,
            } => {
                let mut s = String::from_str("DROP ");
                append_when(&mut s, *has_column_keyword, "COLUMN ");
                append_when(&mut s, *if_exists, "IF EXISTS ");
                s.append(display_comma_separated(column_names).as_str());
                append_drop_behavior(&mut s, drop_behavior);
                s
            },
            AlterTableOperation::AttachPartition { partition } => {
                let mut s = String::from_str("ATTACH ");
                append_sql(&mut s, partition);
                s
            },
            AlterTableOperation::DetachPartition { partition } => {
                let mut s = String::from_str("DETACH ");
                append_sql(&mut s, partition);
                s
            },
            AlterTableOperation::EnableAlwaysRule { name } => {
                let mut s = String::from_str("ENABLE ALWAYS RULE ");
                append_sql(&mut s, name);
                s
            },
            AlterTableOperation::EnableAlwaysTrigger { name } => {
                let mut s = String::from_str("ENABLE ALWAYS TRIGGER ");
                append_sql(&mut s, name);
                s
            },
            AlterTableOperation::EnableReplicaRule { name } => {
                let mut s = String::from_str("ENABLE REPLICA RULE ");
                append_sql(&mut s, name);
                s
            },
            AlterTableOperation::EnableReplicaTrigger { name } => {
                let mut s = String::from_str("ENABLE REPLICA TRIGGER ");
                append_sql(&mut s, name);
                s
            },
            AlterTableOperation::EnableRowLevelSecurity => String::from_str(
                "ENABLE ROW LEVEL SECURITY",
            ),
            AlterTableOperation::EnableRule { name } => {
                let mut s = String::from_str("ENABLE RULE ");
                append_sql(&mut s, name);
                s
            },
            AlterTableOperation::EnableTrigger { name } => {
                let mut s = String::from_str("ENABLE TRIGGER ");
                append_sql(&mut s, name);
                s
            },
            AlterTableOperation::RenamePartitions { old_partitions, new_partitions } => {
                let mut s = String::from_str("PARTITION (");
                s.append(display_comma_separated(old_partitions).as_str());
                s.append(") RENAME TO PARTITION (");
                s.append(display_comma_separated(new_partitions).as_str());
                s.append(")");
                s
            },
            AlterTableOperation::RenameColumn { old_column_name, new_column_name } => {
                let mut s = String::from_str("RENAME COLUMN ");
                append_sql(&mut s, old_column_name);
                s.append(" TO ");
                append_sql(&mut s, new_column_name);
                s
            },
            AlterTableOperation::RenameTable { table_name } => {
                let mut s = String::from_str("RENAME TO ");
                append_sql(&mut s, table_name);
                s
            },
            AlterTableOperation::ChangeColumn {
                old_name,
                new_name,
                data_type,
                options,
                column_position,
            } => {
                let mut s = String::from_str("CHANGE COLUMN ");
                append_sql(&mut s, old_name);
                s.append(" ");
                append_sql(&mut s, new_name);
                s.append(" ");
                append_sql(&mut s, data_type);
                append_spaced_list(&mut s, options, " ");
                append_option(&mut s, " ", column_position);
                s
            },
            AlterTableOperation::ModifyColumn { col_name, data_type, options, column_position } => {
                let mut s = String::from_str("MODIFY COLUMN ");
                append_sql(&mut s, col_name);
                s.append(" ");
                append_sql(&mut s, data_type);
                append_spaced_list(&mut s, options, " ");
                append_option(&mut s, " ", column_position);
                s
            },
            AlterTableOperation::RenameConstraint { old_name, new_name } => {
                let mut s = String::from_str("RENAME CONSTRAINT ");
                append_sql(&mut s, old_name);
                s.append(" TO ");
                append_sql(&mut s, new_name);
                s
            },
            AlterTableOperation::SwapWith { table_name } => {
                let mut s = String::from_str("SWAP WITH ");
                append_sql(&mut s, table_name);
                s
            },
            AlterTableOperation::OwnerTo { new_owner } => {
                let mut s = String::from_str("OWNER TO ");
                append_sql(&mut s, new_owner);
                s
            },
            AlterTableOperation::SetTblProperties { table_properties } => {
                let mut s = String::from_str("SET TBLPROPERTIES(");
                s.append(display_comma_separated(table_properties).as_str());
                s.append(")");
                s
            },
            AlterTableOperation::FreezePartition { partition, with_name } => {
                let mut s = String::from_str("FREEZE ");
                append_sql(&mut s, partition);
                append_option(&mut s, " WITH NAME ", with_name);
                s
            },
            AlterTableOperation::UnfreezePartition { partition, with_name } => {
                let mut s = String::from_str("UNFREEZE ");
                append_sql(&mut s, partition);
                append_option(&mut s, " WITH NAME ", with_name);
                s
            },
            AlterTableOperation::ClusterBy { exprs } => {
                let mut s = String::from_str("CLUSTER BY (");
                s.append(display_comma_separated(exprs).as_str());
                s.append(")");
                s
            },
            AlterTableOperation::DropClusteringKey => String::from_str("DROP CLUSTERING KEY"),
            AlterTableOperation::SuspendRecluster => String::from_str("SUSPEND RECLUSTER"),
            AlterTableOperation::ResumeRecluster => String::from_str("RESUME RECLUSTER"),
            AlterTableOperation::AutoIncrement { equals, value } => {
                let mut s = String::from_str("AUTO_INCREMENT ");
                append_when(&mut s, *equals, "= ");
                append_sql(&mut s, value);
                s
            },
            AlterTableOperation::Lock { equals, lock } => {
                let mut s = String::from_str("LOCK ");
                append_when(&mut s, *equals, "= ");
                append_sql(&mut s, lock);
                s
            },
            AlterTableOperation::ReplicaIdentity { identity } => {
                let mut s = String::from_str("REPLICA IDENTITY ");
                append_sql(&mut s, identity);
                s
            },
            AlterTableOperation::ValidateConstraint { name } => {
                let mut s = String::from_str("VALIDATE CONSTRAINT ");
                append_sql(&mut s, name);
                s
            },
            AlterTableOperation::SetOptionsParens { options } => {
                let mut s = String::from_str("SET (");
                s.append(display_comma_separated(options).as_str());
                s.append(")");
                s
            },
        }
    }
}

/// An `ALTER Policy` (`Statement::AlterPolicy`) operation
#[derive(Debug, Clone, PartialEq, PartialOrd, Eq, Ord, Hash)]
pub enum AlterPolicyOperation {
    Rename { new_name: Ident },
    Apply { to: Option<Vec<Owner>>, using: Option<Expr>, with_check: Option<Expr> },
}

impl SqlDisplay for AlterPolicyOperation {
    open spec fn displayable(&self) -> bool {
        match self {
            AlterPolicyOperation::Rename { new_name } => new_name.displayable(),
            AlterPolicyOperation::Apply { to, .. } => match to {
                Some(owners) => all_displayable(owners@),
                None => true,
            },
        }
    }

    open spec fn sql(&self) -> Seq<char> {
        match self {
            AlterPolicyOperation::Rename { new_name } => " RENAME TO "@ + new_name.sql(),
            AlterPolicyOperation::Apply { to, using, with_check } => (match to {
                Some(owners) => " TO "@ + comma_separated(owners@),
                None => Seq::empty(),
            }) + option_text(" USING ("@, ")"@, *using) + option_text(
                " WITH CHECK ("@,
                ")"@,
                *with_check,
            ),
        }
    }

    fn to_string(&self) -> (s: String) {
        match self {
            AlterPolicyOperation::Rename { new_name } => {
                let mut s = String::from_str(" RENAME TO ");
                append_sql(&mut s, new_name);
                s
            },
            AlterPolicyOperation::Apply { to, using, with_check } => {
                let mut s = String::new();
                if let Some(to) = to {
                    s.append(" TO ");
                    s.append(display_comma_separated(to).as_str());
                }
                if let Some(using) = using {
                    s.append(" USING (");
                    append_sql(&mut s, using);
                    s.append(")");
                }
                if let Some(with_check) = with_check {
                    s.append(" WITH CHECK (");
                    append_sql(&mut s, with_check);
                    s.append(")");
                }
                s
            },
        }
    }
}

/// MySQL `ALTER TABLE` algorithm.
#[derive(Debug, Clone, PartialEq, PartialOrd, Eq, Ord, Hash)]
pub enum AlterTableAlgorithm {
    Default,
    Instant,
    Inplace,
    Copy,
}

impl SqlDisplay for AlterTableAlgorithm {
    open spec fn displayable(&self) -> bool {
        true
    }

    open spec fn sql(&self) -> Seq<char> {
        match self {
            AlterTableAlgorithm::Default => "DEFAULT"@,
            AlterTableAlgorithm::Instant => "INSTANT"@,
            AlterTableAlgorithm::Inplace => "INPLACE"@,
            AlterTableAlgorithm::Copy => "COPY"@,
        }
    }

    fn to_string(&self) -> (s: String) {
        String::from_str(
            match self {
                AlterTableAlgorithm::Default => "DEFAULT",
                AlterTableAlgorithm::Instant => "INSTANT",
                AlterTableAlgorithm::Inplace => "INPLACE",
                AlterTableAlgorithm::Copy => "COPY",
            },
        )
    }
}

/// MySQL `ALTER TABLE` lock.
#[derive(Debug, Clone, PartialEq, PartialOrd, Eq, Ord, Hash)]
pub enum AlterTableLock {
    Default,
    /// `NONE`
    NoLock,
    Shared,
    Exclusive,
}

impl SqlDisplay for AlterTableLock {
    open spec fn displayable(&self) -> bool {
        true
    }

    open spec fn sql(&self) -> Seq<char> {
        match self {
            AlterTableLock::Default => "DEFAULT"@,
            AlterTableLock::NoLock => "NONE"@,
            AlterTableLock::Shared => "SHARED"@,
            AlterTableLock::Exclusive => "EXCLUSIVE"@,
        }
    }

    fn to_string(&self) -> (s: String) {
        String::from_str(
            match self {
                AlterTableLock::Default => "DEFAULT",
                AlterTableLock::NoLock => "NONE",
                AlterTableLock::Shared => "SHARED",
                AlterTableLock::Exclusive => "EXCLUSIVE",
            },
        )
    }
}

/// The new owner in `OWNER TO`.
#[derive(Debug, Clone, PartialEq, PartialOrd, Eq, Ord, Hash)]
pub enum Owner {
    Ident(Ident),
    CurrentRole,
    CurrentUser,
    SessionUser,
}

impl SqlDisplay for Owner {
    open spec fn displayable(&self) -> bool {
        match self {
            Owner::Ident(ident) => ident.displayable(),
            _ => true,
        }
    }

    open spec fn sql(&self) -> Seq<char> {
        match self {
            Owner::Ident(ident) => ident.sql(),
            Owner::CurrentRole => "CURRENT_ROLE"@,
            Owner::CurrentUser => "CURRENT_USER"@,
            Owner::SessionUser => "SESSION_USER"@,
        }
    }

    fn to_string(&self) -> (s: String) {
        match self {
            Owner::Ident(ident) => ident.to_string(),
            Owner::CurrentRole => String::from_str("CURRENT_ROLE"),
            Owner::CurrentUser => String::from_str("CURRENT_USER"),
            Owner::SessionUser => String::from_str("SESSION_USER"),
        }
    }
}

/// The new owner of a connector.
#[derive(Debug, Clone, PartialEq, PartialOrd, Eq, Ord, Hash)]
pub enum AlterConnectorOwner {
    User(Ident),
    Role(Ident),
}

impl SqlDisplay for AlterConnectorOwner {
    open spec fn displayable(&self) -> bool {
        match self {
            AlterConnectorOwner::User(ident) => ident.displayable(),
            AlterConnectorOwner::Role(ident) => ident.displayable(),
        }
    }

    open spec fn sql(&self) -> Seq<char> {
        match self {
            AlterConnectorOwner::User(ident) => "USER "@ + ident.sql(),
            AlterConnectorOwner::Role(ident) => "ROLE "@ + ident.sql(),
        }
    }

    fn to_string(&self) -> (s: String) {
        match self {
            AlterConnectorOwner::User(ident) => {
                let mut s = String::from_str("USER ");
                append_sql(&mut s, ident);
                s
            },
            AlterConnectorOwner::Role(ident) => {
                let mut s = String::from_str("ROLE ");
                append_sql(&mut s, ident);
                s
            },
        }
    }
}

/// An `ALTER INDEX` operation.
#[derive(Debug, Clone, PartialEq, PartialOrd, Eq, Ord, Hash)]
pub enum AlterIndexOperation {
    RenameIndex { index_name: ObjectName },
}

impl SqlDisplay for AlterIndexOperation {
    open spec fn displayable(&self) -> bool {
        match self {
            AlterIndexOperation::RenameIndex { index_name } => index_name.displayable(),
        }
    }

    open spec fn sql(&self) -> Seq<char> {
        match self {
            AlterIndexOperation::RenameIndex { index_name } => "RENAME TO "@ + index_name.sql(),
        }
    }

    fn to_string(&self) -> (s: String) {
        match self {
            AlterIndexOperation::RenameIndex { index_name } => {
                let mut s = String::from_str("RENAME TO ");
                append_sql(&mut s, index_name);
                s
            },
        }
    }
}

/// An `ALTER TYPE` statement (`Statement::AlterType`)
#[derive(Debug, Clone, PartialEq, PartialOrd, Eq, Ord, Hash)]
pub struct AlterType {
    pub name: ObjectName,
    pub operation: AlterTypeOperation,
}

/// An [AlterType] operation
#[derive(Debug, Clone, PartialEq, PartialOrd, Eq, Ord, Hash)]
pub enum AlterTypeOperation {
    Rename(AlterTypeRename),
    AddValue(AlterTypeAddValue),
    RenameValue(AlterTypeRenameValue),
}

/// See [AlterTypeOperation::Rename]
#[derive(Debug, Clone, PartialEq, PartialOrd, Eq, Ord, Hash)]
pub struct AlterTypeRename {
    pub new_name: Ident,
}

/// See [AlterTypeOperation::AddValue]
#[derive(Debug, Clone, PartialEq, PartialOrd, Eq, Ord, Hash)]
pub struct AlterTypeAddValue {
    pub if_not_exists: bool,
    pub value: Ident,
    pub position: Option<AlterTypeAddValuePosition>,
}

/// See [AlterTypeAddValue]
#[derive(Debug, Clone, PartialEq, PartialOrd, Eq, Ord, Hash)]
pub enum AlterTypeAddValuePosition {
    Before(Ident),
    After(Ident),
}

/// See [AlterTypeOperation::RenameValue]
#[derive(Debug, Clone, PartialEq, PartialOrd, Eq, Ord, Hash)]
pub struct AlterTypeRenameValue {
    pub from: Ident,
    pub to: Ident,
}

impl SqlDisplay for AlterTypeOperation {
    open spec fn displayable(&self) -> bool {
        match self {
            AlterTypeOperation::Rename(r) => r.new_name.displayable(),
            AlterTypeOperation::AddValue(a) => a.value.displayable() && match a.position {
                Some(AlterTypeAddValuePosition::Before(n)) => n.displayable(),
                Some(AlterTypeAddValuePosition::After(n)) => n.displayable(),
                None => true,
            },
            AlterTypeOperation::RenameValue(r) => r.from.displayable() && r.to.displayable(),
        }
    }

    open spec fn sql(&self) -> Seq<char> {
        match self {
            AlterTypeOperation::Rename(r) => "RENAME TO "@ + r.new_name.sql(),
            AlterTypeOperation::AddValue(a) => "ADD VALUE"@ + if_text(
                a.if_not_exists,
                " IF NOT EXISTS"@,
            ) + " "@ + a.value.sql() + match a.position {
                Some(AlterTypeAddValuePosition::Before(n)) => " BEFORE "@ + n.sql(),
                Some(AlterTypeAddValuePosition::After(n)) => " AFTER "@ + n.sql(),
                None => Seq::empty(),
            },
            AlterTypeOperation::RenameValue(r) => "RENAME VALUE "@ + r.from.sql() + " TO "@
                + r.to.sql(),
        }
    }

    fn to_string(&self) -> (s: String) {
        match self {
            AlterTypeOperation::Rename(r) => {
                let mut s = String::from_str("RENAME TO ");
                append_sql(&mut s, &r.new_name);
                s
            },
            AlterTypeOperation::AddValue(a) => {
                let mut s = String::from_str("ADD VALUE");
                append_when(&mut s, a.if_not_exists, " IF NOT EXISTS");
                s.append(" ");
                append_sql(&mut s, &a.value);
                match &a.position {
                    Some(AlterTypeAddValuePosition::Before(n)) => {
                        s.append(" BEFORE ");
                        append_sql(&mut s, n);
                    },
                    Some(AlterTypeAddValuePosition::After(n)) => {
                        s.append(" AFTER ");
                        append_sql(&mut s, n);
                    },
                    None => {},
                }
                s
            },
            AlterTypeOperation::RenameValue(r) => {
                let mut s = String::from_str("RENAME VALUE ");
                append_sql(&mut s, &r.from);
                s.append(" TO ");
                append_sql(&mut s, &r.to);
                s
            },
        }
    }
}

/// An `ALTER COLUMN` (`Statement::AlterTable`) operation
#[derive(Debug, Clone, PartialEq, PartialOrd, Eq, Ord, Hash)]
pub enum AlterColumnOperation {
    /// `SET NOT NULL`
    SetNotNull,
    /// `DROP NOT NULL`
    DropNotNull,
    /// `SET DEFAULT <expr>`
    SetDefault { value: Expr },
    /// `DROP DEFAULT`
    DropDefault,
    /// `[SET DATA] TYPE <data_type> [USING <expr>]`
    SetDataType {
        data_type: DataType,
        /// PostgreSQL specific
        using: Option<Expr>,
        /// Set to true if the statement includes the `SET DATA TYPE` keywords
        had_set: bool,
    },
    /// `ADD GENERATED { ALWAYS | BY DEFAULT } AS IDENTITY [ ( sequence_options ) ]`
    ///
    /// Note: this is a PostgreSQL-specific operation.
    AddGenerated {
        generated_as: Option<GeneratedAs>,
        sequence_options: Option<Vec<SequenceOptions>>,
    },
}

impl SqlDisplay for AlterColumnOperation {
    open spec fn displayable(&self) -> bool {
        true
    }

    open spec fn sql(&self) -> Seq<char> {
        match self {
            AlterColumnOperation::SetNotNull => "SET NOT NULL"@,
            AlterColumnOperation::DropNotNull => "DROP NOT NULL"@,
            AlterColumnOperation::SetDefault { value } => "SET DEFAULT "@ + value.sql(),
            AlterColumnOperation::DropDefault => "DROP DEFAULT"@,
            AlterColumnOperation::SetDataType { data_type, using, had_set } => if_text(
                *had_set,
                "SET DATA "@,
            ) + "TYPE "@ + data_type.sql() + option_text(" USING "@, Seq::empty(), *using),
            AlterColumnOperation::AddGenerated { generated_as, sequence_options } => "ADD GENERATED"@
                + match generated_as {
                Some(GeneratedAs::Always) => " ALWAYS"@,
                Some(GeneratedAs::ByDefault) => " BY DEFAULT"@,
                _ => Seq::empty(),
            } + " AS IDENTITY"@ + match sequence_options {
                Some(options) => " ("@ + concatenated(options@) + " )"@,
                None => Seq::empty(),
            },
        }
    }

    fn to_string(&self) -> (s: String) {
        match self {
            AlterColumnOperation::SetNotNull => String::from_str("SET NOT NULL"),
            AlterColumnOperation::DropNotNull => String::from_str("DROP NOT NULL"),
            AlterColumnOperation::SetDefault { value } => {
                let mut s = String::from_str("SET DEFAULT ");
                append_sql(&mut s, value);
                s
            },
            AlterColumnOperation::DropDefault => String::from_str("DROP DEFAULT"),
            AlterColumnOperation::SetDataType { data_type, using, had_set } => {
                let mut s = String::new();
                append_when(&mut s, *had_set, "SET DATA ");
                s.append("TYPE ");
                append_sql(&mut s, data_type);
                append_option(&mut s, " USING ", using);
                s
            },
            AlterColumnOperation::AddGenerated { generated_as, sequence_options } => {
                let mut s = String::from_str("ADD GENERATED");
                match generated_as {
                    Some(GeneratedAs::Always) => {
                        s.append(" ALWAYS");
                    },
                    Some(GeneratedAs::ByDefault) => {
                        s.append(" BY DEFAULT");
                    },
                    _ => {},
                }
                s.append(" AS IDENTITY");
                if let Some(options) = sequence_options {
                    s.append(" (");
                    s.append(display_concatenated(options).as_str());
                    s.append(" )");
                }
                s
            },
        }
    }
}

/// `MATERIALIZE PROJECTION` and `CLEAR PROJECTION` write their keywords first, then the
/// projection's name; a partition, when given, comes last after ` IN PARTITION `, and
/// otherwise the name comes last.
#[verifier::spinoff_prover]
#[verifier::rlimit(60)]
pub proof fn projection_operations_show_their_parts(
    if_exists: bool,
    name: Ident,
    partition: Option<Ident>,
)
    ensures
        ({
            let m = AlterTableOperation::MaterializeProjection { if_exists, name, partition }.sql();
            let c = AlterTableOperation::ClearProjection { if_exists, name, partition }.sql();
            &&& starts_with(m, "MATERIALIZE PROJECTION"@)
            &&& starts_with(c, "CLEAR PROJECTION"@)
            &&& contains_text(m, " "@ + name.sql())
            &&& contains_text(c, " "@ + name.sql())
            &&& if_exists ==> starts_with(m, "MATERIALIZE PROJECTION"@ + " IF EXISTS"@)
            &&& if_exists ==> starts_with(c, "CLEAR PROJECTION"@ + " IF EXISTS"@)
            &&& (partition is Some ==> ends_with(m, " IN PARTITION "@ + partition.unwrap().sql()))
            &&& (partition is Some ==> ends_with(c, " IN PARTITION "@ + partition.unwrap().sql()))
            &&& (partition is None ==> ends_with(m, " "@ + name.sql()))
            &&& (partition is None ==> ends_with(c, " "@ + name.sql()))
        }),
{
    let m = AlterTableOperation::MaterializeProjection { if_exists, name, partition }.sql();
    let c = AlterTableOperation::ClearProjection { if_exists, name, partition }.sql();
    let ie = crate::text::if_text(if_exists, " IF EXISTS"@);
    let tail = option_text(" IN PARTITION "@, Seq::empty(), partition);
    let nm = " "@ + name.sql();
    lemma_starts(m, "MATERIALIZE PROJECTION"@, ie + nm + tail);
    lemma_starts(c, "CLEAR PROJECTION"@, ie + nm + tail);
    lemma_has(m, "MATERIALIZE PROJECTION"@ + ie, nm, tail);
    lemma_has(c, "CLEAR PROJECTION"@ + ie, nm, tail);
    if if_exists {
        lemma_starts(m, "MATERIALIZE PROJECTION"@ + " IF EXISTS"@, nm + tail);
        lemma_starts(c, "CLEAR PROJECTION"@ + " IF EXISTS"@, nm + tail);
    }
    match partition {
        Some(q) => {
            lemma_ends(m, "MATERIALIZE PROJECTION"@ + ie + nm, " IN PARTITION "@ + q.sql());
            lemma_ends(c, "CLEAR PROJECTION"@ + ie + nm, " IN PARTITION "@ + q.sql());
        },
        None => {
            lemma_ends(m, "MATERIALIZE PROJECTION"@ + ie, nm);
            lemma_ends(c, "CLEAR PROJECTION"@ + ie, nm);
        },
    }
}

/// `FREEZE` and `UNFREEZE` write the partition after their keyword; a backup name, when
/// given, comes last after ` WITH NAME `, and otherwise the partition comes last.
#[verifier::spinoff_prover]
#[verifier::rlimit(60)]
pub proof fn freeze_operations_show_their_parts(partition: Partition, with_name: Option<Ident>)
    ensures
        ({
            let f = AlterTableOperation::FreezePartition { partition, with_name }.sql();
            let u = AlterTableOperation::UnfreezePartition { partition, with_name }.sql();
            &&& starts_with(f, "FREEZE "@ + partition.sql())
            &&& starts_with(u, "UNFREEZE "@ + partition.sql())
            &&& (with_name is Some ==> ends_with(f, " WITH NAME "@ + with_name.unwrap().sql()))
            &&& (with_name is Some ==> ends_with(u, " WITH NAME "@ + with_name.unwrap().sql()))
            &&& (with_name is None ==> ends_with(f, partition.sql()))
            &&& (with_name is None ==> ends_with(u, partition.sql()))
        }),
{
    let f = AlterTableOperation::FreezePartition { partition, with_name }.sql();
    let u = AlterTableOperation::UnfreezePartition { partition, with_name }.sql();
    let tail = option_text(" WITH NAME "@, Seq::empty(), with_name);
    lemma_starts(f, "FREEZE "@ + partition.sql(), tail);
    lemma_starts(u, "UNFREEZE "@ + partition.sql(), tail);
    match with_name {
        Some(n) => {
            lemma_ends(f, "FREEZE "@ + partition.sql(), " WITH NAME "@ + n.sql());
            lemma_ends(u, "UNFREEZE "@ + partition.sql(), " WITH NAME "@ + n.sql());
        },
        None => {
            lemma_ends(f, "FREEZE "@, partition.sql());
            lemma_ends(u, "UNFREEZE "@, partition.sql());
        },
    }
}

/// `ADD [COLUMN] [IF NOT EXISTS]` writes the column definition; a column position,
/// when given, comes last after a space, and otherwise the definition comes last.
#[verifier::spinoff_prover]
#[verifier::rlimit(40)]
pub proof fn add_column_shows_its_parts(
    column_keyword: bool,
    if_not_exists: bool,
    column_def: ColumnDef,
    column_position: Option<MySQLColumnPosition>,
)
    ensures
        ({
            let a = AlterTableOperation::AddColumn {
                column_keyword,
                if_not_exists,
                column_def,
                column_position,
            }.sql();
            &&& starts_with(a, "ADD"@)
            &&& column_keyword ==> starts_with(a, "ADD"@ + " COLUMN"@)
            &&& contains_text(a, " "@ + column_def.sql())
            &&& (column_position is Some ==> ends_with(
                a,
                " "@ + column_position.unwrap().sql(),
            ))
            &&& (column_position is None ==> ends_with(a, " "@ + column_def.sql()))
        }),
{
    let a = AlterTableOperation::AddColumn {
        column_keyword,
        if_not_exists,
        column_def,
        column_position,
    }.sql();
    let ck = crate::text::if_text(column_keyword, " COLUMN"@);
    let ie = crate::text::if_text(if_not_exists, " IF NOT EXISTS"@);
    let d = " "@ + column_def.sql();
    let tail = option_text(" "@, Seq::empty(), column_position);
    lemma_starts(a, "ADD"@, ck + ie + d + tail);
    if column_keyword {
        lemma_starts(a, "ADD"@ + " COLUMN"@, ie + d + tail);
    }
    lemma_has(a, "ADD"@ + ck + ie, d, tail);
    match column_position {
        Some(p) => {
            lemma_ends(a, "ADD"@ + ck + ie + d, " "@ + p.sql());
        },
        None => {
            lemma_ends(a, "ADD"@ + ck + ie, d);
        },
    }
}

/// `ADD <constraint>` writes the constraint's text after `ADD `, followed by ` NOT VALID`
/// exactly when the constraint is not validated.
#[verifier::spinoff_prover]
#[verifier::rlimit(60)]
pub proof fn add_constraint_shows_its_parts(constraint: TableConstraint, not_valid: bool)
    ensures
        ({
            let a = AlterTableOperation::AddConstraint { constraint, not_valid }.sql();
            &&& starts_with(a, "ADD "@ + constraint.sql())
            &&& not_valid ==> a == "ADD "@ + constraint.sql() + " NOT VALID"@
            &&& !not_valid ==> a == "ADD "@ + constraint.sql()
        }),
{
    let a = AlterTableOperation::AddConstraint { constraint, not_valid }.sql();
    let tail = crate::text::if_text(not_valid, " NOT VALID"@);
    lemma_starts(a, "ADD "@ + constraint.sql(), tail);
    assert(!not_valid ==> a =~= "ADD "@ + constraint.sql());
}

/// `CHANGE COLUMN` and `MODIFY COLUMN` write the data type after the column names; the
/// options, when there are any, follow after a space and separated by spaces; a column
/// position, when given, comes last after a space.
#[verifier::spinoff_prover]
#[verifier::rlimit(60)]
pub proof fn change_and_modify_column_show_their_parts(
    old_name: Ident,
    new_name: Ident,
    data_type: DataType,
    options: Vec<ColumnOption>,
    column_position: Option<MySQLColumnPosition>,
)
    ensures
        ({
            let c = AlterTableOperation::ChangeColumn {
                old_name,
                new_name,
                data_type,
                options,
                column_position,
            }.sql();
            let m = AlterTableOperation::ModifyColumn {
                col_name: old_name,
                data_type,
                options,
                column_position,
            }.sql();
            &&& starts_with(
                c,
                "CHANGE COLUMN "@ + old_name.sql() + " "@ + new_name.sql() + " "@ + data_type.sql(),
            )
            &&& starts_with(m, "MODIFY COLUMN "@ + old_name.sql() + " "@ + data_type.sql())
            &&& (options@.len() > 0 ==> contains_text(c, " "@ + separated(options@, " "@)))
            &&& (options@.len() > 0 ==> contains_text(m, " "@ + separated(options@, " "@)))
            &&& (options@.len() > 0 && column_position is None ==> ends_with(
                c,
                " "@ + separated(options@, " "@),
            ))
            &&& (options@.len() > 0 && column_position is None ==> ends_with(
                m,
                " "@ + separated(options@, " "@),
            ))
            &&& (column_position is Some ==> ends_with(c, " "@ + column_position.unwrap().sql()))
            &&& (column_position is Some ==> ends_with(m, " "@ + column_position.unwrap().sql()))
        }),
{
    let c = AlterTableOperation::ChangeColumn {
        old_name,
        new_name,
        data_type,
        options,
        column_position,
    }.sql();
    let m = AlterTableOperation::ModifyColumn {
        col_name: old_name,
        data_type,
        options,
        column_position,
    }.sql();
    let hc = "CHANGE COLUMN "@ + old_name.sql() + " "@ + new_name.sql() + " "@ + data_type.sql();
    let hm = "MODIFY COLUMN "@ + old_name.sql() + " "@ + data_type.sql();
    let ol = spaced_list(options@, " "@);
    let tail = option_text(" "@, Seq::empty(), column_position);
    lemma_starts(c, hc, ol + tail);
    lemma_starts(m, hm, ol + tail);
    if options@.len() > 0 {
        lemma_has(c, hc, ol, tail);
        lemma_has(m, hm, ol, tail);
        if column_position is None {
            lemma_ends(c, hc, ol);
            lemma_ends(m, hm, ol);
        }
    }
    if let Some(p) = column_position {
        lemma_ends(c, hc + ol, " "@ + p.sql());
        lemma_ends(m, hm + ol, " "@ + p.sql());
    }
}

/// `DROP CONSTRAINT` and `DROP [COLUMN]` end with ` RESTRICT` or ` CASCADE` exactly as the
/// drop behaviour says, and otherwise with the constraint's name or the list of columns.
#[verifier::spinoff_prover]
#[verifier::rlimit(60)]
pub proof fn drop_operations_show_drop_behavior(
    if_exists: bool,
    has_column_keyword: bool,
    name: Ident,
    column_names: Vec<Ident>,
    drop_behavior: Option<DropBehavior>,
)
    ensures
        ({
            let dc = AlterTableOperation::DropConstraint { if_exists, name, drop_behavior }.sql();
            let dl = AlterTableOperation::DropColumn {
                has_column_keyword,
                column_names,
                if_exists,
                drop_behavior,
            }.sql();
            &&& starts_with(dc, "DROP CONSTRAINT "@)
            &&& contains_text(dc, name.sql())
            &&& contains_text(dl, comma_separated(column_names@))
            &&& (drop_behavior == Some(DropBehavior::Cascade) ==> ends_with(dc, " CASCADE"@)
                && ends_with(dl, " CASCADE"@))
            &&& (drop_behavior == Some(DropBehavior::Restrict) ==> ends_with(dc, " RESTRICT"@)
                && ends_with(dl, " RESTRICT"@))
            &&& (drop_behavior is None ==> ends_with(dc, name.sql()) && ends_with(
                dl,
                comma_separated(column_names@),
            ))
        }),
{
    let dc = AlterTableOperation::DropConstraint { if_exists, name, drop_behavior }.sql();
    let dl = AlterTableOperation::DropColumn {
        has_column_keyword,
        column_names,
        if_exists,
        drop_behavior,
    }.sql();
    let hc = "DROP CONSTRAINT "@ + crate::text::if_text(if_exists, "IF EXISTS "@);
    let hl = "DROP "@ + crate::text::if_text(has_column_keyword, "COLUMN "@) + crate::text::if_text(
        if_exists,
        "IF EXISTS "@,
    );
    let cols = comma_separated(column_names@);
    let tail = drop_behavior_text(drop_behavior);
    lemma_starts(dc, "DROP CONSTRAINT "@, crate::text::if_text(if_exists, "IF EXISTS "@) + name.sql() + tail);
    lemma_has(dc, hc, name.sql(), tail);
    lemma_has(dl, hl, cols, tail);
    lemma_ends(dc, hc + name.sql(), tail);
    lemma_ends(dl, hl + cols, tail);
    if drop_behavior is None {
        lemma_ends(dc, hc, name.sql());
        lemma_ends(dl, hl, cols);
    }
}

/// `ALGORITHM`, `LOCK` and `AUTO_INCREMENT` end with their value, and write `= ` before it
/// exactly when the equals sign was given.
#[verifier::spinoff_prover]
#[verifier::rlimit(60)]
pub proof fn setting_operations_show_their_value(
    equals: bool,
    algorithm: AlterTableAlgorithm,
    lock: AlterTableLock,
    value: ValueWithSpan,
)
    ensures
        ({
            let a = AlterTableOperation::Algorithm { equals, algorithm }.sql();
            let l = AlterTableOperation::Lock { equals, lock }.sql();
            let v = AlterTableOperation::AutoIncrement { equals, value }.sql();
            &&& a == "ALGORITHM "@ + (if equals { "= "@ } else { Seq::empty() }) + algorithm.sql()
            &&& l == "LOCK "@ + (if equals { "= "@ } else { Seq::empty() }) + lock.sql()
            &&& v == "AUTO_INCREMENT "@ + (if equals { "= "@ } else { Seq::empty() })
                + value.sql()
        }),
{
}

/// Operations on a named rule, trigger, index, foreign key or constraint write their
/// keywords first and end with the name they act on.
#[verifier::spinoff_prover]
#[verifier::rlimit(60)]
pub proof fn named_operations_end_with_their_name(name: Ident)
    ensures
        ({
            let o0 = (AlterTableOperation::DisableRule { name }).sql();
            let o1 = (AlterTableOperation::DisableTrigger { name }).sql();
            let o2 = (AlterTableOperation::DropForeignKey { name }).sql();
            let o3 = (AlterTableOperation::DropIndex { name }).sql();
            let o4 = (AlterTableOperation::EnableAlwaysRule { name }).sql();
            let o5 = (AlterTableOperation::EnableAlwaysTrigger { name }).sql();
            let o6 = (AlterTableOperation::EnableReplicaRule { name }).sql();
            let o7 = (AlterTableOperation::EnableReplicaTrigger { name }).sql();
            let o8 = (AlterTableOperation::EnableRule { name }).sql();
            let o9 = (AlterTableOperation::EnableTrigger { name }).sql();
            let o10 = (AlterTableOperation::ValidateConstraint { name }).sql();
            &&& starts_with(o0, "DISABLE RULE "@) && ends_with(o0, name.sql())
            &&& starts_with(o1, "DISABLE TRIGGER "@) && ends_with(o1, name.sql())
            &&& starts_with(o2, "DROP FOREIGN KEY "@) && ends_with(o2, name.sql())
            &&& starts_with(o3, "DROP INDEX "@) && ends_with(o3, name.sql())
            &&& starts_with(o4, "ENABLE ALWAYS RULE "@) && ends_with(o4, name.sql())
            &&& starts_with(o5, "ENABLE ALWAYS TRIGGER "@) && ends_with(o5, name.sql())
            &&& starts_with(o6, "ENABLE REPLICA RULE "@) && ends_with(o6, name.sql())
            &&& starts_with(o7, "ENABLE REPLICA TRIGGER "@) && ends_with(o7, name.sql())
            &&& starts_with(o8, "ENABLE RULE "@) && ends_with(o8, name.sql())
            &&& starts_with(o9, "ENABLE TRIGGER "@) && ends_with(o9, name.sql())
            &&& starts_with(o10, "VALIDATE CONSTRAINT "@) && ends_with(o10, name.sql())
        }),
{
    let o0 = (AlterTableOperation::DisableRule { name }).sql();
    lemma_starts(o0, "DISABLE RULE "@, name.sql());
    lemma_ends(o0, "DISABLE RULE "@, name.sql());
    let o1 = (AlterTableOperation::DisableTrigger { name }).sql();
    lemma_starts(o1, "DISABLE TRIGGER "@, name.sql());
    lemma_ends(o1, "DISABLE TRIGGER "@, name.sql());
    let o2 = (AlterTableOperation::DropForeignKey { name }).sql();
    lemma_starts(o2, "DROP FOREIGN KEY "@, name.sql());
    lemma_ends(o2, "DROP FOREIGN KEY "@, name.sql());
    let o3 = (AlterTableOperation::DropIndex { name }).sql();
    lemma_starts(o3, "DROP INDEX "@, name.sql());
    lemma_ends(o3, "DROP INDEX "@, name.sql());
    let o4 = (AlterTableOperation::EnableAlwaysRule { name }).sql();
    lemma_starts(o4, "ENABLE ALWAYS RULE "@, name.sql());
    lemma_ends(o4, "ENABLE ALWAYS RULE "@, name.sql());
    let o5 = (AlterTableOperation::EnableAlwaysTrigger { name }).sql();
    lemma_starts(o5, "ENABLE ALWAYS TRIGGER "@, name.sql());
    lemma_ends(o5, "ENABLE ALWAYS TRIGGER "@, name.sql());
    let o6 = (AlterTableOperation::EnableReplicaRule { name }).sql();
    lemma_starts(o6, "ENABLE REPLICA RULE "@, name.sql());
    lemma_ends(o6, "ENABLE REPLICA RULE "@, name.sql());
    let o7 = (AlterTableOperation::EnableReplicaTrigger { name }).sql();
    lemma_starts(o7, "ENABLE REPLICA TRIGGER "@, name.sql());
    lemma_ends(o7, "ENABLE REPLICA TRIGGER "@, name.sql());
    let o8 = (AlterTableOperation::EnableRule { name }).sql();
    lemma_starts(o8, "ENABLE RULE "@, name.sql());
    lemma_ends(o8, "ENABLE RULE "@, name.sql());
    let o9 = (AlterTableOperation::EnableTrigger { name }).sql();
    lemma_starts(o9, "ENABLE TRIGGER "@, name.sql());
    lemma_ends(o9, "ENABLE TRIGGER "@, name.sql());
    let o10 = (AlterTableOperation::ValidateConstraint { name }).sql();
    lemma_starts(o10, "VALIDATE CONSTRAINT "@, name.sql());
    lemma_ends(o10, "VALIDATE CONSTRAINT "@, name.sql());
}

/// Renaming writes the old name after its keywords and ends with ` TO ` and the new name;
/// the operations that name another table, an owner, a partition, a replica identity or
/// a column operation end with what they name.
#[verifier::spinoff_prover]
#[verifier::rlimit(60)]
pub proof fn target_operations_end_with_their_target(
    old_name: Ident,
    new_name: Ident,
    table_name: ObjectName,
    new_owner: Owner,
    partition: Partition,
    identity: ReplicaIdentity,
    op: AlterColumnOperation,
)
    ensures
        ({
            let rc = (AlterTableOperation::RenameColumn {
                old_column_name: old_name,
                new_column_name: new_name,
            }).sql();
            let rn = (AlterTableOperation::RenameConstraint { old_name, new_name }).sql();
            let rt = (AlterTableOperation::RenameTable { table_name }).sql();
            let sw = (AlterTableOperation::SwapWith { table_name }).sql();
            let ow = (AlterTableOperation::OwnerTo { new_owner }).sql();
            let at = (AlterTableOperation::AttachPartition { partition }).sql();
            let dt = (AlterTableOperation::DetachPartition { partition }).sql();
            let ri = (AlterTableOperation::ReplicaIdentity { identity }).sql();
            let ac = (AlterTableOperation::AlterColumn { column_name: old_name, op }).sql();
            &&& starts_with(rc, "RENAME COLUMN "@ + old_name.sql())
            &&& ends_with(rc, " TO "@ + new_name.sql())
            &&& starts_with(rn, "RENAME CONSTRAINT "@ + old_name.sql())
            &&& ends_with(rn, " TO "@ + new_name.sql())
            &&& starts_with(rt, "RENAME TO "@) && ends_with(rt, table_name.sql())
            &&& starts_with(sw, "SWAP WITH "@) && ends_with(sw, table_name.sql())
            &&& starts_with(ow, "OWNER TO "@) && ends_with(ow, new_owner.sql())
            &&& starts_with(at, "ATTACH "@) && ends_with(at, partition.sql())
            &&& starts_with(dt, "DETACH "@) && ends_with(dt, partition.sql())
            &&& starts_with(ri, "REPLICA IDENTITY "@) && ends_with(ri, identity.sql())
            &&& starts_with(ac, "ALTER COLUMN "@ + old_name.sql())
            &&& ends_with(ac, " "@ + op.sql())
        }),
{
    let rc = (AlterTableOperation::RenameColumn {
        old_column_name: old_name,
        new_column_name: new_name,
    }).sql();
    lemma_starts(rc, "RENAME COLUMN "@ + old_name.sql(), " TO "@ + new_name.sql());
    lemma_ends(rc, "RENAME COLUMN "@ + old_name.sql(), " TO "@ + new_name.sql());
    let rn = (AlterTableOperation::RenameConstraint { old_name, new_name }).sql();
    lemma_starts(rn, "RENAME CONSTRAINT "@ + old_name.sql(), " TO "@ + new_name.sql());
    lemma_ends(rn, "RENAME CONSTRAINT "@ + old_name.sql(), " TO "@ + new_name.sql());
    let rt = (AlterTableOperation::RenameTable { table_name }).sql();
    lemma_starts(rt, "RENAME TO "@, table_name.sql());
    lemma_ends(rt, "RENAME TO "@, table_name.sql());
    let sw = (AlterTableOperation::SwapWith { table_name }).sql();
    lemma_starts(sw, "SWAP WITH "@, table_name.sql());
    lemma_ends(sw, "SWAP WITH "@, table_name.sql());
    let ow = (AlterTableOperation::OwnerTo { new_owner }).sql();
    lemma_starts(ow, "OWNER TO "@, new_owner.sql());
    lemma_ends(ow, "OWNER TO "@, new_owner.sql());
    let at = (AlterTableOperation::AttachPartition { partition }).sql();
    lemma_starts(at, "ATTACH "@, partition.sql());
    lemma_ends(at, "ATTACH "@, partition.sql());
    let dt = (AlterTableOperation::DetachPartition { partition }).sql();
    lemma_starts(dt, "DETACH "@, partition.sql());
    lemma_ends(dt, "DETACH "@, partition.sql());
    let ri = (AlterTableOperation::ReplicaIdentity { identity }).sql();
    lemma_starts(ri, "REPLICA IDENTITY "@, identity.sql());
    lemma_ends(ri, "REPLICA IDENTITY "@, identity.sql());
    let ac = (AlterTableOperation::AlterColumn { column_name: old_name, op }).sql();
    lemma_starts(ac, "ALTER COLUMN "@ + old_name.sql(), " "@ + op.sql());
    lemma_ends(ac, "ALTER COLUMN "@ + old_name.sql(), " "@ + op.sql());
}

/// Operations that carry a list write it in full: the partitions to add (separated by
/// spaces, last), the partitions to drop or rename (in parentheses, separated by commas),
/// the table properties, the clustering expressions and the options (in parentheses,
/// last); `ADD PROJECTION` ends with the projection's query in parentheses after its name,
/// and `DROP PROJECTION` ends with the name.
#[verifier::spinoff_prover]
#[verifier::rlimit(60)]
pub proof fn list_operations_show_their_lists(
    if_exists: bool,
    new_partitions: Vec<Partition>,
    partitions: Vec<Expr>,
    old_partitions: Vec<Expr>,
    table_properties: Vec<SqlOption>,
    exprs: Vec<Expr>,
    options: Vec<SqlOption>,
    name: Ident,
    select: ProjectionSelect,
)
    ensures
        ({
            let ap = (AlterTableOperation::AddPartitions {
                if_not_exists: if_exists,
                new_partitions,
            }).sql();
            let dp = (AlterTableOperation::DropPartitions { partitions, if_exists }).sql();
            let rp = (AlterTableOperation::RenamePartitions {
                old_partitions,
                new_partitions: partitions,
            }).sql();
            let tp = (AlterTableOperation::SetTblProperties { table_properties }).sql();
            let cb = (AlterTableOperation::ClusterBy { exprs }).sql();
            let so = (AlterTableOperation::SetOptionsParens { options }).sql();
            let aj = (AlterTableOperation::AddProjection {
                if_not_exists: if_exists,
                name,
                select,
            }).sql();
            let dj = (AlterTableOperation::DropProjection { if_exists, name }).sql();
            &&& starts_with(ap, "ADD"@)
            &&& ends_with(ap, " "@ + separated(new_partitions@, " "@))
            &&& starts_with(dp, "DROP"@)
            &&& ends_with(dp, " PARTITION ("@ + comma_separated(partitions@) + ")"@)
            &&& rp == "PARTITION ("@ + comma_separated(old_partitions@)
                + ") RENAME TO PARTITION ("@ + comma_separated(partitions@) + ")"@
            &&& tp == "SET TBLPROPERTIES("@ + comma_separated(table_properties@) + ")"@
            &&& cb == "CLUSTER BY ("@ + comma_separated(exprs@) + ")"@
            &&& so == "SET ("@ + comma_separated(options@) + ")"@
            &&& starts_with(aj, "ADD PROJECTION"@)
            &&& contains_text(aj, " "@ + name.sql())
            &&& ends_with(aj, " ("@ + select.sql() + ")"@)
            &&& starts_with(dj, "DROP PROJECTION"@)
            &&& ends_with(dj, " "@ + name.sql())
        }),
{
    let ie = if_text(if_exists, " IF EXISTS"@);
    let ine = if_text(if_exists, " IF NOT EXISTS"@);
    let ap = (AlterTableOperation::AddPartitions {
        if_not_exists: if_exists,
        new_partitions,
    }).sql();
    lemma_starts(ap, "ADD"@, ine + (" "@ + separated(new_partitions@, " "@)));
    lemma_ends(ap, "ADD"@ + ine, " "@ + separated(new_partitions@, " "@));
    let dp = (AlterTableOperation::DropPartitions { partitions, if_exists }).sql();
    let pl = " PARTITION ("@ + comma_separated(partitions@) + ")"@;
    lemma_starts(dp, "DROP"@, ie + pl);
    lemma_ends(dp, "DROP"@ + ie, pl);
    let aj = (AlterTableOperation::AddProjection {
        if_not_exists: if_exists,
        name,
        select,
    }).sql();
    let q = " ("@ + select.sql() + ")"@;
    lemma_starts(aj, "ADD PROJECTION"@, ine + (" "@ + name.sql()) + q);
    lemma_has(aj, "ADD PROJECTION"@ + ine, " "@ + name.sql(), q);
    lemma_ends(aj, "ADD PROJECTION"@ + ine + (" "@ + name.sql()), q);
    let dj = (AlterTableOperation::DropProjection { if_exists, name }).sql();
    lemma_starts(dj, "DROP PROJECTION"@, ie + (" "@ + name.sql()));
    lemma_ends(dj, "DROP PROJECTION"@ + ie, " "@ + name.sql());
}

/// Changing a column's default ends with the new default; changing its type writes
/// `SET DATA TYPE ` or `TYPE ` as given, then the type, and ends with the conversion
/// after ` USING ` when one is given; adding an identity writes `ADD GENERATED`, the
/// generation mode, ` AS IDENTITY`, and ends with the sequence options in parentheses
/// when they are given.
#[verifier::spinoff_prover]
#[verifier::rlimit(60)]
pub proof fn column_operations_show_their_parts(
    value: Expr,
    data_type: DataType,
    using: Option<Expr>,
    had_set: bool,
    generated_as: Option<GeneratedAs>,
    sequence_options: Option<Vec<SequenceOptions>>,
)
    ensures
        ({
            let sd = (AlterColumnOperation::SetDefault { value }).sql();
            let st = (AlterColumnOperation::SetDataType { data_type, using, had_set }).sql();
            let ag = (AlterColumnOperation::AddGenerated { generated_as, sequence_options }).sql();
            let mode = match generated_as {
                Some(GeneratedAs::Always) => " ALWAYS"@,
                Some(GeneratedAs::ByDefault) => " BY DEFAULT"@,
                _ => Seq::empty(),
            };
            &&& starts_with(sd, "SET DEFAULT "@) && ends_with(sd, value.sql())
            &&& had_set ==> starts_with(st, "SET DATA TYPE "@ + data_type.sql())
            &&& !had_set ==> starts_with(st, "TYPE "@ + data_type.sql())
            &&& (using is Some ==> ends_with(st, " USING "@ + using.unwrap().sql()))
            &&& (using is None ==> ends_with(st, "TYPE "@ + data_type.sql()))
            &&& starts_with(ag, "ADD GENERATED"@ + mode + " AS IDENTITY"@)
            &&& (sequence_options is Some ==> ends_with(
                ag,
                " ("@ + concatenated(sequence_options.unwrap()@) + " )"@,
            ))
            &&& (sequence_options is None ==> ag == "ADD GENERATED"@ + mode + " AS IDENTITY"@)
        }),
{
    let sd = (AlterColumnOperation::SetDefault { value }).sql();
    lemma_starts(sd, "SET DEFAULT "@, value.sql());
    lemma_ends(sd, "SET DEFAULT "@, value.sql());
    let st = (AlterColumnOperation::SetDataType { data_type, using, had_set }).sql();
    let hs = if_text(had_set, "SET DATA "@);
    let ty = "TYPE "@ + data_type.sql();
    let us = option_text(" USING "@, Seq::empty(), using);
    assert(st =~= hs + ty + us);
    if had_set {
        assert("SET DATA "@ + ty =~= "SET DATA TYPE "@ + data_type.sql()) by {
            reveal_strlit("SET DATA ");
            reveal_strlit("TYPE ");
            reveal_strlit("SET DATA TYPE ");
        }
        assert(st =~= ("SET DATA "@ + ty) + us);
        lemma_starts(st, "SET DATA "@ + ty, us);
    } else {
        assert(st =~= ty + us);
        lemma_starts(st, ty, us);
    }
    if let Some(u) = using {
        lemma_ends(st, hs + ty, " USING "@ + u.sql());
    } else {
        lemma_ends(st, hs, ty);
    }
    let ag = (AlterColumnOperation::AddGenerated { generated_as, sequence_options }).sql();
    let mode = match generated_as {
        Some(GeneratedAs::Always) => " ALWAYS"@,
        Some(GeneratedAs::ByDefault) => " BY DEFAULT"@,
        _ => Seq::<char>::empty(),
    };
    let h = "ADD GENERATED"@ + mode + " AS IDENTITY"@;
    let so = match sequence_options {
        Some(options) => " ("@ + concatenated(options@) + " )"@,
        None => Seq::<char>::empty(),
    };
    assert(ag == h + so);
    lemma_starts(ag, h, so);
    lemma_ends(ag, h, so);
    assert(sequence_options is None ==> ag =~= h);
}

/// Renaming a type or an index ends with the new name; renaming a value writes the old
/// value after `RENAME VALUE ` and ends with ` TO ` and the new one; adding a value writes
/// it after `ADD VALUE` and ends with its position (` BEFORE ` or ` AFTER ` a
/// neighbour) when one is given, and with the value otherwise.
#[verifier::spinoff_prover]
#[verifier::rlimit(60)]
pub proof fn type_and_index_operations_show_their_parts(
    name: Ident,
    other: Ident,
    index_name: ObjectName,
    if_not_exists: bool,
    position: Option<AlterTypeAddValuePosition>,
)
    ensures
        ({
            let rt = AlterTypeOperation::Rename(AlterTypeRename { new_name: name }).sql();
            let rv = AlterTypeOperation::RenameValue(AlterTypeRenameValue { from: name, to: other }).sql();
            let av = AlterTypeOperation::AddValue(AlterTypeAddValue {
                if_not_exists,
                value: name,
                position,
            }).sql();
            let ri = (AlterIndexOperation::RenameIndex { index_name }).sql();
            &&& starts_with(rt, "RENAME TO "@) && ends_with(rt, name.sql())
            &&& starts_with(rv, "RENAME VALUE "@ + name.sql()) && ends_with(rv, " TO "@ + other.sql())
            &&& starts_with(av, "ADD VALUE"@)
            &&& contains_text(av, " "@ + name.sql())
            &&& (position == Some(AlterTypeAddValuePosition::Before(other)) ==> ends_with(
                av,
                " BEFORE "@ + other.sql(),
            ))
            &&& (position == Some(AlterTypeAddValuePosition::After(other)) ==> ends_with(
                av,
                " AFTER "@ + other.sql(),
            ))
            &&& (position is None ==> ends_with(av, " "@ + name.sql()))
            &&& starts_with(ri, "RENAME TO "@) && ends_with(ri, index_name.sql())
        }),
{
    let rt = AlterTypeOperation::Rename(AlterTypeRename { new_name: name }).sql();
    lemma_starts(rt, "RENAME TO "@, name.sql());
    lemma_ends(rt, "RENAME TO "@, name.sql());
    let rv = AlterTypeOperation::RenameValue(AlterTypeRenameValue { from: name, to: other }).sql();
    lemma_starts(rv, "RENAME VALUE "@ + name.sql(), " TO "@ + other.sql());
    lemma_ends(rv, "RENAME VALUE "@ + name.sql(), " TO "@ + other.sql());
    let av = AlterTypeOperation::AddValue(AlterTypeAddValue {
        if_not_exists,
        value: name,
        position,
    }).sql();
    let ie = if_text(if_not_exists, " IF NOT EXISTS"@);
    let v = " "@ + name.sql();
    let pos = match position {
        Some(AlterTypeAddValuePosition::Before(n)) => " BEFORE "@ + n.sql(),
        Some(AlterTypeAddValuePosition::After(n)) => " AFTER "@ + n.sql(),
        None => Seq::<char>::empty(),
    };
    assert(av =~= "ADD VALUE"@ + ie + v + pos);
    lemma_starts(av, "ADD VALUE"@, ie + v + pos);
    lemma_has(av, "ADD VALUE"@ + ie, v, pos);
    lemma_ends(av, "ADD VALUE"@ + ie + v, pos);
    if position is None {
        lemma_ends(av, "ADD VALUE"@ + ie, v);
    }
    let ri = (AlterIndexOperation::RenameIndex { index_name }).sql();
    lemma_starts(ri, "RENAME TO "@, index_name.sql());
    lemma_ends(ri, "RENAME TO "@, index_name.sql());
}

/// A policy change writes each part it carries: the new name after ` RENAME TO `; the
/// roles after ` TO ` and separated by commas (first), the `USING` expression in
/// parentheses, and the `WITH CHECK` expression in parentheses (last). A connector's
/// owner is written after `USER ` or `ROLE `.
#[verifier::spinoff_prover]
#[verifier::rlimit(60)]
pub proof fn policy_and_owner_operations_show_their_parts(
    new_name: Ident,
    to: Option<Vec<Owner>>,
    using: Option<Expr>,
    with_check: Option<Expr>,
)
    ensures
        ({
            let rn = (AlterPolicyOperation::Rename { new_name }).sql();
            let ap = (AlterPolicyOperation::Apply { to, using, with_check }).sql();
            &&& starts_with(rn, " RENAME TO "@) && ends_with(rn, new_name.sql())
            &&& (to is Some ==> starts_with(ap, " TO "@ + comma_separated(to.unwrap()@)))
            &&& (using is Some ==> contains_text(ap, " USING ("@ + using.unwrap().sql() + ")"@))
            &&& (with_check is Some ==> ends_with(
                ap,
                " WITH CHECK ("@ + with_check.unwrap().sql() + ")"@,
            ))
            &&& (using is Some && with_check is None ==> ends_with(
                ap,
                " USING ("@ + using.unwrap().sql() + ")"@,
            ))
            &&& AlterConnectorOwner::User(new_name).sql() == "USER "@ + new_name.sql()
            &&& AlterConnectorOwner::Role(new_name).sql() == "ROLE "@ + new_name.sql()
        }),
{
    let rn = (AlterPolicyOperation::Rename { new_name }).sql();
    lemma_starts(rn, " RENAME TO "@, new_name.sql());
    lemma_ends(rn, " RENAME TO "@, new_name.sql());
    let ap = (AlterPolicyOperation::Apply { to, using, with_check }).sql();
    let t = match to {
        Some(owners) => " TO "@ + comma_separated(owners@),
        None => Seq::<char>::empty(),
    };
    let u = option_text(" USING ("@, ")"@, using);
    let w = option_text(" WITH CHECK ("@, ")"@, with_check);
    assert(ap == t + u + w);
    assert(ap =~= t + (u + w));
    lemma_starts(ap, t, u + w);
    lemma_has(ap, t, u, w);
    lemma_ends(ap, t + u, w);
    if with_check is None {
        lemma_ends(ap, t, u);
        assert(ap =~= t + u);
    }
}

/// A replica identity by index writes `USING INDEX ` and ends with the index's name; the
/// other replica identities are the distinct keywords `NOTHING`, `FULL` and `DEFAULT`. An
/// owner given by name is written as that name.
#[verifier::spinoff_prover]
#[verifier::rlimit(60)]
pub proof fn replica_identity_and_owner_show_their_parts(idx: Ident)
    ensures
        starts_with(ReplicaIdentity::Index(idx).sql(), "USING INDEX "@),
        ends_with(ReplicaIdentity::Index(idx).sql(), idx.sql()),
        ReplicaIdentity::Nothing.sql() == "NOTHING"@,
        ReplicaIdentity::Full.sql() == "FULL"@,
        ReplicaIdentity::Default.sql() == "DEFAULT"@,
        ReplicaIdentity::Nothing.sql() != ReplicaIdentity::Full.sql(),
        ReplicaIdentity::Nothing.sql() != ReplicaIdentity::Default.sql(),
        ReplicaIdentity::Full.sql() != ReplicaIdentity::Default.sql(),
        Owner::Ident(idx).sql() == idx.sql(),
{
    lemma_starts(ReplicaIdentity::Index(idx).sql(), "USING INDEX "@, idx.sql());
    lemma_ends(ReplicaIdentity::Index(idx).sql(), "USING INDEX "@, idx.sql());
    reveal_strlit("NOTHING");
    reveal_strlit("FULL");
    reveal_strlit("DEFAULT");
    assert("NOTHING"@.len() == 7 && "FULL"@.len() == 4 && "DEFAULT"@.len() == 7);
    assert("NOTHING"@[0] == 'N' && "DEFAULT"@[0] == 'D');
}

/// The optional words of an operation are written exactly when their flags are set:
/// ` COLUMN` and ` IF NOT EXISTS` after `ADD`, ` IF NOT EXISTS` after `ADD PROJECTION`,
/// `ADD VALUE` and the `ADD` of partitions, ` IF EXISTS` after `DROP PROJECTION` and the
/// `DROP` of partitions, `IF EXISTS ` after `DROP CONSTRAINT `, and `COLUMN ` and
/// `IF EXISTS ` after `DROP `; each is followed by what the operation acts on.
#[verifier::spinoff_prover]
#[verifier::rlimit(60)]
pub proof fn operation_flags_are_written(
    column_keyword: bool,
    flag: bool,
    column_def: ColumnDef,
    column_position: Option<MySQLColumnPosition>,
    name: Ident,
    select: ProjectionSelect,
    new_partitions: Vec<Partition>,
    partitions: Vec<Expr>,
    drop_behavior: Option<DropBehavior>,
    column_names: Vec<Ident>,
    position: Option<AlterTypeAddValuePosition>,
)
    ensures
        ({
            let ck = if column_keyword { " COLUMN"@ } else { Seq::empty() };
            let ine = if flag { " IF NOT EXISTS"@ } else { Seq::empty() };
            let ie = if flag { " IF EXISTS"@ } else { Seq::empty() };
            let ie2 = if flag { "IF EXISTS "@ } else { Seq::empty() };
            let ck2 = if column_keyword { "COLUMN "@ } else { Seq::empty() };
            let ac = (AlterTableOperation::AddColumn {
                column_keyword,
                if_not_exists: flag,
                column_def,
                column_position,
            }).sql();
            let ap = (AlterTableOperation::AddProjection { if_not_exists: flag, name, select }).sql();
            let dp = (AlterTableOperation::DropProjection { if_exists: flag, name }).sql();
            let an = (AlterTableOperation::AddPartitions { if_not_exists: flag, new_partitions }).sql();
            let dn = (AlterTableOperation::DropPartitions { partitions, if_exists: flag }).sql();
            let dc = (AlterTableOperation::DropConstraint { if_exists: flag, name, drop_behavior }).sql();
            let dl = (AlterTableOperation::DropColumn {
                has_column_keyword: column_keyword,
                column_names,
                if_exists: flag,
                drop_behavior,
            }).sql();
            let av = AlterTypeOperation::AddValue(AlterTypeAddValue {
                if_not_exists: flag,
                value: name,
                position,
            }).sql();
            &&& starts_with(ac, "ADD"@ + ck + ine + " "@ + column_def.sql())
            &&& starts_with(ap, "ADD PROJECTION"@ + ine + " "@ + name.sql())
            &&& dp == "DROP PROJECTION"@ + ie + " "@ + name.sql()
            &&& an == "ADD"@ + ine + " "@ + separated(new_partitions@, " "@)
            &&& starts_with(dn, "DROP"@ + ie + " PARTITION ("@)
            &&& starts_with(dc, "DROP CONSTRAINT "@ + ie2 + name.sql())
            &&& starts_with(dl, "DROP "@ + ck2 + ie2 + comma_separated(column_names@))
            &&& starts_with(av, "ADD VALUE"@ + ine + " "@ + name.sql())
        }),
{
    let ck = if_text(column_keyword, " COLUMN"@);
    let ine = if_text(flag, " IF NOT EXISTS"@);
    let ie = if_text(flag, " IF EXISTS"@);
    let ie2 = if_text(flag, "IF EXISTS "@);
    let ck2 = if_text(column_keyword, "COLUMN "@);
    let ac = (AlterTableOperation::AddColumn {
        column_keyword,
        if_not_exists: flag,
        column_def,
        column_position,
    }).sql();
    lemma_starts(ac, "ADD"@ + ck + ine + " "@ + column_def.sql(), option_text(" "@, Seq::empty(), column_position));
    let ap = (AlterTableOperation::AddProjection { if_not_exists: flag, name, select }).sql();
    lemma_starts(ap, "ADD PROJECTION"@ + ine + " "@ + name.sql(), " ("@ + select.sql() + ")"@);
    let dn = (AlterTableOperation::DropPartitions { partitions, if_exists: flag }).sql();
    assert(dn =~= "DROP"@ + ie + " PARTITION ("@ + (comma_separated(partitions@) + ")"@));
    lemma_starts(dn, "DROP"@ + ie + " PARTITION ("@, comma_separated(partitions@) + ")"@);
    let dc = (AlterTableOperation::DropConstraint { if_exists: flag, name, drop_behavior }).sql();
    lemma_starts(dc, "DROP CONSTRAINT "@ + ie2 + name.sql(), drop_behavior_text(drop_behavior));
    let dl = (AlterTableOperation::DropColumn {
        has_column_keyword: column_keyword,
        column_names,
        if_exists: flag,
        drop_behavior,
    }).sql();
    lemma_starts(dl, "DROP "@ + ck2 + ie2 + comma_separated(column_names@), drop_behavior_text(drop_behavior));
    let av = AlterTypeOperation::AddValue(AlterTypeAddValue {
        if_not_exists: flag,
        value: name,
        position,
    }).sql();
    let pos = match position {
        Some(AlterTypeAddValuePosition::Before(n)) => " BEFORE "@ + n.sql(),
        Some(AlterTypeAddValuePosition::After(n)) => " AFTER "@ + n.sql(),
        None => Seq::<char>::empty(),
    };
    lemma_starts(av, "ADD VALUE"@ + ine + " "@ + name.sql(), pos);
}

/// The operations that carry nothing are written as their keywords alone, and each such
/// keyword is distinct from the others of its kind (`ENABLE` and `DISABLE` row level
/// security differ in their first word).
#[verifier::spinoff_prover]
#[verifier::rlimit(60)]
pub proof fn bare_operations_are_their_keywords()
    ensures
        AlterTableOperation::DisableRowLevelSecurity.sql() == "DISABLE ROW LEVEL SECURITY"@,
        AlterTableOperation::EnableRowLevelSecurity.sql() == "ENABLE ROW LEVEL SECURITY"@,
        AlterTableOperation::DropPrimaryKey.sql() == "DROP PRIMARY KEY"@,
        AlterTableOperation::DropClusteringKey.sql() == "DROP CLUSTERING KEY"@,
        AlterTableOperation::SuspendRecluster.sql() == "SUSPEND RECLUSTER"@,
        AlterTableOperation::ResumeRecluster.sql() == "RESUME RECLUSTER"@,
        AlterTableOperation::DisableRowLevelSecurity.sql()
            != AlterTableOperation::EnableRowLevelSecurity.sql(),
        AlterTableOperation::SuspendRecluster.sql() != AlterTableOperation::ResumeRecluster.sql(),
        AlterColumnOperation::SetNotNull.sql() == "SET NOT NULL"@,
        AlterColumnOperation::DropNotNull.sql() == "DROP NOT NULL"@,
        AlterColumnOperation::DropDefault.sql() == "DROP DEFAULT"@,
{
    reveal_strlit("DISABLE ROW LEVEL SECURITY");
    reveal_strlit("ENABLE ROW LEVEL SECURITY");
    reveal_strlit("SUSPEND RECLUSTER");
    reveal_strlit("RESUME RECLUSTER");
    assert("DISABLE ROW LEVEL SECURITY"@[0] != "ENABLE ROW LEVEL SECURITY"@[0]);
    assert("SUSPEND RECLUSTER"@[0] != "RESUME RECLUSTER"@[0]);
}

/// Distinct `ALTER TABLE` algorithms render as distinct keywords.
#[verifier::spinoff_prover]
#[verifier::rlimit(60)]
pub proof fn algorithm_sql_injective(a: AlterTableAlgorithm, b: AlterTableAlgorithm)
    requires
        a.sql() == b.sql(),
    ensures
        a == b,
{
    reveal_strlit("DEFAULT");
    reveal_strlit("INSTANT");
    reveal_strlit("INPLACE");
    reveal_strlit("COPY");
    assert("DEFAULT"@.len() == 7 && "DEFAULT"@[0] == 'D');
    assert("INSTANT"@.len() == 7 && "INSTANT"@[0] == 'I' && "INSTANT"@[2] == 'S');
    assert("INPLACE"@.len() == 7 && "INPLACE"@[0] == 'I' && "INPLACE"@[2] == 'P');
    assert("COPY"@.len() == 4);
    if a != b {
        assert(a.sql().len() != b.sql().len() || a.sql()[0] != b.sql()[0] || a.sql()[2]
            != b.sql()[2]);
    }
}

/// Distinct `ALTER TABLE` locks render as distinct keywords.
#[verifier::spinoff_prover]
#[verifier::rlimit(60)]
pub proof fn lock_sql_injective(a: AlterTableLock, b: AlterTableLock)
    requires
        a.sql() == b.sql(),
    ensures
        a == b,
{
    reveal_strlit("DEFAULT");
    reveal_strlit("NONE");
    reveal_strlit("SHARED");
    reveal_strlit("EXCLUSIVE");
    assert("DEFAULT"@.len() == 7);
    assert("NONE"@.len() == 4);
    assert("SHARED"@.len() == 6);
    assert("EXCLUSIVE"@.len() == 9);
    if a != b {
        assert(a.sql().len() != b.sql().len());
    }
}

} // verus!
