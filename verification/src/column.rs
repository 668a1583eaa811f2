//! Column definitions and column options.
use vstd::prelude::*;
use vstd::string::*;

use crate::constraint::{
    append_foreign_key_tail, foreign_key_tail, ConstraintCharacteristics, ReferentialAction,
};
use crate::fragment::{
    ArgMode, DataType, Expr, Ident, Keyword, ObjectName, SequenceOptions, SqlOption, Tag, Token,
};
use crate::text::{
    contains_text, ends_with, lemma_ends, lemma_has, lemma_starts, starts_with,
    all_displayable, append_each_prefixed, append_sql, comma_separated, concatenated,
    display_comma_separated, display_concatenated, display_separated, each_prefixed,
    escape_single_quote_string, escape_single_quoted, if_text, option_displayable, option_text,
    separated, SqlDisplay,
};

verus! {

/// A parameter of a procedure: `[mode] <name> <data_type>`.
#[derive(Debug, Clone, PartialEq, PartialOrd, Eq, Ord, Hash)]
pub struct ProcedureParam {
    pub name: Ident,
    pub data_type: DataType,
    pub mode: Option<ArgMode>,
}

impl SqlDisplay for ProcedureParam {
    open spec fn displayable(&self) -> bool {
        self.name.displayable()
    }

    open spec fn sql(&self) -> Seq<char> {
        option_text(Seq::empty(), " "@, self.mode) + self.name.sql() + " "@ + self.data_type.sql()
    }

    fn to_string(&self) -> (s: String) {
        let mut s = String::new();
        if let Some(mode) = &self.mode {
            append_sql(&mut s, mode);
            s.append(" ");
        }
        append_sql(&mut s, &self.name);
        s.append(" ");
        append_sql(&mut s, &self.data_type);
        s
    }
}

/// SQL column definition
#[derive(Debug, Clone, PartialEq, PartialOrd, Eq, Ord, Hash)]
pub struct ColumnDef {
    pub name: Ident,
    pub data_type: DataType,
    pub options: Vec<ColumnOptionDef>,
}

impl SqlDisplay for ColumnDef {
    open spec fn displayable(&self) -> bool {
        self.name.displayable() && all_displayable(self.options@)
    }

    /// The name, then the data type unless it is unspecified, then each option after a
    /// space.
    open spec fn sql(&self) -> Seq<char> {
        self.name.sql() + match self.data_type {
            DataType::Unspecified => Seq::empty(),
            _ => " "@ + self.data_type.sql(),
        } + each_prefixed(self.options@, " "@)
    }

    fn to_string(&self) -> (s: String) {
        let mut s = String::new();
        append_sql(&mut s, &self.name);
        match &self.data_type {
            DataType::Unspecified => {},
            _ => {
                s.append(" ");
                append_sql(&mut s, &self.data_type);
            },
        }
        append_each_prefixed(&mut s, &self.options, " ");
        s
    }
}

/// Column definition specified in a `CREATE VIEW` statement:
/// `<name> [data_type][OPTIONS(option, ...)]`
#[derive(Debug, Clone, PartialEq, PartialOrd, Eq, Ord, Hash)]
pub struct ViewColumnDef {
    pub name: Ident,
    pub data_type: Option<DataType>,
    pub options: Option<ColumnOptions>,
}

/// The options of a view column, with how they are separated.
#[derive(Debug, Clone, PartialEq, PartialOrd, Eq, Ord, Hash)]
pub enum ColumnOptions {
    CommaSeparated(Vec<ColumnOption>),
    SpaceSeparated(Vec<ColumnOption>),
}

impl ColumnOptions {
    /// The options, whichever way they are separated.
    pub open spec fn options(self) -> Seq<ColumnOption> {
        match self {
            ColumnOptions::CommaSeparated(options) => options@,
            ColumnOptions::SpaceSeparated(options) => options@,
        }
    }

    /// The options, whichever way they are separated.
    pub fn as_slice(&self) -> (r: &[ColumnOption])
        ensures
            r@ == self.options(),
    {
        match self {
            ColumnOptions::CommaSeparated(options) => options.as_slice(),
            ColumnOptions::SpaceSeparated(options) => options.as_slice(),
        }
    }

    /// The options, separated as the variant says.
    pub open spec fn sql(self) -> Seq<char> {
        match self {
            ColumnOptions::CommaSeparated(options) => comma_separated(options@),
            ColumnOptions::SpaceSeparated(options) => separated(options@, " "@),
        }
    }
}

impl SqlDisplay for ViewColumnDef {
    open spec fn displayable(&self) -> bool {
        self.name.displayable() && match self.options {
            Some(options) => all_displayable(options.options()),
            None => true,
        }
    }

    open spec fn sql(&self) -> Seq<char> {
        self.name.sql() + option_text(" "@, Seq::empty(), self.data_type) + match self.options {
            Some(options) => " "@ + options.sql(),
            None => Seq::empty(),
        }
    }

    fn to_string(&self) -> (s: String) {
        let mut s = String::new();
        append_sql(&mut s, &self.name);
        if let Some(data_type) = &self.data_type {
            s.append(" ");
            append_sql(&mut s, data_type);
        }
        if let Some(options) = &self.options {
            match options {
                ColumnOptions::CommaSeparated(column_options) => {
                    s.append(" ");
                    s.append(display_comma_separated(column_options).as_str());
                },
                ColumnOptions::SpaceSeparated(column_options) => {
                    s.append(" ");
                    s.append(display_separated(column_options, " ").as_str());
                },
            }
        }
        s
    }
}

/// An optionally-named `ColumnOption`: `[ CONSTRAINT <name> ] <column-option>`.
#[derive(Debug, Clone, PartialEq, PartialOrd, Eq, Ord, Hash)]
pub struct ColumnOptionDef {
    pub name: Option<Ident>,
    pub option: ColumnOption,
}

impl SqlDisplay for ColumnOptionDef {
    open spec fn displayable(&self) -> bool {
        option_displayable(self.name) && self.option.displayable()
    }

    open spec fn sql(&self) -> Seq<char> {
        crate::constraint::constraint_name_text(self.name) + self.option.sql()
    }

    fn to_string(&self) -> (s: String) {
        let mut s = crate::constraint::display_constraint_name(&self.name);
        append_sql(&mut s, &self.option);
        s
    }
}

/// An identity or autoincrement column property:
/// `{ IDENTITY | AUTOINCREMENT } [ (seed , increment) | START num INCREMENT num ] [ ORDER | NOORDER ]`
#[derive(Debug, Clone, PartialEq, PartialOrd, Eq, Ord, Hash)]
pub enum IdentityPropertyKind {
    /// Declared with the `AUTOINCREMENT` key word.
    Autoincrement(IdentityProperty),
    /// Declared with the `IDENTITY` key word.
    Identity(IdentityProperty),
}

#[derive(Debug, Clone, PartialEq, PartialOrd, Eq, Ord, Hash)]
pub struct IdentityProperty {
    pub parameters: Option<IdentityPropertyFormatKind>,
    pub order: Option<IdentityPropertyOrder>,
}

impl SqlDisplay for IdentityPropertyKind {
    open spec fn displayable(&self) -> bool {
        true
    }

    open spec fn sql(&self) -> Seq<char> {
        let (command, property) = match self {
            IdentityPropertyKind::Identity(property) => ("IDENTITY"@, property),
            IdentityPropertyKind::Autoincrement(property) => ("AUTOINCREMENT"@, property),
        };
        command + option_text(Seq::empty(), Seq::empty(), property.parameters) + option_text(
            Seq::empty(),
            Seq::empty(),
            property.order,
        )
    }

    fn to_string(&self) -> (s: String) {
        let mut s = String::new();
        let property = match self {
            IdentityPropertyKind::Identity(property) => {
                s.append("IDENTITY");
                property
            },
            IdentityPropertyKind::Autoincrement(property) => {
                s.append("AUTOINCREMENT");
                property
            },
        };
        if let Some(parameters) = &property.parameters {
            append_sql(&mut s, parameters);
        }
        if let Some(order) = &property.order {
            append_sql(&mut s, order);
        }
        s
    }
}

/// The format of the parameters of an identity column: `(seed , increment)` or
/// `START num INCREMENT num`.
#[derive(Debug, Clone, PartialEq, PartialOrd, Eq, Ord, Hash)]
pub enum IdentityPropertyFormatKind {
    /// Parameters written like the arguments of a function call: `(100, 1)`.
    FunctionCall(IdentityParameters),
    /// Parameters written with the keywords `START` and `INCREMENT`.
    StartAndIncrement(IdentityParameters),
}

impl SqlDisplay for IdentityPropertyFormatKind {
    open spec fn displayable(&self) -> bool {
        true
    }

    open spec fn sql(&self) -> Seq<char> {
        match self {
            IdentityPropertyFormatKind::FunctionCall(p) => "("@ + p.seed.sql() + ", "@
                + p.increment.sql() + ")"@,
            IdentityPropertyFormatKind::StartAndIncrement(p) => " START "@ + p.seed.sql()
                + " INCREMENT "@ + p.increment.sql(),
        }
    }

    fn to_string(&self) -> (s: String) {
        let mut s = String::new();
        match self {
            IdentityPropertyFormatKind::FunctionCall(p) => {
                s.append("(");
                append_sql(&mut s, &p.seed);
                s.append(", ");
                append_sql(&mut s, &p.increment);
                s.append(")");
            },
            IdentityPropertyFormatKind::StartAndIncrement(p) => {
                s.append(" START ");
                append_sql(&mut s, &p.seed);
                s.append(" INCREMENT ");
                append_sql(&mut s, &p.increment);
            },
        }
        s
    }
}

#[derive(Debug, Clone, PartialEq, PartialOrd, Eq, Ord, Hash)]
pub struct IdentityParameters {
    pub seed: Expr,
    pub increment: Expr,
}

/// Whether values of an identity column are generated in order: `ORDER | NOORDER`
#[derive(Debug, Clone, PartialEq, PartialOrd, Eq, Ord, Hash)]
pub enum IdentityPropertyOrder {
    Order,
    NoOrder,
}

impl SqlDisplay for IdentityPropertyOrder {
    open spec fn displayable(&self) -> bool {
        true
    }

    open spec fn sql(&self) -> Seq<char> {
        match self {
            IdentityPropertyOrder::Order => " ORDER"@,
            IdentityPropertyOrder::NoOrder => " NOORDER"@,
        }
    }

    fn to_string(&self) -> (s: String) {
        match self {
            IdentityPropertyOrder::Order => String::from_str(" ORDER"),
            IdentityPropertyOrder::NoOrder => String::from_str(" NOORDER"),
        }
    }
}

/// A security policy on a column:
/// `[ WITH ] MASKING POLICY <policy_name> [ USING ( <col_name> , <cond_col1> , ... ) ]` or
/// `[ WITH ] PROJECTION POLICY <policy_name>`
#[derive(Debug, Clone, PartialEq, PartialOrd, Eq, Ord, Hash)]
pub enum ColumnPolicy {
    MaskingPolicy(ColumnPolicyProperty),
    ProjectionPolicy(ColumnPolicyProperty),
}

#[derive(Debug, Clone, PartialEq, PartialOrd, Eq, Ord, Hash)]
pub struct ColumnPolicyProperty {
    /// Whether the policy is declared with the `WITH` prefix.
    pub with: bool,
    pub policy_name: ObjectName,
    pub using_columns: Option<Vec<Ident>>,
}

impl ColumnPolicyProperty {
    /// The policy name and the columns that the property names have renderings.
    pub open spec fn displayable(self) -> bool {
        self.policy_name.displayable() && match self.using_columns {
            Some(cols) => all_displayable(cols@),
            None => true,
        }
    }
}

impl SqlDisplay for ColumnPolicy {
    open spec fn displayable(&self) -> bool {
        match self {
            ColumnPolicy::MaskingPolicy(p) => p.displayable(),
            ColumnPolicy::ProjectionPolicy(p) => p.displayable(),
        }
    }

    open spec fn sql(&self) -> Seq<char> {
        let (command, p) = match self {
            ColumnPolicy::MaskingPolicy(p) => ("MASKING POLICY"@, p),
            ColumnPolicy::ProjectionPolicy(p) => ("PROJECTION POLICY"@, p),
        };
        if_text(p.with, "WITH "@) + command + " "@ + p.policy_name.sql() + match p.using_columns {
            Some(cols) => " USING ("@ + comma_separated(cols@) + ")"@,
            None => Seq::empty(),
        }
    }

    fn to_string(&self) -> (s: String) {
        let (command, p) = match self {
            ColumnPolicy::MaskingPolicy(p) => ("MASKING POLICY", p),
            ColumnPolicy::ProjectionPolicy(p) => ("PROJECTION POLICY", p),
        };
        let mut s = String::new();
        crate::text::append_when(&mut s, p.with, "WITH ");
        s.append(command);
        s.append(" ");
        append_sql(&mut s, &p.policy_name);
        if let Some(cols) = &p.using_columns {
            s.append(" USING (");
            s.append(display_comma_separated(cols).as_str());
            s.append(")");
        }
        s
    }
}

/// Tags of a column: `[ WITH ] TAG ( <tag_name> = '<tag_value>' [ , ... ] )`
#[derive(Debug, Clone, PartialEq, PartialOrd, Eq, Ord, Hash)]
pub struct TagsColumnOption {
    /// Whether the tags are declared with the `WITH` prefix.
    pub with: bool,
    pub tags: Vec<Tag>,
}

impl SqlDisplay for TagsColumnOption {
    open spec fn displayable(&self) -> bool {
        true
    }

    open spec fn sql(&self) -> Seq<char> {
        if_text(self.with, "WITH "@) + "TAG ("@ + comma_separated(self.tags@) + ")"@
    }

    fn to_string(&self) -> (s: String) {
        let mut s = String::new();
        crate::text::append_when(&mut s, self.with, "WITH ");
        s.append("TAG (");
        s.append(display_comma_separated(&self.tags).as_str());
        s.append(")");
        s
    }
}

/// Modifiers that follow a column definition in a `CREATE TABLE` statement.
#[derive(Debug, Clone, PartialEq, PartialOrd, Eq, Ord, Hash)]
pub enum ColumnOption {
    /// `NULL`
    Null,
    /// `NOT NULL`
    NotNull,
    /// `DEFAULT <restricted-expr>`
    Default(Expr),
    /// `MATERIALIZE <expr>` (ClickHouse)
    Materialized(Expr),
    /// `EPHEMERAL [<expr>]` (ClickHouse)
    Ephemeral(Option<Expr>),
    /// `ALIAS <expr>` (ClickHouse)
    Alias(Expr),
    /// `{ PRIMARY KEY | UNIQUE } [<constraint_characteristics>]`
    Unique { is_primary: bool, characteristics: Option<ConstraintCharacteristics> },
    /// A referential integrity constraint (`[FOREIGN KEY REFERENCES
    /// <foreign_table> (<referred_columns>)
    /// { [ON DELETE <referential_action>] [ON UPDATE <referential_action>] |
    ///   [ON UPDATE <referential_action>] [ON DELETE <referential_action>]
    /// }
    /// [<constraint_characteristics>]
    /// `).
    ForeignKey {
        foreign_table: ObjectName,
        referred_columns: Vec<Ident>,
        on_delete: Option<ReferentialAction>,
        on_update: Option<ReferentialAction>,
        characteristics: Option<ConstraintCharacteristics>,
    },
    /// `CHECK (<expr>)`
    Check(Expr),
    /// Dialect-specific options, such as MySQL's `AUTO_INCREMENT` or SQLite's
    /// `AUTOINCREMENT`.
    DialectSpecific(Vec<Token>),
    CharacterSet(ObjectName),
    Collation(ObjectName),
    Comment(String),
    OnUpdate(Expr),
    /// `Generated`s are modifiers that follow a column definition in a `CREATE
    /// TABLE` statement.
    Generated {
        generated_as: GeneratedAs,
        sequence_options: Option<Vec<SequenceOptions>>,
        generation_expr: Option<Expr>,
        generation_expr_mode: Option<GeneratedExpressionMode>,
        /// false if 'GENERATED ALWAYS' is skipped (option starts with AS)
        generated_keyword: bool,
    },
    /// BigQuery specific: `OPTIONS(description="field desc")`
    Options(Vec<SqlOption>),
    /// An identity or an autoincrement column.
    Identity(IdentityPropertyKind),
    /// SQLite specific: ON CONFLICT option on column definition
    OnConflict(Keyword),
    /// Snowflake specific: a masking or projection policy on a column.
    Policy(ColumnPolicy),
    /// Snowflake specific: tag names and values.
    Tags(TagsColumnOption),
    /// MySQL specific: Spatial reference identifier, `SRID 4326`.
    Srid(Box<Expr>),
}

/// ` VIRTUAL`, ` STORED` or nothing.
pub open spec fn generation_mode_text(mode: Option<GeneratedExpressionMode>) -> Seq<char> {
    match mode {
        None => Seq::empty(),
        Some(GeneratedExpressionMode::Virtual) => " VIRTUAL"@,
        Some(GeneratedExpressionMode::Stored) => " STORED"@,
    }
}

impl SqlDisplay for ColumnOption {
    /// A column generated from a sequence must be generated `ALWAYS` or `BY DEFAULT`;
    /// every identifier and name must have a rendering.
    open spec fn displayable(&self) -> bool {
        match self {
            ColumnOption::ForeignKey { foreign_table, referred_columns, .. } => {
                foreign_table.displayable() && all_displayable(referred_columns@)
            },
            ColumnOption::CharacterSet(n) => n.displayable(),
            ColumnOption::Collation(n) => n.displayable(),
            ColumnOption::Generated { generated_as, generation_expr, .. } => {
                generation_expr is Some || !(generated_as is ExpStored)
            },
            ColumnOption::Policy(p) => p.displayable(),
            _ => true,
        }
    }

    open spec fn sql(&self) -> Seq<char> {
        match self {
            ColumnOption::Null => "NULL"@,
            ColumnOption::NotNull => "NOT NULL"@,
            ColumnOption::Default(expr) => "DEFAULT "@ + expr.sql(),
            ColumnOption::Materialized(expr) => "MATERIALIZE "@ + expr.sql(),
            ColumnOption::Ephemeral(expr) => match expr {
                Some(e) => "EPHEMERAL "@ + e.sql(),
                None => "EPHEMERAL"@,
            },
            ColumnOption::Alias(expr) => "ALIAS "@ + expr.sql(),
            ColumnOption::Unique { is_primary, characteristics } => (if *is_primary {
                "PRIMARY KEY"@
            } else {
                "UNIQUE"@
            }) + option_text(" "@, Seq::empty(), *characteristics),
            ColumnOption::ForeignKey {
                foreign_table,
                referred_columns,
                on_delete,
                on_update,
                characteristics,
            } => "REFERENCES "@ + foreign_table.sql() + if_text(
                referred_columns@.len() > 0,
                " ("@ + comma_separated(referred_columns@) + ")"@,
            ) + foreign_key_tail(*on_delete, *on_update, *characteristics),
            ColumnOption::Check(expr) => "CHECK ("@ + expr.sql() + ")"@,
            ColumnOption::DialectSpecific(val) => separated(val@, " "@),
            ColumnOption::CharacterSet(n) => "CHARACTER SET "@ + n.sql(),
            ColumnOption::Collation(n) => "COLLATE "@ + n.sql(),
            ColumnOption::Comment(v) => "COMMENT '"@ + escape_single_quoted(v@) + "'"@,
            ColumnOption::OnUpdate(expr) => "ON UPDATE "@ + expr.sql(),
            ColumnOption::Generated {
                generated_as,
                sequence_options,
                generation_expr,
                generation_expr_mode,
                generated_keyword,
            } => match generation_expr {
                Some(expr) => (if *generated_keyword {
                    "GENERATED ALWAYS AS ("@
                } else {
                    "AS ("@
                }) + expr.sql() + ")"@ + generation_mode_text(*generation_expr_mode),
                None => "GENERATED "@ + (match generated_as {
                    GeneratedAs::Always => "ALWAYS"@,
                    _ => "BY DEFAULT"@,
                }) + " AS IDENTITY"@ + match sequence_options {
                    Some(so) => if_text(so@.len() > 0, " ("@) + concatenated(so@) + if_text(
                        so@.len() > 0,
                        " )"@,
                    ),
                    None => Seq::empty(),
                },
            },
            ColumnOption::Options(options) => "OPTIONS("@ + comma_separated(options@) + ")"@,
            ColumnOption::Identity(parameters) => parameters.sql(),
            ColumnOption::OnConflict(keyword) => "ON CONFLICT "@ + keyword.sql(),
            ColumnOption::Policy(parameters) => parameters.sql(),
            ColumnOption::Tags(tags) => tags.sql(),
            ColumnOption::Srid(srid) => "SRID "@ + srid.sql(),
        }
    }

    fn to_string(&self) -> (s: String) {
        let mut s = String::new();
        match self {
            ColumnOption::Null => {
                s.append("NULL");
            },
            ColumnOption::NotNull => {
                s.append("NOT NULL");
            },
            ColumnOption::Default(expr) => {
                s.append("DEFAULT ");
                append_sql(&mut s, expr);
            },
            ColumnOption::Materialized(expr) => {
                s.append("MATERIALIZE ");
                append_sql(&mut s, expr);
            },
            ColumnOption::Ephemeral(expr) => {
                if let Some(e) = expr {
                    s.append("EPHEMERAL ");
                    append_sql(&mut s, e);
                } else {
                    s.append("EPHEMERAL");
                }
            },
            ColumnOption::Alias(expr) => {
                s.append("ALIAS ");
                append_sql(&mut s, expr);
            },
            ColumnOption::Unique { is_primary, characteristics } => {
                if *is_primary {
                    s.append("PRIMARY KEY");
                } else {
                    s.append("UNIQUE");
                }
                if let Some(c) = characteristics {
                    s.append(" ");
                    append_sql(&mut s, c);
                }
            },
            ColumnOption::ForeignKey {
                foreign_table,
                referred_columns,
                on_delete,
                on_update,
                characteristics,
            } => {
                s.append("REFERENCES ");
                append_sql(&mut s, foreign_table);
                if referred_columns.len() > 0 {
                    s.append(" (");
                    s.append(display_comma_separated(referred_columns).as_str());
                    s.append(")");
                }
                append_foreign_key_tail(&mut s, on_delete, on_update, characteristics);
            },
            ColumnOption::Check(expr) => {
                s.append("CHECK (");
                append_sql(&mut s, expr);
                s.append(")");
            },
            ColumnOption::DialectSpecific(val) => {
                s.append(display_separated(val, " ").as_str());
            },
            ColumnOption::CharacterSet(n) => {
                s.append("CHARACTER SET ");
                append_sql(&mut s, n);
            },
            ColumnOption::Collation(n) => {
                s.append("COLLATE ");
                append_sql(&mut s, n);
            },
            ColumnOption::Comment(v) => {
                s.append("COMMENT '");
                s.append(escape_single_quote_string(v.as_str()).as_str());
                s.append("'");
            },
            ColumnOption::OnUpdate(expr) => {
                s.append("ON UPDATE ");
                append_sql(&mut s, expr);
            },
            ColumnOption::Generated {
                generated_as,
                sequence_options,
                generation_expr,
                generation_expr_mode,
                generated_keyword,
            } => {
                if let Some(expr) = generation_expr {
                    if *generated_keyword {
                        s.append("GENERATED ALWAYS AS (");
                    } else {
                        s.append("AS (");
                    }
                    append_sql(&mut s, expr);
                    s.append(")");
                    match generation_expr_mode {
                        None => {},
                        Some(GeneratedExpressionMode::Virtual) => {
                            s.append(" VIRTUAL");
                        },
                        Some(GeneratedExpressionMode::Stored) => {
                            s.append(" STORED");
                        },
                    }
                } else {
                    s.append("GENERATED ");
                    match generated_as {
                        GeneratedAs::Always => {
                            s.append("ALWAYS");
                        },
                        GeneratedAs::ByDefault => {
                            s.append("BY DEFAULT");
                        },
                        GeneratedAs::ExpStored => {
                            return unreached();
                        },
                    }
                    s.append(" AS IDENTITY");
                    if let Some(so) = sequence_options {
                        let nonempty = so.len() > 0;
                        crate::text::append_when(&mut s, nonempty, " (");
                        s.append(display_concatenated(so).as_str());
                        crate::text::append_when(&mut s, nonempty, " )");
                    }
                }
            },
            ColumnOption::Options(options) => {
                s.append("OPTIONS(");
                s.append(display_comma_separated(options).as_str());
                s.append(")");
            },
            ColumnOption::Identity(parameters) => {
                append_sql(&mut s, parameters);
            },
            ColumnOption::OnConflict(keyword) => {
                s.append("ON CONFLICT ");
                append_sql(&mut s, keyword);
            },
            ColumnOption::Policy(parameters) => {
                append_sql(&mut s, parameters);
            },
            ColumnOption::Tags(tags) => {
                append_sql(&mut s, tags);
            },
            ColumnOption::Srid(srid) => {
                s.append("SRID ");
                append_sql(&mut s, &**srid);
            },
        }
        s
    }
}

/// `GeneratedAs`s are modifiers that follow a column option in a `generated`.
/// 'ExpStored' is used for a column generated from an expression and stored.
#[derive(Debug, Clone, PartialEq, PartialOrd, Eq, Ord, Hash)]
pub enum GeneratedAs {
    Always,
    ByDefault,
    ExpStored,
}

/// `GeneratedExpressionMode`s are modifiers that follow an expression in a `generated`.
/// No modifier is typically the same as Virtual.
#[derive(Debug, Clone, PartialEq, PartialOrd, Eq, Ord, Hash)]
pub enum GeneratedExpressionMode {
    Virtual,
    Stored,
}

/// A column option that carries one value writes its keywords first and ends with the
/// value: `DEFAULT`, `MATERIALIZE`, `ALIAS`, `ON UPDATE`, `CHARACTER SET`, `COLLATE`,
/// `ON CONFLICT` and `SRID` after a space, `CHECK` in parentheses, `EPHEMERAL` after a
/// space when an expression is given and alone otherwise; a comment is quoted and holds
/// its text with the quotes escaped.
#[verifier::spinoff_prover]
#[verifier::rlimit(60)]
pub proof fn valued_column_options_show_their_value(
    e: Expr,
    n: ObjectName,
    k: Keyword,
    text: String,
)
    ensures
        ({
            let o0 = ColumnOption::Default(e).sql();
            let o1 = ColumnOption::Materialized(e).sql();
            let o2 = ColumnOption::Alias(e).sql();
            let o3 = ColumnOption::OnUpdate(e).sql();
            let o4 = ColumnOption::CharacterSet(n).sql();
            let o5 = ColumnOption::Collation(n).sql();
            let o6 = ColumnOption::OnConflict(k).sql();
            let sr = ColumnOption::Srid(Box::new(e)).sql();
            let ck = ColumnOption::Check(e).sql();
            let ep = ColumnOption::Ephemeral(Some(e)).sql();
            let cm = ColumnOption::Comment(text).sql();
            &&& starts_with(o0, "DEFAULT "@) && ends_with(o0, e.sql())
            &&& starts_with(o1, "MATERIALIZE "@) && ends_with(o1, e.sql())
            &&& starts_with(o2, "ALIAS "@) && ends_with(o2, e.sql())
            &&& starts_with(o3, "ON UPDATE "@) && ends_with(o3, e.sql())
            &&& starts_with(o4, "CHARACTER SET "@) && ends_with(o4, n.sql())
            &&& starts_with(o5, "COLLATE "@) && ends_with(o5, n.sql())
            &&& starts_with(o6, "ON CONFLICT "@) && ends_with(o6, k.sql())
            &&& starts_with(sr, "SRID "@) && ends_with(sr, e.sql())
            &&& starts_with(ck, "CHECK ("@) && ends_with(ck, e.sql() + ")"@)
            &&& starts_with(ep, "EPHEMERAL "@) && ends_with(ep, e.sql())
            &&& ColumnOption::Ephemeral(None).sql() == "EPHEMERAL"@
            &&& starts_with(cm, "COMMENT '"@)
            &&& ends_with(cm, escape_single_quoted(text@) + "'"@)
        }),
{
    lemma_starts(ColumnOption::Default(e).sql(), "DEFAULT "@, e.sql());
    lemma_ends(ColumnOption::Default(e).sql(), "DEFAULT "@, e.sql());
    lemma_starts(ColumnOption::Materialized(e).sql(), "MATERIALIZE "@, e.sql());
    lemma_ends(ColumnOption::Materialized(e).sql(), "MATERIALIZE "@, e.sql());
    lemma_starts(ColumnOption::Alias(e).sql(), "ALIAS "@, e.sql());
    lemma_ends(ColumnOption::Alias(e).sql(), "ALIAS "@, e.sql());
    lemma_starts(ColumnOption::OnUpdate(e).sql(), "ON UPDATE "@, e.sql());
    lemma_ends(ColumnOption::OnUpdate(e).sql(), "ON UPDATE "@, e.sql());
    lemma_starts(ColumnOption::CharacterSet(n).sql(), "CHARACTER SET "@, n.sql());
    lemma_ends(ColumnOption::CharacterSet(n).sql(), "CHARACTER SET "@, n.sql());
    lemma_starts(ColumnOption::Collation(n).sql(), "COLLATE "@, n.sql());
    lemma_ends(ColumnOption::Collation(n).sql(), "COLLATE "@, n.sql());
    lemma_starts(ColumnOption::OnConflict(k).sql(), "ON CONFLICT "@, k.sql());
    lemma_ends(ColumnOption::OnConflict(k).sql(), "ON CONFLICT "@, k.sql());
    lemma_starts(ColumnOption::Srid(Box::new(e)).sql(), "SRID "@, e.sql());
    lemma_ends(ColumnOption::Srid(Box::new(e)).sql(), "SRID "@, e.sql());
    lemma_starts(ColumnOption::Check(e).sql(), "CHECK ("@, e.sql() + ")"@);
    lemma_ends(ColumnOption::Check(e).sql(), "CHECK ("@, e.sql() + ")"@);
    lemma_starts(ColumnOption::Ephemeral(Some(e)).sql(), "EPHEMERAL "@, e.sql());
    lemma_ends(ColumnOption::Ephemeral(Some(e)).sql(), "EPHEMERAL "@, e.sql());
    let q = escape_single_quoted(text@);
    lemma_starts(ColumnOption::Comment(text).sql(), "COMMENT '"@, q + "'"@);
    lemma_ends(ColumnOption::Comment(text).sql(), "COMMENT '"@, q + "'"@);
}

/// `NULL` and `NOT NULL` are written as such; dialect-specific tokens are written
/// separated by spaces; options are written in parentheses after `OPTIONS`, separated by
/// commas; an identity property, a policy and tags are written as they render on their
/// own.
#[verifier::spinoff_prover]
#[verifier::rlimit(60)]
pub proof fn plain_column_options_are_written(
    tokens: Vec<Token>,
    options: Vec<SqlOption>,
    identity: IdentityPropertyKind,
    policy: ColumnPolicy,
    tags: TagsColumnOption,
)
    ensures
        ColumnOption::Null.sql() == "NULL"@,
        ColumnOption::NotNull.sql() == "NOT NULL"@,
        ColumnOption::DialectSpecific(tokens).sql() == separated(tokens@, " "@),
        ColumnOption::Options(options).sql() == "OPTIONS("@ + comma_separated(options@) + ")"@,
        ColumnOption::Identity(identity).sql() == identity.sql(),
        ColumnOption::Policy(policy).sql() == policy.sql(),
        ColumnOption::Tags(tags).sql() == tags.sql(),
{
}

/// `PRIMARY KEY` or `UNIQUE` comes first as the option says; the characteristics, when
/// given, come last after a space, and otherwise the keyword stands alone.
#[verifier::spinoff_prover]
#[verifier::rlimit(60)]
pub proof fn unique_column_option_shows_its_parts(
    is_primary: bool,
    characteristics: Option<ConstraintCharacteristics>,
)
    ensures
        ({
            let u = ColumnOption::Unique { is_primary, characteristics }.sql();
            let kw = if is_primary {
                "PRIMARY KEY"@
            } else {
                "UNIQUE"@
            };
            &&& starts_with(u, kw)
            &&& (characteristics is Some ==> ends_with(u, " "@ + characteristics.unwrap().sql()))
            &&& (characteristics is None ==> u == kw)
        }),
{
    let u = ColumnOption::Unique { is_primary, characteristics }.sql();
    let kw = if is_primary {
        "PRIMARY KEY"@
    } else {
        "UNIQUE"@
    };
    let tail = option_text(" "@, Seq::empty(), characteristics);
    lemma_starts(u, kw, tail);
    lemma_ends(u, kw, tail);
    assert(characteristics is None ==> u =~= kw);
}

/// A `REFERENCES` option names the foreign table first; the referred columns, when there
/// are any, follow in parentheses; each referential action that is given follows after
/// its keywords, and the characteristics, when given, come last after a space.
#[verifier::spinoff_prover]
#[verifier::rlimit(40)]
pub proof fn foreign_key_column_option_shows_its_parts(
    foreign_table: ObjectName,
    referred_columns: Vec<Ident>,
    on_delete: Option<ReferentialAction>,
    on_update: Option<ReferentialAction>,
    characteristics: Option<ConstraintCharacteristics>,
)
    ensures
        ({
            let f = ColumnOption::ForeignKey {
                foreign_table,
                referred_columns,
                on_delete,
                on_update,
                characteristics,
            }.sql();
            &&& starts_with(f, "REFERENCES "@ + foreign_table.sql())
            &&& (referred_columns@.len() > 0 ==> contains_text(
                f,
                " ("@ + comma_separated(referred_columns@) + ")"@,
            ))
            &&& (on_delete is Some ==> contains_text(f, " ON DELETE "@ + on_delete.unwrap().sql()))
            &&& (on_update is Some ==> contains_text(f, " ON UPDATE "@ + on_update.unwrap().sql()))
            &&& (characteristics is Some ==> ends_with(f, " "@ + characteristics.unwrap().sql()))
            &&& (on_update is Some && characteristics is None ==> ends_with(
                f,
                " ON UPDATE "@ + on_update.unwrap().sql(),
            ))
            &&& (on_delete is Some && on_update is None && characteristics is None ==> ends_with(
                f,
                " ON DELETE "@ + on_delete.unwrap().sql(),
            ))
        }),
{
    let f = ColumnOption::ForeignKey {
        foreign_table,
        referred_columns,
        on_delete,
        on_update,
        characteristics,
    }.sql();
    let h = "REFERENCES "@ + foreign_table.sql();
    let rc = if_text(
        referred_columns@.len() > 0,
        " ("@ + comma_separated(referred_columns@) + ")"@,
    );
    let d = option_text(" ON DELETE "@, Seq::empty(), on_delete);
    let u = option_text(" ON UPDATE "@, Seq::empty(), on_update);
    let c = option_text(" "@, Seq::empty(), characteristics);
    assert(f =~= h + rc + d + u + c);
    lemma_starts(f, h, rc + d + u + c);
    lemma_has(f, h, rc, d + u + c);
    lemma_has(f, h + rc, d, u + c);
    lemma_has(f, h + rc + d, u, c);
    lemma_ends(f, h + rc + d + u, c);
    if characteristics is None {
        lemma_ends(f, h + rc + d, u);
        if on_update is None {
            lemma_ends(f, h + rc, d);
        }
    }
}

/// A procedure parameter ends with its name, a space and its data type, after its mode
/// and a space when a mode is given; a view column writes its name first, then its data
/// type after a space when given, and its options (after a space) last; a named column
/// option writes `CONSTRAINT <name> ` before the option, and an unnamed one is the option
/// alone.
#[verifier::spinoff_prover]
#[verifier::rlimit(60)]
pub proof fn column_fragments_show_their_parts(
    p: ProcedureParam,
    v: ViewColumnDef,
    d: ColumnOptionDef,
)
    ensures
        ends_with(p.sql(), p.name.sql() + " "@ + p.data_type.sql()),
        p.mode is Some ==> starts_with(p.sql(), p.mode.unwrap().sql() + " "@),
        p.mode is None ==> p.sql() == p.name.sql() + " "@ + p.data_type.sql(),
        starts_with(v.sql(), v.name.sql()),
        v.data_type is Some ==> contains_text(v.sql(), " "@ + v.data_type.unwrap().sql()),
        v.options is Some ==> ends_with(v.sql(), " "@ + v.options.unwrap().sql()),
        v.options is None && v.data_type is Some ==> ends_with(
            v.sql(),
            " "@ + v.data_type.unwrap().sql(),
        ),
        ends_with(d.sql(), d.option.sql()),
        d.name is Some ==> starts_with(d.sql(), "CONSTRAINT "@ + d.name.unwrap().sql() + " "@),
        d.name is None ==> d.sql() == d.option.sql(),
{
    let m = option_text(Seq::empty(), " "@, p.mode);
    let pt = p.name.sql() + " "@ + p.data_type.sql();
    assert(p.sql() =~= m + pt);
    lemma_ends(p.sql(), m, pt);
    lemma_starts(p.sql(), m, pt);
    if let Some(x) = p.mode {
        assert(m =~= x.sql() + " "@);
    } else {
        assert(p.sql() =~= pt);
    }
    let dt = option_text(" "@, Seq::empty(), v.data_type);
    let op = match v.options {
        Some(options) => " "@ + options.sql(),
        None => Seq::<char>::empty(),
    };
    assert(v.sql() == v.name.sql() + dt + op);
    lemma_starts(v.sql(), v.name.sql(), dt + op);
    lemma_has(v.sql(), v.name.sql(), dt, op);
    lemma_ends(v.sql(), v.name.sql() + dt, op);
    if let Some(x) = v.data_type {
        assert(dt =~= " "@ + x.sql());
        if v.options is None {
            lemma_ends(v.sql(), v.name.sql(), dt);
        }
    }
    let cn = crate::constraint::constraint_name_text(d.name);
    lemma_ends(d.sql(), cn, d.option.sql());
    lemma_starts(d.sql(), cn, d.option.sql());
    if d.name is None {
        assert(d.sql() =~= d.option.sql());
    }
}

/// An identity or autoincrement property writes its keyword first, then its parameters
/// (`(seed, increment)` or ` START seed INCREMENT increment`) and its order when given; a
/// masking or projection policy writes `WITH ` when asked, its keywords, a space and the
/// policy name, and ends with the columns in parentheses after ` USING ` when given; tags
/// are written in parentheses after `TAG `, preceded by `WITH ` when asked.
#[verifier::spinoff_prover]
#[verifier::rlimit(60)]
pub proof fn column_properties_show_their_parts(
    k: IdentityPropertyKind,
    params: IdentityParameters,
    policy: ColumnPolicy,
    tags: TagsColumnOption,
)
    ensures
        ({
            let (command, property) = match k {
                IdentityPropertyKind::Identity(property) => ("IDENTITY"@, property),
                IdentityPropertyKind::Autoincrement(property) => ("AUTOINCREMENT"@, property),
            };
            let (keyword, pp) = match policy {
                ColumnPolicy::MaskingPolicy(pp) => ("MASKING POLICY"@, pp),
                ColumnPolicy::ProjectionPolicy(pp) => ("PROJECTION POLICY"@, pp),
            };
            let head = (if pp.with { "WITH "@ } else { Seq::empty() }) + keyword + " "@
                + pp.policy_name.sql();
            &&& starts_with(k.sql(), command)
            &&& (property.parameters is Some ==> contains_text(
                k.sql(),
                property.parameters.unwrap().sql(),
            ))
            &&& (property.order is Some ==> ends_with(k.sql(), property.order.unwrap().sql()))
            &&& IdentityPropertyFormatKind::FunctionCall(params).sql() == "("@ + params.seed.sql()
                + ", "@ + params.increment.sql() + ")"@
            &&& IdentityPropertyFormatKind::StartAndIncrement(params).sql() == " START "@
                + params.seed.sql() + " INCREMENT "@ + params.increment.sql()
            &&& starts_with(policy.sql(), head)
            &&& (pp.using_columns is Some ==> ends_with(
                policy.sql(),
                " USING ("@ + comma_separated(pp.using_columns.unwrap()@) + ")"@,
            ))
            &&& (pp.using_columns is None ==> policy.sql() == head)
            &&& tags.sql() == (if tags.with { "WITH "@ } else { Seq::empty() }) + "TAG ("@
                + comma_separated(tags.tags@) + ")"@
        }),
{
    let (command, property) = match k {
        IdentityPropertyKind::Identity(property) => ("IDENTITY"@, property),
        IdentityPropertyKind::Autoincrement(property) => ("AUTOINCREMENT"@, property),
    };
    let pa = option_text(Seq::empty(), Seq::empty(), property.parameters);
    let o = option_text(Seq::empty(), Seq::empty(), property.order);
    assert(k.sql() == command + pa + o);
    lemma_starts(k.sql(), command, pa + o);
    lemma_has(k.sql(), command, pa, o);
    lemma_ends(k.sql(), command + pa, o);
    if let Some(x) = property.parameters {
        assert(pa =~= x.sql());
    }
    if let Some(x) = property.order {
        assert(o =~= x.sql());
    }
    let (keyword, pp) = match policy {
        ColumnPolicy::MaskingPolicy(pp) => ("MASKING POLICY"@, pp),
        ColumnPolicy::ProjectionPolicy(pp) => ("PROJECTION POLICY"@, pp),
    };
    let head = if_text(pp.with, "WITH "@) + keyword + " "@ + pp.policy_name.sql();
    let uc = match pp.using_columns {
        Some(cols) => " USING ("@ + comma_separated(cols@) + ")"@,
        None => Seq::<char>::empty(),
    };
    assert(policy.sql() == head + uc);
    lemma_starts(policy.sql(), head, uc);
    lemma_ends(policy.sql(), head, uc);
    if pp.using_columns is None {
        assert(policy.sql() =~= head);
    }
}

/// A column generated from an expression writes `GENERATED ALWAYS AS (` or `AS (`
/// as the keyword flag says, then the expression and `)`; it ends with ` STORED` exactly
/// when the mode is stored and with ` VIRTUAL` exactly when it is virtual, whatever the
/// keyword flag, and with the closing parenthesis when no mode is given.
#[verifier::spinoff_prover]
#[verifier::rlimit(60)]
pub proof fn generated_expression_shows_its_parts(
    generated_as: GeneratedAs,
    sequence_options: Option<Vec<SequenceOptions>>,
    expr: Expr,
    generation_expr_mode: Option<GeneratedExpressionMode>,
    generated_keyword: bool,
)
    ensures
        ({
            let g = ColumnOption::Generated {
                generated_as,
                sequence_options,
                generation_expr: Some(expr),
                generation_expr_mode,
                generated_keyword,
            }.sql();
            &&& generated_keyword ==> starts_with(g, "GENERATED ALWAYS AS ("@ + expr.sql() + ")"@)
            &&& !generated_keyword ==> starts_with(g, "AS ("@ + expr.sql() + ")"@)
            &&& generation_expr_mode == Some(GeneratedExpressionMode::Stored) ==> ends_with(
                g,
                expr.sql() + ")"@ + " STORED"@,
            )
            &&& generation_expr_mode == Some(GeneratedExpressionMode::Virtual) ==> ends_with(
                g,
                expr.sql() + ")"@ + " VIRTUAL"@,
            )
            &&& generation_expr_mode is None ==> ends_with(g, expr.sql() + ")"@)
        }),
{
    let g = ColumnOption::Generated {
        generated_as,
        sequence_options,
        generation_expr: Some(expr),
        generation_expr_mode,
        generated_keyword,
    }.sql();
    let kw = if generated_keyword {
        "GENERATED ALWAYS AS ("@
    } else {
        "AS ("@
    };
    let mode = generation_mode_text(generation_expr_mode);
    assert(g == kw + expr.sql() + ")"@ + mode);
    lemma_starts(g, kw + expr.sql() + ")"@, mode);
    lemma_ends(g, kw, expr.sql() + ")"@ + mode);
    if generation_expr_mode is None {
        lemma_ends(g, kw, expr.sql() + ")"@);
    }
}

/// A column generated as an identity writes `GENERATED ALWAYS AS IDENTITY` or
/// `GENERATED BY DEFAULT AS IDENTITY`, followed, when there are sequence options, by
/// ` (`, the options one after the other, and ` )`.
#[verifier::spinoff_prover]
#[verifier::rlimit(60)]
pub proof fn generated_identity_shows_its_parts(
    generated_as: GeneratedAs,
    options: Vec<SequenceOptions>,
    generation_expr_mode: Option<GeneratedExpressionMode>,
    generated_keyword: bool,
)
    requires
        !(generated_as is ExpStored),
    ensures
        ({
            let g = ColumnOption::Generated {
                generated_as,
                sequence_options: Some(options),
                generation_expr: None,
                generation_expr_mode,
                generated_keyword,
            }.sql();
            let when = if generated_as is Always {
                "ALWAYS"@
            } else {
                "BY DEFAULT"@
            };
            &&& starts_with(g, "GENERATED "@ + when + " AS IDENTITY"@)
            &&& options@.len() > 0 ==> ends_with(g, " ("@ + concatenated(options@) + " )"@)
        }),
{
    let g = ColumnOption::Generated {
        generated_as,
        sequence_options: Some(options),
        generation_expr: None,
        generation_expr_mode,
        generated_keyword,
    }.sql();
    let when = if generated_as is Always {
        "ALWAYS"@
    } else {
        "BY DEFAULT"@
    };
    let h = "GENERATED "@ + when + " AS IDENTITY"@;
    let ne = options@.len() > 0;
    let tail = if_text(ne, " ("@) + concatenated(options@) + if_text(ne, " )"@);
    assert(g == h + tail);
    lemma_starts(g, h, tail);
    if ne {
        lemma_ends(g, h, " ("@ + concatenated(options@) + " )"@);
    }
}

proof fn lemma_each_prefixed_shows_each<T: SqlDisplay>(items: Seq<T>, prefix: Seq<char>, i: int)
    requires
        0 <= i < items.len(),
    ensures
        contains_text(each_prefixed(items, prefix), prefix + items[i].sql()),
    decreases items.len(),
{
    let front = items.drop_last();
    let f = each_prefixed(front, prefix);
    assert(each_prefixed(items, prefix) =~= f + (prefix + items.last().sql()));
    if i == items.len() - 1 {
        lemma_ends(each_prefixed(items, prefix), f, prefix + items.last().sql());
        crate::text::lemma_ends_contains(each_prefixed(items, prefix), prefix + items.last().sql());
    } else {
        lemma_each_prefixed_shows_each(front, prefix, i);
        assert(front[i] == items[i]);
        crate::text::lemma_contains_extend(f, prefix + items[i].sql(), prefix + items.last().sql());
    }
}

/// A column definition writes its name first, then its data type after a space when it
/// has one; each option appears after a space, and the last option comes last.
#[verifier::spinoff_prover]
#[verifier::rlimit(60)]
pub proof fn column_def_shows_its_parts(c: ColumnDef)
    ensures
        starts_with(c.sql(), c.name.sql()),
        c.data_type is Named ==> starts_with(c.sql(), c.name.sql() + " "@ + c.data_type.sql()),
        forall|i: int|
            0 <= i < c.options@.len() ==> contains_text(c.sql(), " "@ + #[trigger] c.options@[i].sql()),
        c.options@.len() > 0 ==> ends_with(c.sql(), " "@ + c.options@.last().sql()),
        c.options@.len() == 0 && c.data_type is Named ==> ends_with(
            c.sql(),
            " "@ + c.data_type.sql(),
        ),
        c.options@.len() == 0 && c.data_type is Unspecified ==> c.sql() == c.name.sql(),
{
    let dt = match c.data_type {
        DataType::Unspecified => Seq::<char>::empty(),
        _ => " "@ + c.data_type.sql(),
    };
    let ops = each_prefixed(c.options@, " "@);
    assert(c.sql() == c.name.sql() + dt + ops);
    lemma_starts(c.sql(), c.name.sql(), dt + ops);
    if c.data_type is Named {
        assert(c.name.sql() + dt =~= c.name.sql() + " "@ + c.data_type.sql());
        lemma_starts(c.sql(), c.name.sql() + dt, ops);
    }
    assert forall|i: int|
        0 <= i < c.options@.len() implies contains_text(c.sql(), " "@ + #[trigger] c.options@[i].sql()) by {
        lemma_each_prefixed_shows_each(c.options@, " "@, i);
        let j = choose|j: int|
            0 <= j && j + (" "@ + c.options@[i].sql()).len() <= ops.len() && #[trigger] ops.subrange(
                j,
                j + (" "@ + c.options@[i].sql()).len(),
            ) == " "@ + c.options@[i].sql();
        let k = c.name.sql().len() + dt.len() + j;
        assert(c.sql().subrange(k, k + (" "@ + c.options@[i].sql()).len()) =~= ops.subrange(
            j,
            j + (" "@ + c.options@[i].sql()).len(),
        ));
    }
    if c.options@.len() > 0 {
        let front = each_prefixed(c.options@.drop_last(), " "@);
        assert(ops == front + " "@ + c.options@.last().sql());
        lemma_ends(c.sql(), c.name.sql() + dt + front, " "@ + c.options@.last().sql());
    } else {
        assert(ops =~= Seq::<char>::empty());
        lemma_ends(c.sql(), c.name.sql(), dt);
    }
}

/// A comment renders the same whether or not the quotes in its text were escaped
/// beforehand.
#[verifier::spinoff_prover]
#[verifier::rlimit(60)]
pub proof fn comment_rendering_ignores_prior_escaping(text: String, escaped: String)
    requires
        escaped@ == escape_single_quoted(text@),
    ensures
        ColumnOption::Comment(escaped).sql() == ColumnOption::Comment(text).sql(),
{
    crate::text::escape_quoted_idempotent(text@, '\'');
}

} // verus!
