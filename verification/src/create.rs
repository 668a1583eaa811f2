//! `CREATE` statements and the clauses they share: user defined types, partitions,
//! deduplication, bucketing, domains, functions and connectors.
use vstd::prelude::*;
use vstd::string::*;

use crate::constraint::{append_spaced_list, spaced_list, TableConstraint};
use crate::fragment::{
    CommentDef, CreateFunctionBody, CreateFunctionUsing, DataType, Expr, FunctionBehavior,
    FunctionCalledOnNull, FunctionDeterminismSpecifier, FunctionParallel, Ident, ObjectName,
    OperateFunctionArg, OrderByExpr, SqlOption, Value,
};
use crate::text::{
    contains_text, ends_with, lemma_contains_extend, lemma_ends, lemma_ends_contains,
    lemma_ends_with, lemma_has, lemma_starts, lemma_starts_extend, separated,
    lemma_starts_with, starts_with,
    all_displayable, append_option, append_option_list, append_sql, append_when,
    comma_separated, display_comma_separated, display_option, if_text, option_displayable,
    option_list_text, option_text, SqlDisplay,
};

verus! {

/// SQL user defined type definition
#[derive(Debug, Clone, PartialEq, PartialOrd, Eq, Ord, Hash)]
pub enum UserDefinedTypeRepresentation {
    Composite { attributes: Vec<UserDefinedTypeCompositeAttributeDef> },
    /// Note: this is PostgreSQL-specific.
    Enum { labels: Vec<Ident> },
}

impl SqlDisplay for UserDefinedTypeRepresentation {
    open spec fn displayable(&self) -> bool {
        match self {
            UserDefinedTypeRepresentation::Composite { attributes } => all_displayable(
                attributes@,
            ),
            UserDefinedTypeRepresentation::Enum { labels } => all_displayable(labels@),
        }
    }

    open spec fn sql(&self) -> Seq<char> {
        match self {
            UserDefinedTypeRepresentation::Composite { attributes } => "("@ + comma_separated(
                attributes@,
            ) + ")"@,
            UserDefinedTypeRepresentation::Enum { labels } => "ENUM ("@ + comma_separated(labels@)
                + ")"@,
        }
    }

    fn to_string(&self) -> (s: String) {
        let mut s = String::new();
        match self {
            UserDefinedTypeRepresentation::Composite { attributes } => {
                s.append("(");
                s.append(display_comma_separated(attributes).as_str());
                s.append(")");
            },
            UserDefinedTypeRepresentation::Enum { labels } => {
                s.append("ENUM (");
                s.append(display_comma_separated(labels).as_str());
                s.append(")");
            },
        }
        s
    }
}

/// SQL user defined type attribute definition
#[derive(Debug, Clone, PartialEq, PartialOrd, Eq, Ord, Hash)]
pub struct UserDefinedTypeCompositeAttributeDef {
    pub name: Ident,
    pub data_type: DataType,
    pub collation: Option<ObjectName>,
}

impl SqlDisplay for UserDefinedTypeCompositeAttributeDef {
    open spec fn displayable(&self) -> bool {
        self.name.displayable() && option_displayable(self.collation)
    }

    open spec fn sql(&self) -> Seq<char> {
        self.name.sql() + " "@ + self.data_type.sql() + option_text(
            " COLLATE "@,
            Seq::empty(),
            self.collation,
        )
    }

    fn to_string(&self) -> (s: String) {
        let mut s = String::new();
        append_sql(&mut s, &self.name);
        s.append(" ");
        append_sql(&mut s, &self.data_type);
        if let Some(collation) = &self.collation {
            s.append(" COLLATE ");
            append_sql(&mut s, collation);
        }
        s
    }
}

/// PARTITION statement used in ALTER TABLE et al. such as in Hive and ClickHouse SQL.
#[derive(Debug, Clone, PartialEq, Eq, Hash, PartialOrd, Ord)]
pub enum Partition {
    Identifier(Ident),
    Expr(Expr),
    /// ClickHouse supports PART expr which represents physical partition in disk.
    Part(Expr),
    Partitions(Vec<Expr>),
}

impl SqlDisplay for Partition {
    open spec fn displayable(&self) -> bool {
        match self {
            Partition::Identifier(id) => id.displayable(),
            _ => true,
        }
    }

    open spec fn sql(&self) -> Seq<char> {
        match self {
            Partition::Identifier(id) => "PARTITION ID "@ + id.sql(),
            Partition::Expr(expr) => "PARTITION "@ + expr.sql(),
            Partition::Part(expr) => "PART "@ + expr.sql(),
            Partition::Partitions(partitions) => "PARTITION ("@ + comma_separated(partitions@)
                + ")"@,
        }
    }

    fn to_string(&self) -> (s: String) {
        let mut s = String::new();
        match self {
            Partition::Identifier(id) => {
                s.append("PARTITION ID ");
                append_sql(&mut s, id);
            },
            Partition::Expr(expr) => {
                s.append("PARTITION ");
                append_sql(&mut s, expr);
            },
            Partition::Part(expr) => {
                s.append("PART ");
                append_sql(&mut s, expr);
            },
            Partition::Partitions(partitions) => {
                s.append("PARTITION (");
                s.append(display_comma_separated(partitions).as_str());
                s.append(")");
            },
        }
        s
    }
}

/// DEDUPLICATE statement used in OPTIMIZE TABLE et al. such as in ClickHouse SQL
#[derive(Debug, Clone, PartialEq, PartialOrd, Eq, Ord, Hash)]
pub enum Deduplicate {
    All,
    ByExpression(Expr),
}

impl SqlDisplay for Deduplicate {
    open spec fn displayable(&self) -> bool {
        true
    }

    open spec fn sql(&self) -> Seq<char> {
        match self {
            Deduplicate::All => "DEDUPLICATE"@,
            Deduplicate::ByExpression(expr) => "DEDUPLICATE BY "@ + expr.sql(),
        }
    }

    fn to_string(&self) -> (s: String) {
        let mut s = String::new();
        match self {
            Deduplicate::All => {
                s.append("DEDUPLICATE");
            },
            Deduplicate::ByExpression(expr) => {
                s.append("DEDUPLICATE BY ");
                append_sql(&mut s, expr);
            },
        }
        s
    }
}

/// Hive's `CLUSTERED BY (col_name, ...) [SORTED BY (col_name [ASC|DESC], ...)] INTO num_buckets BUCKETS`
#[derive(Debug, Clone, PartialEq, PartialOrd, Eq, Ord, Hash)]
pub struct ClusteredBy {
    pub columns: Vec<Ident>,
    pub sorted_by: Option<Vec<OrderByExpr>>,
    pub num_buckets: Value,
}

impl SqlDisplay for ClusteredBy {
    open spec fn displayable(&self) -> bool {
        all_displayable(self.columns@)
    }

    open spec fn sql(&self) -> Seq<char> {
        "CLUSTERED BY ("@ + comma_separated(self.columns@) + ")"@ + match self.sorted_by {
            Some(sorted_by) => " SORTED BY ("@ + comma_separated(sorted_by@) + ")"@,
            None => Seq::empty(),
        } + " INTO "@ + self.num_buckets.sql() + " BUCKETS"@
    }

    fn to_string(&self) -> (s: String) {
        let mut s = String::new();
        s.append("CLUSTERED BY (");
        s.append(display_comma_separated(&self.columns).as_str());
        s.append(")");
        if let Some(sorted_by) = &self.sorted_by {
            s.append(" SORTED BY (");
            s.append(display_comma_separated(sorted_by).as_str());
            s.append(")");
        }
        s.append(" INTO ");
        append_sql(&mut s, &self.num_buckets);
        s.append(" BUCKETS");
        s
    }
}

/// `CREATE DOMAIN name [ AS ] data_type [ COLLATE collation ] [ DEFAULT expression ] [ domain_constraint [ ... ] ]`
#[derive(Debug, Clone, PartialEq, PartialOrd, Eq, Ord, Hash)]
pub struct CreateDomain {
    /// The name of the domain to be created.
    pub name: ObjectName,
    /// The data type of the domain.
    pub data_type: DataType,
    /// The collation of the domain.
    pub collation: Option<Ident>,
    /// The default value of the domain.
    pub default: Option<Expr>,
    /// The constraints of the domain.
    pub constraints: Vec<TableConstraint>,
}

impl SqlDisplay for CreateDomain {
    open spec fn displayable(&self) -> bool {
        self.name.displayable() && option_displayable(self.collation) && all_displayable(
            self.constraints@,
        )
    }

    open spec fn sql(&self) -> Seq<char> {
        "CREATE DOMAIN "@ + self.name.sql() + " AS "@ + self.data_type.sql() + option_text(
            " COLLATE "@,
            Seq::empty(),
            self.collation,
        ) + option_text(" DEFAULT "@, Seq::empty(), self.default) + spaced_list(
            self.constraints@,
            " "@,
        )
    }

    fn to_string(&self) -> (s: String) {
        let mut s = String::new();
        s.append("CREATE DOMAIN ");
        append_sql(&mut s, &self.name);
        s.append(" AS ");
        append_sql(&mut s, &self.data_type);
        if let Some(collation) = &self.collation {
            s.append(" COLLATE ");
            append_sql(&mut s, collation);
        }
        if let Some(default) = &self.default {
            s.append(" DEFAULT ");
            append_sql(&mut s, default);
        }
        append_spaced_list(&mut s, &self.constraints, " ");
        s
    }
}

/// `CREATE DOMAIN` writes the name and ` AS ` with the data type first; the collation
/// and the default, when given, follow after their keywords; the constraints, when there
/// are any, come last after a space and separated by spaces.
#[verifier::spinoff_prover]
#[verifier::rlimit(60)]
pub proof fn create_domain_shows_its_parts(d: CreateDomain)
    ensures
        starts_with(d.sql(), "CREATE DOMAIN "@ + d.name.sql() + " AS "@ + d.data_type.sql()),
        d.collation is Some ==> contains_text(d.sql(), " COLLATE "@ + d.collation.unwrap().sql()),
        d.default is Some ==> contains_text(d.sql(), " DEFAULT "@ + d.default.unwrap().sql()),
        d.constraints@.len() > 0 ==> ends_with(d.sql(), " "@ + separated(d.constraints@, " "@)),
        d.constraints@.len() == 0 && d.default is Some ==> ends_with(
            d.sql(),
            " DEFAULT "@ + d.default.unwrap().sql(),
        ),
        d.constraints@.len() == 0 && d.default is None && d.collation is None ==> d.sql()
            == "CREATE DOMAIN "@ + d.name.sql() + " AS "@ + d.data_type.sql(),
{
    let h = "CREATE DOMAIN "@ + d.name.sql() + " AS "@ + d.data_type.sql();
    let c = option_text(" COLLATE "@, Seq::empty(), d.collation);
    let df = option_text(" DEFAULT "@, Seq::empty(), d.default);
    let k = spaced_list(d.constraints@, " "@);
    let t = d.sql();
    assert(t == h + c + df + k);
    lemma_starts(t, h, c + df + k);
    lemma_has(t, h, c, df + k);
    lemma_has(t, h + c, df, k);
    lemma_ends(t, h + c + df, k);
    if let Some(x) = d.collation {
        assert(c =~= " COLLATE "@ + x.sql());
    }
    if let Some(x) = d.default {
        assert(df =~= " DEFAULT "@ + x.sql());
    }
    if d.constraints@.len() == 0 {
        lemma_ends(t, h + c, df);
        assert(t =~= h + c + df);
    }
}

/// A partition is written after `PARTITION ID `, `PARTITION ` or `PART `, or as a list of
/// expressions in parentheses after `PARTITION `; deduplication by an expression ends
/// with it; `CLUSTERED BY` writes the columns in parentheses, the sort order (when given)
/// after ` SORTED BY `, and ends with the bucket count and ` BUCKETS`; a composite type
/// lists its attributes in parentheses and an enum type its labels after `ENUM `; an
/// attribute writes its name, a space and its data type first, and ends with its
/// collation after ` COLLATE ` when one is given.
#[verifier::spinoff_prover]
#[verifier::rlimit(60)]
pub proof fn create_fragments_show_their_parts(
    id: Ident,
    expr: Expr,
    exprs: Vec<Expr>,
    clustered: ClusteredBy,
    attributes: Vec<UserDefinedTypeCompositeAttributeDef>,
    labels: Vec<Ident>,
    attribute: UserDefinedTypeCompositeAttributeDef,
)
    ensures
        ({
            let pi = Partition::Identifier(id).sql();
            let pe = Partition::Expr(expr).sql();
            let pp = Partition::Part(expr).sql();
            let pl = Partition::Partitions(exprs).sql();
            let dd = Deduplicate::ByExpression(expr).sql();
            let cb = clustered.sql();
            let ua = attribute.sql();
            &&& starts_with(pi, "PARTITION ID "@) && ends_with(pi, id.sql())
            &&& starts_with(pe, "PARTITION "@) && ends_with(pe, expr.sql())
            &&& starts_with(pp, "PART "@) && ends_with(pp, expr.sql())
            &&& pl == "PARTITION ("@ + comma_separated(exprs@) + ")"@
            &&& starts_with(dd, "DEDUPLICATE BY "@) && ends_with(dd, expr.sql())
            &&& Deduplicate::All.sql() == "DEDUPLICATE"@
            &&& starts_with(cb, "CLUSTERED BY ("@ + comma_separated(clustered.columns@) + ")"@)
            &&& ends_with(cb, " INTO "@ + clustered.num_buckets.sql() + " BUCKETS"@)
            &&& (clustered.sorted_by is Some ==> contains_text(
                cb,
                " SORTED BY ("@ + comma_separated(clustered.sorted_by.unwrap()@) + ")"@,
            ))
            &&& (UserDefinedTypeRepresentation::Composite { attributes }).sql() == "("@
                + comma_separated(attributes@) + ")"@
            &&& (UserDefinedTypeRepresentation::Enum { labels }).sql() == "ENUM ("@
                + comma_separated(labels@) + ")"@
            &&& starts_with(ua, attribute.name.sql() + " "@ + attribute.data_type.sql())
            &&& (attribute.collation is Some ==> ends_with(
                ua,
                " COLLATE "@ + attribute.collation.unwrap().sql(),
            ))
            &&& (attribute.collation is None ==> ua == attribute.name.sql() + " "@
                + attribute.data_type.sql())
        }),
{
    lemma_starts(Partition::Identifier(id).sql(), "PARTITION ID "@, id.sql());
    lemma_ends(Partition::Identifier(id).sql(), "PARTITION ID "@, id.sql());
    lemma_starts(Partition::Expr(expr).sql(), "PARTITION "@, expr.sql());
    lemma_ends(Partition::Expr(expr).sql(), "PARTITION "@, expr.sql());
    lemma_starts(Partition::Part(expr).sql(), "PART "@, expr.sql());
    lemma_ends(Partition::Part(expr).sql(), "PART "@, expr.sql());
    lemma_starts(Deduplicate::ByExpression(expr).sql(), "DEDUPLICATE BY "@, expr.sql());
    lemma_ends(Deduplicate::ByExpression(expr).sql(), "DEDUPLICATE BY "@, expr.sql());
    let cb = clustered.sql();
    let h = "CLUSTERED BY ("@ + comma_separated(clustered.columns@) + ")"@;
    let so = match clustered.sorted_by {
        Some(sorted_by) => " SORTED BY ("@ + comma_separated(sorted_by@) + ")"@,
        None => Seq::<char>::empty(),
    };
    let tail = " INTO "@ + clustered.num_buckets.sql() + " BUCKETS"@;
    assert(cb =~= h + so + tail);
    lemma_starts(cb, h, so + tail);
    lemma_has(cb, h, so, tail);
    lemma_ends(cb, h + so, tail);
    let ua = attribute.sql();
    let ah = attribute.name.sql() + " "@ + attribute.data_type.sql();
    let col = option_text(" COLLATE "@, Seq::empty(), attribute.collation);
    lemma_starts(ua, ah, col);
    if let Some(x) = attribute.collation {
        assert(col =~= " COLLATE "@ + x.sql());
        lemma_ends(ua, ah, col);
    } else {
        assert(ua =~= ah);
    }
}

/// `CREATE [OR ALTER] [OR REPLACE] [TEMPORARY] FUNCTION [IF NOT EXISTS] name ...`
#[derive(Debug, Clone, PartialEq, PartialOrd, Eq, Ord, Hash)]
pub struct CreateFunction {
    /// True if this is a `CREATE OR ALTER FUNCTION` statement
    pub or_alter: bool,
    pub or_replace: bool,
    pub temporary: bool,
    pub if_not_exists: bool,
    pub name: ObjectName,
    pub args: Option<Vec<OperateFunctionArg>>,
    pub return_type: Option<DataType>,
    /// The expression that defines the function.
    pub function_body: Option<CreateFunctionBody>,
    /// Behavior attribute for the function: IMMUTABLE | STABLE | VOLATILE
    pub behavior: Option<FunctionBehavior>,
    /// CALLED ON NULL INPUT | RETURNS NULL ON NULL INPUT | STRICT
    pub called_on_null: Option<FunctionCalledOnNull>,
    /// PARALLEL { UNSAFE | RESTRICTED | SAFE }
    pub parallel: Option<FunctionParallel>,
    /// USING ... (Hive only)
    pub using: Option<CreateFunctionUsing>,
    /// Language used in a UDF definition.
    pub language: Option<Ident>,
    /// Determinism keyword used for non-sql UDF definitions.
    pub determinism_specifier: Option<FunctionDeterminismSpecifier>,
    /// List of options for creating the function.
    pub options: Option<Vec<SqlOption>>,
    /// Connection resource for a remote function.
    pub remote_connection: Option<ObjectName>,
}

/// The part of a function body that comes before the `USING` and `OPTIONS` clauses.
pub open spec fn body_before_options(body: Option<CreateFunctionBody>) -> Seq<char> {
    match body {
        Some(CreateFunctionBody::AsBeforeOptions(e)) => " AS "@ + e.sql(),
        Some(CreateFunctionBody::Return(e)) => " RETURN "@ + e.sql(),
        Some(CreateFunctionBody::AsReturnExpr(e)) => " AS RETURN "@ + e.sql(),
        Some(CreateFunctionBody::AsReturnSelect(s)) => " AS RETURN "@ + s.sql(),
        _ => Seq::empty(),
    }
}

/// The part of a function body that comes after the `OPTIONS` clause.
pub open spec fn body_after_options(body: Option<CreateFunctionBody>) -> Seq<char> {
    match body {
        Some(CreateFunctionBody::AsAfterOptions(e)) => " AS "@ + e.sql(),
        Some(CreateFunctionBody::AsBeginEnd(b)) => " AS "@ + b.sql(),
        _ => Seq::empty(),
    }
}

impl SqlDisplay for CreateFunction {
    open spec fn displayable(&self) -> bool {
        self.name.displayable() && option_displayable(self.language) && option_displayable(
            self.remote_connection,
        )
    }

    open spec fn sql(&self) -> Seq<char> {
        "CREATE "@ + if_text(self.or_alter, "OR ALTER "@) + if_text(self.or_replace, "OR REPLACE "@)
            + if_text(self.temporary, "TEMPORARY "@) + "FUNCTION "@ + if_text(
            self.if_not_exists,
            "IF NOT EXISTS "@,
        ) + self.name.sql() + option_list_text("("@, self.args, ")"@) + option_text(
            " RETURNS "@,
            Seq::empty(),
            self.return_type,
        ) + option_text(" "@, Seq::empty(), self.determinism_specifier) + option_text(
            " LANGUAGE "@,
            Seq::empty(),
            self.language,
        ) + option_text(" "@, Seq::empty(), self.behavior) + option_text(
            " "@,
            Seq::empty(),
            self.called_on_null,
        ) + option_text(" "@, Seq::empty(), self.parallel) + option_text(
            " REMOTE WITH CONNECTION "@,
            Seq::empty(),
            self.remote_connection,
        ) + body_before_options(self.function_body) + option_text(" "@, Seq::empty(), self.using)
            + option_list_text(" OPTIONS("@, self.options, ")"@) + body_after_options(
            self.function_body,
        )
    }

    fn to_string(&self) -> (s: String) {
        let mut s = String::from_str("CREATE ");
        append_when(&mut s, self.or_alter, "OR ALTER ");
        append_when(&mut s, self.or_replace, "OR REPLACE ");
        append_when(&mut s, self.temporary, "TEMPORARY ");
        s.append("FUNCTION ");
        append_when(&mut s, self.if_not_exists, "IF NOT EXISTS ");
        append_sql(&mut s, &self.name);
        append_option_list(&mut s, "(", &self.args, ")");
        append_option(&mut s, " RETURNS ", &self.return_type);
        append_option(&mut s, " ", &self.determinism_specifier);
        append_option(&mut s, " LANGUAGE ", &self.language);
        append_option(&mut s, " ", &self.behavior);
        append_option(&mut s, " ", &self.called_on_null);
        append_option(&mut s, " ", &self.parallel);
        append_option(&mut s, " REMOTE WITH CONNECTION ", &self.remote_connection);
        append_body_before_options(&mut s, &self.function_body);
        append_option(&mut s, " ", &self.using);
        append_option_list(&mut s, " OPTIONS(", &self.options, ")");
        append_body_after_options(&mut s, &self.function_body);
        s
    }
}

/// Appends the part of a function body that comes before the `OPTIONS` clause.
pub fn append_body_before_options(s: &mut String, body: &Option<CreateFunctionBody>)
    ensures
        final(s)@ == old(s)@ + body_before_options(*body),
{
    match body {
        Some(CreateFunctionBody::AsBeforeOptions(e)) => {
            s.append(" AS ");
            append_sql(s, e);
        },
        Some(CreateFunctionBody::Return(e)) => {
            s.append(" RETURN ");
            append_sql(s, e);
        },
        Some(CreateFunctionBody::AsReturnExpr(e)) => {
            s.append(" AS RETURN ");
            append_sql(s, e);
        },
        Some(CreateFunctionBody::AsReturnSelect(sel)) => {
            s.append(" AS RETURN ");
            append_sql(s, sel);
        },
        _ => {
            assert(old(s)@ + body_before_options(*body) =~= old(s)@);
        },
    }
}

/// Appends the part of a function body that comes after the `OPTIONS` clause.
pub fn append_body_after_options(s: &mut String, body: &Option<CreateFunctionBody>)
    ensures
        final(s)@ == old(s)@ + body_after_options(*body),
{
    match body {
        Some(CreateFunctionBody::AsAfterOptions(e)) => {
            s.append(" AS ");
            append_sql(s, e);
        },
        Some(CreateFunctionBody::AsBeginEnd(b)) => {
            s.append(" AS ");
            append_sql(s, b);
        },
        _ => {
            assert(old(s)@ + body_after_options(*body) =~= old(s)@);
        },
    }
}

/// The part of a `CREATE FUNCTION` statement up to and including the remote connection:
/// everything that comes before the body, `USING` and `OPTIONS`.
pub open spec fn function_signature_text(f: CreateFunction) -> Seq<char> {
    "CREATE "@ + if_text(f.or_alter, "OR ALTER "@) + if_text(f.or_replace, "OR REPLACE "@)
        + if_text(f.temporary, "TEMPORARY "@) + "FUNCTION "@ + if_text(
        f.if_not_exists,
        "IF NOT EXISTS "@,
    ) + f.name.sql() + option_list_text("("@, f.args, ")"@) + option_text(
        " RETURNS "@,
        Seq::empty(),
        f.return_type,
    ) + option_text(" "@, Seq::empty(), f.determinism_specifier) + option_text(
        " LANGUAGE "@,
        Seq::empty(),
        f.language,
    ) + option_text(" "@, Seq::empty(), f.behavior) + option_text(
        " "@,
        Seq::empty(),
        f.called_on_null,
    ) + option_text(" "@, Seq::empty(), f.parallel) + option_text(
        " REMOTE WITH CONNECTION "@,
        Seq::empty(),
        f.remote_connection,
    )
}

proof fn lemma_function_sql_split(f: CreateFunction)
    ensures
        f.sql() == function_signature_text(f) + (body_before_options(f.function_body)
            + option_text(" "@, Seq::empty(), f.using) + option_list_text(
            " OPTIONS("@,
            f.options,
            ")"@,
        ) + body_after_options(f.function_body)),
{
    let sig = function_signature_text(f);
    let t15 = body_before_options(f.function_body);
    let t16 = option_text(" "@, Seq::empty(), f.using);
    let t17 = option_list_text(" OPTIONS("@, f.options, ")"@);
    let t18 = body_after_options(f.function_body);
    assert(f.sql() == sig + t15 + t16 + t17 + t18);
    assert(sig + t15 + t16 + t17 + t18 =~= sig + (t15 + t16 + t17 + t18));
}

proof fn lemma_function_signature_starts(f: CreateFunction)
    ensures
        starts_with(function_signature_text(f), "CREATE "@),
{
    let t0 = "CREATE "@;
    lemma_starts_with(t0, Seq::empty());
    assert(t0 + Seq::<char>::empty() =~= t0);
    let p1 = t0 + if_text(f.or_alter, "OR ALTER "@);
    lemma_starts_extend(t0, t0, if_text(f.or_alter, "OR ALTER "@));
    let p2 = p1 + if_text(f.or_replace, "OR REPLACE "@);
    lemma_starts_extend(p1, t0, if_text(f.or_replace, "OR REPLACE "@));
    let p3 = p2 + if_text(f.temporary, "TEMPORARY "@);
    lemma_starts_extend(p2, t0, if_text(f.temporary, "TEMPORARY "@));
    let p4 = p3 + "FUNCTION "@;
    lemma_starts_extend(p3, t0, "FUNCTION "@);
    let p5 = p4 + if_text(f.if_not_exists, "IF NOT EXISTS "@);
    lemma_starts_extend(p4, t0, if_text(f.if_not_exists, "IF NOT EXISTS "@));
    let p6 = p5 + f.name.sql();
    lemma_starts_extend(p5, t0, f.name.sql());
    let p7 = p6 + option_list_text("("@, f.args, ")"@);
    lemma_starts_extend(p6, t0, option_list_text("("@, f.args, ")"@));
    let p8 = p7 + option_text(" RETURNS "@, Seq::empty(), f.return_type);
    lemma_starts_extend(p7, t0, option_text(" RETURNS "@, Seq::empty(), f.return_type));
    let p9 = p8 + option_text(" "@, Seq::empty(), f.determinism_specifier);
    lemma_starts_extend(p8, t0, option_text(" "@, Seq::empty(), f.determinism_specifier));
    let p10 = p9 + option_text(" LANGUAGE "@, Seq::empty(), f.language);
    lemma_starts_extend(p9, t0, option_text(" LANGUAGE "@, Seq::empty(), f.language));
    let p11 = p10 + option_text(" "@, Seq::empty(), f.behavior);
    lemma_starts_extend(p10, t0, option_text(" "@, Seq::empty(), f.behavior));
    let p12 = p11 + option_text(" "@, Seq::empty(), f.called_on_null);
    lemma_starts_extend(p11, t0, option_text(" "@, Seq::empty(), f.called_on_null));
    let p13 = p12 + option_text(" "@, Seq::empty(), f.parallel);
    lemma_starts_extend(p12, t0, option_text(" "@, Seq::empty(), f.parallel));
    lemma_starts_extend(
        p13,
        t0,
        option_text(" REMOTE WITH CONNECTION "@, Seq::empty(), f.remote_connection),
    );
}

#[verifier::spinoff_prover]
#[verifier::rlimit(40)]
proof fn lemma_function_signature_parts(f: CreateFunction)
    ensures
        contains_text(function_signature_text(f), f.name.sql()),
        f.args is Some ==> contains_text(
            function_signature_text(f),
            "("@ + comma_separated(f.args.unwrap()@) + ")"@,
        ),
        f.return_type is Some ==> contains_text(
            function_signature_text(f),
            " RETURNS "@ + f.return_type.unwrap().sql(),
        ),
        f.language is Some ==> contains_text(
            function_signature_text(f),
            " LANGUAGE "@ + f.language.unwrap().sql(),
        ),
{
    let p5 = "CREATE "@ + if_text(f.or_alter, "OR ALTER "@) + if_text(f.or_replace, "OR REPLACE "@)
        + if_text(f.temporary, "TEMPORARY "@) + "FUNCTION "@ + if_text(
        f.if_not_exists,
        "IF NOT EXISTS "@,
    );
    let t6 = f.name.sql();
    let t7 = option_list_text("("@, f.args, ")"@);
    let t8 = option_text(" RETURNS "@, Seq::empty(), f.return_type);
    let t9 = option_text(" "@, Seq::empty(), f.determinism_specifier);
    let t10 = option_text(" LANGUAGE "@, Seq::empty(), f.language);
    let t11 = option_text(" "@, Seq::empty(), f.behavior);
    let t12 = option_text(" "@, Seq::empty(), f.called_on_null);
    let t13 = option_text(" "@, Seq::empty(), f.parallel);
    let t14 = option_text(" REMOTE WITH CONNECTION "@, Seq::empty(), f.remote_connection);
    let p6 = p5 + t6;
    let p7 = p6 + t7;
    let p8 = p7 + t8;
    let p9 = p8 + t9;
    let p10 = p9 + t10;
    let p11 = p10 + t11;
    let p12 = p11 + t12;
    let p13 = p12 + t13;
    let p14 = p13 + t14;
    assert(function_signature_text(f) == p14);
    lemma_ends_with(p5, t6);
    lemma_ends_contains(p6, t6);
    lemma_ends_with(p6, t7);
    lemma_ends_contains(p7, t7);
    lemma_ends_with(p7, t8);
    lemma_ends_contains(p8, t8);
    lemma_ends_with(p9, t10);
    lemma_ends_contains(p10, t10);
    lemma_contains_extend(p6, t6, t7);
    lemma_contains_extend(p7, t6, t8);
    lemma_contains_extend(p8, t6, t9);
    lemma_contains_extend(p9, t6, t10);
    lemma_contains_extend(p10, t6, t11);
    lemma_contains_extend(p11, t6, t12);
    lemma_contains_extend(p12, t6, t13);
    lemma_contains_extend(p13, t6, t14);
    lemma_contains_extend(p7, t7, t8);
    lemma_contains_extend(p8, t7, t9);
    lemma_contains_extend(p9, t7, t10);
    lemma_contains_extend(p10, t7, t11);
    lemma_contains_extend(p11, t7, t12);
    lemma_contains_extend(p12, t7, t13);
    lemma_contains_extend(p13, t7, t14);
    lemma_contains_extend(p8, t8, t9);
    lemma_contains_extend(p9, t8, t10);
    lemma_contains_extend(p10, t8, t11);
    lemma_contains_extend(p11, t8, t12);
    lemma_contains_extend(p12, t8, t13);
    lemma_contains_extend(p13, t8, t14);
    lemma_contains_extend(p10, t10, t11);
    lemma_contains_extend(p11, t10, t12);
    lemma_contains_extend(p12, t10, t13);
    lemma_contains_extend(p13, t10, t14);
    if f.return_type is Some {
        assert(t8 =~= " RETURNS "@ + f.return_type.unwrap().sql());
    }
    if f.language is Some {
        assert(t10 =~= " LANGUAGE "@ + f.language.unwrap().sql());
    }
}

/// `CREATE FUNCTION` writes `OR ALTER `, `OR REPLACE `, `TEMPORARY ` and
/// `IF NOT EXISTS ` exactly when their flags are set, in that order around the keyword
/// `FUNCTION `, and the function's name right after them.
#[verifier::spinoff_prover]
#[verifier::rlimit(60)]
pub proof fn create_function_shows_its_modifiers(f: CreateFunction)
    ensures
        starts_with(
            f.sql(),
            "CREATE "@ + (if f.or_alter { "OR ALTER "@ } else { Seq::empty() }) + (if f.or_replace {
                "OR REPLACE "@
            } else {
                Seq::empty()
            }) + (if f.temporary { "TEMPORARY "@ } else { Seq::empty() }) + "FUNCTION "@ + (
            if f.if_not_exists {
                "IF NOT EXISTS "@
            } else {
                Seq::empty()
            }) + f.name.sql(),
        ),
{
    let head = "CREATE "@ + if_text(f.or_alter, "OR ALTER "@) + if_text(f.or_replace, "OR REPLACE "@)
        + if_text(f.temporary, "TEMPORARY "@) + "FUNCTION "@ + if_text(
        f.if_not_exists,
        "IF NOT EXISTS "@,
    ) + f.name.sql();
    let t7 = option_list_text("("@, f.args, ")"@);
    let t8 = option_text(" RETURNS "@, Seq::empty(), f.return_type);
    let t9 = option_text(" "@, Seq::empty(), f.determinism_specifier);
    let t10 = option_text(" LANGUAGE "@, Seq::empty(), f.language);
    let t11 = option_text(" "@, Seq::empty(), f.behavior);
    let t12 = option_text(" "@, Seq::empty(), f.called_on_null);
    let t13 = option_text(" "@, Seq::empty(), f.parallel);
    let t14 = option_text(" REMOTE WITH CONNECTION "@, Seq::empty(), f.remote_connection);
    let p7 = head + t7;
    let p8 = p7 + t8;
    let p9 = p8 + t9;
    let p10 = p9 + t10;
    let p11 = p10 + t11;
    let p12 = p11 + t12;
    let p13 = p12 + t13;
    let sig = p13 + t14;
    assert(function_signature_text(f) == sig);
    lemma_starts_with(head, t7);
    lemma_starts_extend(p7, head, t8);
    lemma_starts_extend(p8, head, t9);
    lemma_starts_extend(p9, head, t10);
    lemma_starts_extend(p10, head, t11);
    lemma_starts_extend(p11, head, t12);
    lemma_starts_extend(p12, head, t13);
    lemma_starts_extend(p13, head, t14);
    let tail = body_before_options(f.function_body) + option_text(" "@, Seq::empty(), f.using)
        + option_list_text(" OPTIONS("@, f.options, ")"@) + body_after_options(f.function_body);
    lemma_function_sql_split(f);
    lemma_starts_extend(sig, head, tail);
}

/// `CREATE FUNCTION` writes every part that the statement carries: it starts with
/// `CREATE `, and holds the name, the argument list, the return type and the language.
#[verifier::spinoff_prover]
#[verifier::rlimit(60)]
pub proof fn create_function_shows_its_signature(f: CreateFunction)
    ensures
        starts_with(f.sql(), "CREATE "@),
        contains_text(f.sql(), f.name.sql()),
        f.args is Some ==> contains_text(f.sql(), "("@ + comma_separated(f.args.unwrap()@) + ")"@),
        f.return_type is Some ==> contains_text(f.sql(), " RETURNS "@ + f.return_type.unwrap().sql()),
        f.language is Some ==> contains_text(f.sql(), " LANGUAGE "@ + f.language.unwrap().sql()),
{
    let sig = function_signature_text(f);
    let tail = body_before_options(f.function_body) + option_text(" "@, Seq::empty(), f.using)
        + option_list_text(" OPTIONS("@, f.options, ")"@) + body_after_options(f.function_body);
    lemma_function_sql_split(f);
    lemma_function_signature_starts(f);
    lemma_function_signature_parts(f);
    lemma_starts_extend(sig, "CREATE "@, tail);
    lemma_contains_extend(sig, f.name.sql(), tail);
    if f.args is Some {
        lemma_contains_extend(sig, "("@ + comma_separated(f.args.unwrap()@) + ")"@, tail);
    }
    if f.return_type is Some {
        lemma_contains_extend(sig, " RETURNS "@ + f.return_type.unwrap().sql(), tail);
    }
    if f.language is Some {
        lemma_contains_extend(sig, " LANGUAGE "@ + f.language.unwrap().sql(), tail);
    }
}

/// The body of a `CREATE FUNCTION` is always written, whether or not options are given.
/// A body that belongs after the options (`AS expr` after `OPTIONS(..)`, or an
/// `AS BEGIN .. END` block) ends the statement; any other body stands in it; with no
/// `USING` and no options the body ends the statement; with options and no body after
/// them, the options end it.
#[verifier::spinoff_prover]
#[verifier::rlimit(40)]
pub proof fn create_function_shows_its_body(f: CreateFunction)
    ensures
        f.function_body matches Some(CreateFunctionBody::AsAfterOptions(e)) ==> ends_with(
            f.sql(),
            " AS "@ + e.sql(),
        ),
        f.function_body matches Some(CreateFunctionBody::AsBeginEnd(b)) ==> ends_with(
            f.sql(),
            " AS "@ + b.sql(),
        ),
        f.function_body matches Some(CreateFunctionBody::AsBeforeOptions(e)) ==> contains_text(
            f.sql(),
            " AS "@ + e.sql(),
        ),
        f.function_body matches Some(CreateFunctionBody::Return(e)) ==> contains_text(
            f.sql(),
            " RETURN "@ + e.sql(),
        ),
        f.function_body matches Some(CreateFunctionBody::AsReturnExpr(e)) ==> contains_text(
            f.sql(),
            " AS RETURN "@ + e.sql(),
        ),
        f.function_body matches Some(CreateFunctionBody::AsReturnSelect(e)) ==> contains_text(
            f.sql(),
            " AS RETURN "@ + e.sql(),
        ),
        f.options is Some ==> contains_text(
            f.sql(),
            " OPTIONS("@ + comma_separated(f.options.unwrap()@) + ")"@,
        ),
        f.using is None && f.options is None && f.function_body is Some ==> ends_with(
            f.sql(),
            body_before_options(f.function_body) + body_after_options(f.function_body),
        ),
        f.options is Some && body_after_options(f.function_body).len() == 0 ==> ends_with(
            f.sql(),
            " OPTIONS("@ + comma_separated(f.options.unwrap()@) + ")"@,
        ),
{
    let sig = function_signature_text(f);
    let t15 = body_before_options(f.function_body);
    let t16 = option_text(" "@, Seq::empty(), f.using);
    let t17 = option_list_text(" OPTIONS("@, f.options, ")"@);
    let t18 = body_after_options(f.function_body);
    lemma_function_sql_split(f);
    let s = f.sql();
    assert(s =~= sig + t15 + t16 + t17 + t18);
    lemma_ends(s, sig + t15 + t16 + t17, t18);
    lemma_has(s, sig, t15, t16 + t17 + t18);
    lemma_has(s, sig + t15 + t16, t17, t18);
    if f.options is Some {
        if t18.len() == 0 {
            lemma_ends(s, sig + t15 + t16, t17);
        }
    }
    if f.using is None && f.options is None && f.function_body is Some {
        lemma_ends(s, sig, t15 + t18);
    }
}

/// `CREATE CONNECTOR [IF NOT EXISTS] connector_name [TYPE datasource_type] [URL datasource_url] [COMMENT connector_comment] [WITH DCPROPERTIES(property_name=property_value, ...)]`
#[derive(Debug, Clone, PartialEq, PartialOrd, Eq, Ord, Hash)]
pub struct CreateConnector {
    pub name: Ident,
    pub if_not_exists: bool,
    pub connector_type: Option<String>,
    pub url: Option<String>,
    pub comment: Option<CommentDef>,
    pub with_dcproperties: Option<Vec<SqlOption>>,
}

/// `prefix`, the text and a closing `'` when the text is given; nothing otherwise.
pub open spec fn quoted_option(prefix: Seq<char>, t: Option<String>) -> Seq<char> {
    match t {
        Some(v) => prefix + v@ + "'"@,
        None => Seq::empty(),
    }
}

impl SqlDisplay for CreateConnector {
    open spec fn displayable(&self) -> bool {
        self.name.displayable()
    }

    open spec fn sql(&self) -> Seq<char> {
        "CREATE CONNECTOR "@ + if_text(self.if_not_exists, "IF NOT EXISTS "@) + self.name.sql()
            + quoted_option(" TYPE '"@, self.connector_type) + quoted_option(" URL '"@, self.url)
            + option_text(" COMMENT = '"@, "'"@, self.comment) + option_list_text(
            " WITH DCPROPERTIES("@,
            self.with_dcproperties,
            ")"@,
        )
    }

    fn to_string(&self) -> (s: String) {
        let mut s = String::from_str("CREATE CONNECTOR ");
        append_when(&mut s, self.if_not_exists, "IF NOT EXISTS ");
        append_sql(&mut s, &self.name);
        append_quoted_option(&mut s, " TYPE '", &self.connector_type);
        append_quoted_option(&mut s, " URL '", &self.url);
        s.append(display_option(" COMMENT = '", "'", &self.comment).as_str());
        append_option_list(&mut s, " WITH DCPROPERTIES(", &self.with_dcproperties, ")");
        s
    }
}

/// Appends `prefix`, the text and a closing `'`, when the text is given.
pub fn append_quoted_option(s: &mut String, prefix: &str, t: &Option<String>)
    ensures
        final(s)@ == old(s)@ + quoted_option(prefix@, *t),
{
    match t {
        Some(v) => {
            s.append(prefix);
            s.append(v.as_str());
            s.append("'");
        },
        None => {
            assert(old(s)@ + quoted_option(prefix@, *t) =~= old(s)@);
        },
    }
}

/// `CREATE CONNECTOR` writes the name after its keywords; the type, the URL and the
/// comment, when given, follow quoted after their keywords; the properties, when given,
/// come last in parentheses after ` WITH DCPROPERTIES`.
#[verifier::spinoff_prover]
#[verifier::rlimit(60)]
pub proof fn create_connector_shows_its_parts(c: CreateConnector)
    ensures
        starts_with(c.sql(), "CREATE CONNECTOR "@),
        contains_text(c.sql(), c.name.sql()),
        c.if_not_exists ==> starts_with(c.sql(), "CREATE CONNECTOR "@ + "IF NOT EXISTS "@),
        c.connector_type is Some ==> contains_text(
            c.sql(),
            " TYPE '"@ + c.connector_type.unwrap()@ + "'"@,
        ),
        c.url is Some ==> contains_text(c.sql(), " URL '"@ + c.url.unwrap()@ + "'"@),
        c.comment is Some ==> contains_text(
            c.sql(),
            " COMMENT = '"@ + c.comment.unwrap().sql() + "'"@,
        ),
        c.with_dcproperties is Some ==> ends_with(
            c.sql(),
            " WITH DCPROPERTIES("@ + comma_separated(c.with_dcproperties.unwrap()@) + ")"@,
        ),
{
    let k = "CREATE CONNECTOR "@;
    let ie = if_text(c.if_not_exists, "IF NOT EXISTS "@);
    let n = c.name.sql();
    let ty = quoted_option(" TYPE '"@, c.connector_type);
    let u = quoted_option(" URL '"@, c.url);
    let cm = option_text(" COMMENT = '"@, "'"@, c.comment);
    let w = option_list_text(" WITH DCPROPERTIES("@, c.with_dcproperties, ")"@);
    let p1 = k + ie;
    let p2 = p1 + n;
    let p3 = p2 + ty;
    let p4 = p3 + u;
    let p5 = p4 + cm;
    let t = p5 + w;
    assert(c.sql() == t);
    lemma_starts_with(k, ie);
    lemma_starts_extend(p1, k, n);
    lemma_starts_extend(p2, k, ty);
    lemma_starts_extend(p3, k, u);
    lemma_starts_extend(p4, k, cm);
    lemma_starts_extend(p5, k, w);
    if c.if_not_exists {
        lemma_starts_with(p1, n);
        lemma_starts_extend(p2, p1, ty);
        lemma_starts_extend(p3, p1, u);
        lemma_starts_extend(p4, p1, cm);
        lemma_starts_extend(p5, p1, w);
    }
    lemma_ends_with(p1, n);
    lemma_ends_contains(p2, n);
    lemma_contains_extend(p2, n, ty);
    lemma_contains_extend(p3, n, u);
    lemma_contains_extend(p4, n, cm);
    lemma_contains_extend(p5, n, w);
    lemma_ends_with(p2, ty);
    lemma_ends_contains(p3, ty);
    lemma_contains_extend(p3, ty, u);
    lemma_contains_extend(p4, ty, cm);
    lemma_contains_extend(p5, ty, w);
    lemma_ends_with(p3, u);
    lemma_ends_contains(p4, u);
    lemma_contains_extend(p4, u, cm);
    lemma_contains_extend(p5, u, w);
    lemma_ends_with(p4, cm);
    lemma_ends_contains(p5, cm);
    lemma_contains_extend(p5, cm, w);
    lemma_ends_with(p5, w);
    if let Some(x) = c.comment {
        assert(cm =~= " COMMENT = '"@ + x.sql() + "'"@);
    }
}

} // verus!
