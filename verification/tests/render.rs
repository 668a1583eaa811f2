use sqlparser_ddl::alter::{
    AlterColumnOperation, AlterConnectorOwner, AlterIndexOperation, AlterPolicyOperation,
    AlterTableAlgorithm, AlterTableLock, AlterTableOperation, AlterTypeAddValue,
    AlterTypeAddValuePosition, AlterTypeOperation, AlterTypeRename, AlterTypeRenameValue, Owner,
    ReplicaIdentity,
};
use sqlparser_ddl::column::{
    ColumnDef, ColumnOption, ColumnOptionDef, ColumnOptions, ColumnPolicy, ColumnPolicyProperty,
    GeneratedAs, GeneratedExpressionMode, IdentityParameters, IdentityProperty,
    IdentityPropertyFormatKind, IdentityPropertyKind, IdentityPropertyOrder, ProcedureParam,
    TagsColumnOption, ViewColumnDef,
};
use sqlparser_ddl::constraint::{
    display_constraint_name, ConstraintCharacteristics, DeferrableInitial, DropBehavior,
    IndexOption, IndexType, KeyOrIndexDisplay, NullsDistinctOption, ReferentialAction,
    TableConstraint,
};
use sqlparser_ddl::create::{
    ClusteredBy, CreateConnector, CreateDomain, CreateFunction, Deduplicate, Partition,
    UserDefinedTypeCompositeAttributeDef, UserDefinedTypeRepresentation,
};
use sqlparser_ddl::fragment::{
    ArgMode, BeginEndStatements, CommentDef, CreateFunctionBody, CreateFunctionUsing, DataType,
    Expr, FunctionBehavior, FunctionCalledOnNull, FunctionDeterminismSpecifier,
    FunctionParallel, Ident, IndexColumn, Keyword, MySQLColumnPosition, ObjectName,
    OperateFunctionArg, OrderByExpr, ProjectionSelect, Select, SequenceOptions, SqlOption, Tag,
    Token, Value, ValueWithSpan,
};
use sqlparser_ddl::text::{
    display_comma_separated, display_option, display_option_spaced, display_separated,
    escape_quoted_string, escape_single_quote_string, SqlDisplay,
};

fn id(s: &str) -> Ident {
    Ident::new(s.to_string())
}

fn ids(names: &[&str]) -> Vec<Ident> {
    names.iter().map(|n| id(n)).collect()
}

fn obj(parts: &[&str]) -> ObjectName {
    ObjectName(ids(parts))
}

fn expr(s: &str) -> Expr {
    Expr(s.to_string())
}

fn ty(s: &str) -> DataType {
    DataType::Named(s.to_string())
}

fn cols(names: &[&str]) -> Vec<IndexColumn> {
    names.iter().map(|n| IndexColumn(n.to_string())).collect()
}

// ---------- identifiers and names ----------

#[test]
fn ident_unquoted_is_its_value() {
    assert_eq!(id("foo").to_string(), "foo");
}

#[test]
fn ident_quotes_are_written_around_the_value() {
    assert_eq!(Ident::with_quote('"', "bar baz".to_string()).to_string(), "\"bar baz\"");
    assert_eq!(Ident::with_quote('`', "a".to_string()).to_string(), "`a`");
    assert_eq!(Ident::with_quote('\'', "a".to_string()).to_string(), "'a'");
    assert_eq!(Ident::with_quote('[', "col1".to_string()).to_string(), "[col1]");
}

#[test]
fn ident_quote_inside_value_is_doubled() {
    assert_eq!(Ident::with_quote('"', "a\"b".to_string()).to_string(), "\"a\"\"b\"");
}

#[test]
fn quoted_ident_renders_the_same_when_already_escaped() {
    let raw = Ident::with_quote('"', "a\"b".to_string());
    let escaped = Ident::with_quote('"', "a\"\"b".to_string());
    assert_eq!(raw.to_string(), escaped.to_string());
}

#[test]
fn object_name_joins_parts_with_dots() {
    let name = ObjectName(vec![
        Ident::with_quote('[', "test_schema".to_string()),
        Ident::with_quote('[', "test_table".to_string()),
    ]);
    assert_eq!(name.to_string(), "[test_schema].[test_table]");
    assert_eq!(obj(&["a", "b", "c"]).to_string(), "a.b.c");
}

// ---------- escaping ----------

#[test]
fn escape_doubles_a_lone_quote() {
    assert_eq!(escape_single_quote_string("it's").to_string(), "it''s");
}

#[test]
fn escape_keeps_doubled_and_backslashed_quotes() {
    assert_eq!(escape_single_quote_string("it''s").to_string(), "it''s");
    assert_eq!(escape_single_quote_string("it\\'s").to_string(), "it\\'s");
}

#[test]
fn escape_leaves_text_without_quotes() {
    assert_eq!(escape_single_quote_string("plain text").to_string(), "plain text");
    assert_eq!(escape_quoted_string("", '"').to_string(), "");
}

#[test]
fn escape_is_idempotent_on_examples() {
    for s in ["'", "''", "'''", "a'b''c", "\\''", "x\\'y'z", "'\\'"] {
        let once = escape_single_quote_string(s);
        let twice = escape_single_quote_string(once.as_str());
        assert_eq!(once, twice, "input {:?}", s);
    }
}

#[test]
fn escape_of_other_quote_char() {
    assert_eq!(escape_quoted_string("a\"b", '"').to_string(), "a\"\"b");
    assert_eq!(escape_quoted_string("a'b", '"').to_string(), "a'b");
}

// ---------- lists and options ----------

#[test]
fn separated_lists() {
    assert_eq!(display_comma_separated(&ids(&["a", "b", "c"])), "a, b, c");
    assert_eq!(display_separated(&ids(&["a", "b"]), " "), "a b");
    assert_eq!(display_comma_separated(&ids(&["only"])), "only");
    assert_eq!(display_comma_separated::<Ident>(&vec![]), "");
}

#[test]
fn optional_parts() {
    assert_eq!(display_option(" USING ", "", &Some(IndexType::Hash)), " USING HASH");
    assert_eq!(display_option("(", ")", &Some(id("x"))), "(x)");
    assert_eq!(display_option::<Ident>(" USING ", "", &None), "");
    assert_eq!(display_option_spaced(&Some(id("idx"))), " idx");
    assert_eq!(display_option_spaced::<Ident>(&None), "");
}

#[test]
fn constraint_names() {
    assert_eq!(display_constraint_name(&Some(id("pk"))), "CONSTRAINT pk ");
    assert_eq!(display_constraint_name(&None), "");
}

// ---------- small keyword types ----------

#[test]
fn replica_identity_renders() {
    assert_eq!(ReplicaIdentity::Nothing.to_string(), "NOTHING");
    assert_eq!(ReplicaIdentity::Full.to_string(), "FULL");
    assert_eq!(ReplicaIdentity::Default.to_string(), "DEFAULT");
    assert_eq!(ReplicaIdentity::Index(id("idx")).to_string(), "USING INDEX idx");
}

#[test]
fn algorithm_and_lock_render() {
    assert_eq!(AlterTableAlgorithm::Default.to_string(), "DEFAULT");
    assert_eq!(AlterTableAlgorithm::Instant.to_string(), "INSTANT");
    assert_eq!(AlterTableAlgorithm::Inplace.to_string(), "INPLACE");
    assert_eq!(AlterTableAlgorithm::Copy.to_string(), "COPY");
    assert_eq!(AlterTableLock::Default.to_string(), "DEFAULT");
    assert_eq!(AlterTableLock::NoLock.to_string(), "NONE");
    assert_eq!(AlterTableLock::Shared.to_string(), "SHARED");
    assert_eq!(AlterTableLock::Exclusive.to_string(), "EXCLUSIVE");
}

#[test]
fn owners_render() {
    assert_eq!(Owner::Ident(id("bob")).to_string(), "bob");
    assert_eq!(Owner::CurrentRole.to_string(), "CURRENT_ROLE");
    assert_eq!(Owner::CurrentUser.to_string(), "CURRENT_USER");
    assert_eq!(Owner::SessionUser.to_string(), "SESSION_USER");
    assert_eq!(AlterConnectorOwner::User(id("u")).to_string(), "USER u");
    assert_eq!(AlterConnectorOwner::Role(id("r")).to_string(), "ROLE r");
}

#[test]
fn referential_actions_and_drop_behaviors_render() {
    assert_eq!(ReferentialAction::Restrict.to_string(), "RESTRICT");
    assert_eq!(ReferentialAction::Cascade.to_string(), "CASCADE");
    assert_eq!(ReferentialAction::SetNull.to_string(), "SET NULL");
    assert_eq!(ReferentialAction::NoAction.to_string(), "NO ACTION");
    assert_eq!(ReferentialAction::SetDefault.to_string(), "SET DEFAULT");
    assert_eq!(DropBehavior::Restrict.to_string(), "RESTRICT");
    assert_eq!(DropBehavior::Cascade.to_string(), "CASCADE");
}

#[test]
fn keyword_renderings_are_distinct() {
    let actions = [
        ReferentialAction::Restrict,
        ReferentialAction::Cascade,
        ReferentialAction::SetNull,
        ReferentialAction::NoAction,
        ReferentialAction::SetDefault,
    ];
    for (i, a) in actions.iter().enumerate() {
        for (j, b) in actions.iter().enumerate() {
            assert_eq!(i == j, a.to_string() == b.to_string());
        }
    }
}

#[test]
fn index_types_render() {
    assert_eq!(IndexType::BTree.to_string(), "BTREE");
    assert_eq!(IndexType::Hash.to_string(), "HASH");
    assert_eq!(IndexType::GIN.to_string(), "GIN");
    assert_eq!(IndexType::GiST.to_string(), "GIST");
    assert_eq!(IndexType::SPGiST.to_string(), "SPGIST");
    assert_eq!(IndexType::BRIN.to_string(), "BRIN");
    assert_eq!(IndexType::Bloom.to_string(), "BLOOM");
    assert_eq!(IndexType::Custom(id("my_method")).to_string(), "my_method");
}

#[test]
fn index_options_render() {
    assert_eq!(IndexOption::Using(IndexType::BTree).to_string(), "USING BTREE");
    assert_eq!(IndexOption::Comment("it's".to_string()).to_string(), "COMMENT 'it's'");
}

#[test]
fn nulls_distinct_renders() {
    assert_eq!(NullsDistinctOption::NotSpecified.to_string(), "");
    assert_eq!(NullsDistinctOption::Distinct.to_string(), " NULLS DISTINCT");
    assert_eq!(NullsDistinctOption::NotDistinct.to_string(), " NULLS NOT DISTINCT");
}

#[test]
fn key_or_index_display() {
    assert!(KeyOrIndexDisplay::Nothing.is_none());
    assert!(!KeyOrIndexDisplay::Key.is_none());
    assert!(!KeyOrIndexDisplay::Index.is_none());
    assert_eq!(KeyOrIndexDisplay::Key.to_string(), "KEY");
    assert_eq!(KeyOrIndexDisplay::Index.to_string(), "INDEX");
    assert_eq!(KeyOrIndexDisplay::Nothing.to_string(), "");
    assert_eq!(KeyOrIndexDisplay::Key.display_aligned(true), " KEY");
    assert_eq!(KeyOrIndexDisplay::Index.display_aligned(true), " INDEX");
    assert_eq!(KeyOrIndexDisplay::Nothing.display_aligned(true), "");
    assert_eq!(KeyOrIndexDisplay::Key.display_aligned(false), "KEY");
}

// ---------- constraint characteristics ----------

fn cc(deferrable: Option<bool>, initially: Option<DeferrableInitial>, enforced: Option<bool>) -> ConstraintCharacteristics {
    ConstraintCharacteristics { deferrable, initially, enforced }
}

#[test]
fn characteristics_in_all_combinations() {
    assert_eq!(cc(None, None, None).to_string(), "");
    assert_eq!(cc(None, None, Some(true)).to_string(), "ENFORCED");
    assert_eq!(cc(None, Some(DeferrableInitial::Immediate), None).to_string(), "INITIALLY IMMEDIATE");
    assert_eq!(
        cc(None, Some(DeferrableInitial::Deferred), Some(false)).to_string(),
        "INITIALLY DEFERRED NOT ENFORCED"
    );
    assert_eq!(cc(Some(true), None, None).to_string(), "DEFERRABLE");
    assert_eq!(cc(Some(false), None, Some(true)).to_string(), "NOT DEFERRABLE ENFORCED");
    assert_eq!(
        cc(Some(true), Some(DeferrableInitial::Deferred), None).to_string(),
        "DEFERRABLE INITIALLY DEFERRED"
    );
    assert_eq!(
        cc(Some(false), Some(DeferrableInitial::Immediate), Some(false)).to_string(),
        "NOT DEFERRABLE INITIALLY IMMEDIATE NOT ENFORCED"
    );
}

#[test]
fn default_characteristics_render_empty() {
    let c = ConstraintCharacteristics::default();
    assert_eq!(c.to_string(), "");
    assert_eq!(c.deferrable_text(), None);
    assert_eq!(c.initially_immediate_text(), None);
    assert_eq!(c.enforced_text(), None);
}

#[test]
fn characteristics_texts() {
    let c = cc(Some(true), Some(DeferrableInitial::Immediate), Some(false));
    assert_eq!(c.deferrable_text(), Some("DEFERRABLE"));
    assert_eq!(c.initially_immediate_text(), Some("INITIALLY IMMEDIATE"));
    assert_eq!(c.enforced_text(), Some("NOT ENFORCED"));
    let d = cc(Some(false), Some(DeferrableInitial::Deferred), Some(true));
    assert_eq!(d.deferrable_text(), Some("NOT DEFERRABLE"));
    assert_eq!(d.initially_immediate_text(), Some("INITIALLY DEFERRED"));
    assert_eq!(d.enforced_text(), Some("ENFORCED"));
}

// ---------- table constraints ----------

#[test]
fn unique_constraint_renders_every_part() {
    let c = TableConstraint::Unique {
        name: Some(id("uq")),
        index_name: Some(id("idx")),
        index_type_display: KeyOrIndexDisplay::Key,
        index_type: Some(IndexType::BTree),
        columns: cols(&["a", "b"]),
        index_options: vec![IndexOption::Comment("c".to_string()), IndexOption::Using(IndexType::Hash)],
        characteristics: Some(cc(Some(true), None, None)),
        nulls_distinct: NullsDistinctOption::NotDistinct,
    };
    assert_eq!(
        c.to_string(),
        "CONSTRAINT uq UNIQUE NULLS NOT DISTINCT KEY idx USING BTREE (a, b) COMMENT 'c' USING HASH DEFERRABLE"
    );
}

#[test]
fn unique_constraint_minimal() {
    let c = TableConstraint::Unique {
        name: None,
        index_name: None,
        index_type_display: KeyOrIndexDisplay::Nothing,
        index_type: None,
        columns: cols(&["a"]),
        index_options: vec![],
        characteristics: None,
        nulls_distinct: NullsDistinctOption::NotSpecified,
    };
    assert_eq!(c.to_string(), "UNIQUE (a)");
}

#[test]
fn primary_key_constraint() {
    let c = TableConstraint::PrimaryKey {
        name: Some(id("bar")),
        index_name: None,
        index_type: None,
        columns: cols(&["baz"]),
        index_options: vec![],
        characteristics: None,
    };
    assert_eq!(c.to_string(), "CONSTRAINT bar PRIMARY KEY (baz)");
    let d = TableConstraint::PrimaryKey {
        name: Some(id("p_name")),
        index_name: Some(id("index_name")),
        index_type: Some(IndexType::BTree),
        columns: cols(&["xid"]),
        index_options: vec![],
        characteristics: Some(cc(None, None, Some(false))),
    };
    assert_eq!(d.to_string(), "CONSTRAINT p_name PRIMARY KEY index_name USING BTREE (xid) NOT ENFORCED");
}

#[test]
fn foreign_key_constraint() {
    let c = TableConstraint::ForeignKey {
        name: Some(id("fk")),
        index_name: None,
        columns: ids(&["a", "b"]),
        foreign_table: obj(&["s", "t"]),
        referred_columns: ids(&["x", "y"]),
        on_delete: Some(ReferentialAction::Cascade),
        on_update: Some(ReferentialAction::SetNull),
        characteristics: Some(cc(Some(true), Some(DeferrableInitial::Deferred), None)),
    };
    assert_eq!(
        c.to_string(),
        "CONSTRAINT fk FOREIGN KEY (a, b) REFERENCES s.t(x, y) ON DELETE CASCADE ON UPDATE SET NULL DEFERRABLE INITIALLY DEFERRED"
    );
    let d = TableConstraint::ForeignKey {
        name: None,
        index_name: Some(id("i")),
        columns: ids(&["a"]),
        foreign_table: obj(&["t"]),
        referred_columns: vec![],
        on_delete: None,
        on_update: None,
        characteristics: None,
    };
    assert_eq!(d.to_string(), "FOREIGN KEY i (a) REFERENCES t");
}

#[test]
fn check_constraint() {
    let c = TableConstraint::Check { name: None, expr: Box::new(expr("a > 0")), enforced: None };
    assert_eq!(c.to_string(), "CHECK (a > 0)");
    let d = TableConstraint::Check { name: Some(id("c1")), expr: Box::new(expr("a > 0")), enforced: Some(true) };
    assert_eq!(d.to_string(), "CONSTRAINT c1 CHECK (a > 0) ENFORCED");
    let e = TableConstraint::Check { name: None, expr: Box::new(expr("b")), enforced: Some(false) };
    assert_eq!(e.to_string(), "CHECK (b) NOT ENFORCED");
}

#[test]
fn index_constraint() {
    let c = TableConstraint::Index {
        display_as_key: true,
        name: Some(id("k")),
        index_type: Some(IndexType::Hash),
        columns: cols(&["a", "b"]),
    };
    assert_eq!(c.to_string(), "KEY k USING HASH (a, b)");
    let d = TableConstraint::Index { display_as_key: false, name: None, index_type: None, columns: cols(&["a"]) };
    assert_eq!(d.to_string(), "INDEX (a)");
}

#[test]
fn fulltext_or_spatial_constraint() {
    let c = TableConstraint::FulltextOrSpatial {
        fulltext: true,
        index_type_display: KeyOrIndexDisplay::Index,
        opt_index_name: Some(id("ft")),
        columns: cols(&["body"]),
    };
    assert_eq!(c.to_string(), "FULLTEXT INDEX ft (body)");
    let d = TableConstraint::FulltextOrSpatial {
        fulltext: false,
        index_type_display: KeyOrIndexDisplay::Nothing,
        opt_index_name: None,
        columns: cols(&["g"]),
    };
    assert_eq!(d.to_string(), "SPATIAL (g)");
}

// ---------- columns ----------

#[test]
fn column_def_with_and_without_type() {
    let c = ColumnDef {
        name: id("a"),
        data_type: ty("INT"),
        options: vec![
            ColumnOptionDef { name: None, option: ColumnOption::NotNull },
            ColumnOptionDef { name: Some(id("d")), option: ColumnOption::Default(expr("0")) },
        ],
    };
    assert_eq!(c.to_string(), "a INT NOT NULL CONSTRAINT d DEFAULT 0");
    let u = ColumnDef { name: id("b"), data_type: DataType::Unspecified, options: vec![] };
    assert_eq!(u.to_string(), "b");
}

#[test]
fn quoted_column_def() {
    let c = ColumnDef {
        name: Ident::with_quote('"', "bar".to_string()),
        data_type: ty("\"int\""),
        options: vec![],
    };
    assert_eq!(c.to_string(), "\"bar\" \"int\"");
}

#[test]
fn view_column_defs() {
    let plain = ViewColumnDef { name: id("name"), data_type: None, options: None };
    assert_eq!(plain.to_string(), "name");
    let typed = ViewColumnDef { name: id("created_at"), data_type: Some(ty("DateTime64")), options: None };
    assert_eq!(typed.to_string(), "created_at DateTime64");
    let comma = ViewColumnDef {
        name: id("age"),
        data_type: None,
        options: Some(ColumnOptions::CommaSeparated(vec![
            ColumnOption::Options(vec![SqlOption("description = \"age column\"".to_string())]),
            ColumnOption::NotNull,
        ])),
    };
    assert_eq!(comma.to_string(), "age OPTIONS(description = \"age column\"), NOT NULL");
    let space = ViewColumnDef {
        name: id("amount"),
        data_type: None,
        options: Some(ColumnOptions::SpaceSeparated(vec![
            ColumnOption::Comment("The total amount for the order line".to_string()),
            ColumnOption::Null,
        ])),
    };
    assert_eq!(space.to_string(), "amount COMMENT 'The total amount for the order line' NULL");
}

#[test]
fn column_options_as_slice_ignores_separator() {
    let opts = vec![ColumnOption::Null, ColumnOption::NotNull];
    let a = ColumnOptions::CommaSeparated(opts.clone());
    let b = ColumnOptions::SpaceSeparated(opts.clone());
    assert_eq!(a.as_slice(), opts.as_slice());
    assert_eq!(b.as_slice(), opts.as_slice());
}

#[test]
fn procedure_params() {
    let p = ProcedureParam { name: id("x"), data_type: ty("INT"), mode: Some(ArgMode("IN".to_string())) };
    assert_eq!(p.to_string(), "IN x INT");
    let q = ProcedureParam { name: id("y"), data_type: ty("TEXT"), mode: None };
    assert_eq!(q.to_string(), "y TEXT");
}

#[test]
fn simple_column_options() {
    assert_eq!(ColumnOption::Null.to_string(), "NULL");
    assert_eq!(ColumnOption::NotNull.to_string(), "NOT NULL");
    assert_eq!(ColumnOption::Default(expr("1")).to_string(), "DEFAULT 1");
    assert_eq!(ColumnOption::Materialized(expr("a + 1")).to_string(), "MATERIALIZE a + 1");
    assert_eq!(ColumnOption::Ephemeral(None).to_string(), "EPHEMERAL");
    assert_eq!(ColumnOption::Ephemeral(Some(expr("now()"))).to_string(), "EPHEMERAL now()");
    assert_eq!(ColumnOption::Alias(expr("b")).to_string(), "ALIAS b");
    assert_eq!(ColumnOption::Check(expr("a > 1")).to_string(), "CHECK (a > 1)");
    assert_eq!(
        ColumnOption::DialectSpecific(vec![Token("AUTO_INCREMENT".to_string()), Token("X".to_string())]).to_string(),
        "AUTO_INCREMENT X"
    );
    assert_eq!(ColumnOption::CharacterSet(obj(&["utf8mb4"])).to_string(), "CHARACTER SET utf8mb4");
    assert_eq!(ColumnOption::Collation(obj(&["de_DE"])).to_string(), "COLLATE de_DE");
    assert_eq!(ColumnOption::OnUpdate(expr("CURRENT_TIMESTAMP")).to_string(), "ON UPDATE CURRENT_TIMESTAMP");
    assert_eq!(ColumnOption::OnConflict(Keyword("REPLACE".to_string())).to_string(), "ON CONFLICT REPLACE");
    assert_eq!(ColumnOption::Srid(Box::new(expr("4326"))).to_string(), "SRID 4326");
    assert_eq!(
        ColumnOption::Options(vec![SqlOption("a = 1".to_string()), SqlOption("b = 2".to_string())]).to_string(),
        "OPTIONS(a = 1, b = 2)"
    );
}

#[test]
fn comment_column_option_escapes_quotes() {
    assert_eq!(ColumnOption::Comment("it's".to_string()).to_string(), "COMMENT 'it''s'");
    assert_eq!(ColumnOption::Comment("it''s".to_string()).to_string(), "COMMENT 'it''s'");
}

#[test]
fn unique_and_foreign_key_column_options() {
    assert_eq!(ColumnOption::Unique { is_primary: true, characteristics: None }.to_string(), "PRIMARY KEY");
    assert_eq!(
        ColumnOption::Unique { is_primary: false, characteristics: Some(cc(Some(true), None, None)) }.to_string(),
        "UNIQUE DEFERRABLE"
    );
    let fk = ColumnOption::ForeignKey {
        foreign_table: obj(&["t"]),
        referred_columns: ids(&["id"]),
        on_delete: Some(ReferentialAction::Restrict),
        on_update: None,
        characteristics: Some(cc(None, None, Some(true))),
    };
    assert_eq!(fk.to_string(), "REFERENCES t (id) ON DELETE RESTRICT ENFORCED");
    let bare = ColumnOption::ForeignKey {
        foreign_table: obj(&["t"]),
        referred_columns: vec![],
        on_delete: None,
        on_update: Some(ReferentialAction::NoAction),
        characteristics: None,
    };
    assert_eq!(bare.to_string(), "REFERENCES t ON UPDATE NO ACTION");
}

#[test]
fn generated_column_options() {
    let stored = ColumnOption::Generated {
        generated_as: GeneratedAs::ExpStored,
        sequence_options: None,
        generation_expr: Some(expr("a + b")),
        generation_expr_mode: Some(GeneratedExpressionMode::Stored),
        generated_keyword: true,
    };
    assert_eq!(stored.to_string(), "GENERATED ALWAYS AS (a + b) STORED");
    let short = ColumnOption::Generated {
        generated_as: GeneratedAs::Always,
        sequence_options: None,
        generation_expr: Some(expr("a")),
        generation_expr_mode: Some(GeneratedExpressionMode::Virtual),
        generated_keyword: false,
    };
    assert_eq!(short.to_string(), "AS (a) VIRTUAL");
    let plain = ColumnOption::Generated {
        generated_as: GeneratedAs::Always,
        sequence_options: None,
        generation_expr: Some(expr("a")),
        generation_expr_mode: None,
        generated_keyword: false,
    };
    assert_eq!(plain.to_string(), "AS (a)");
    let identity = ColumnOption::Generated {
        generated_as: GeneratedAs::ByDefault,
        sequence_options: Some(vec![
            SequenceOptions(" START WITH 1".to_string()),
            SequenceOptions(" INCREMENT BY 2".to_string()),
        ]),
        generation_expr: None,
        generation_expr_mode: None,
        generated_keyword: true,
    };
    assert_eq!(identity.to_string(), "GENERATED BY DEFAULT AS IDENTITY ( START WITH 1 INCREMENT BY 2 )");
    let empty_options = ColumnOption::Generated {
        generated_as: GeneratedAs::Always,
        sequence_options: Some(vec![]),
        generation_expr: None,
        generation_expr_mode: None,
        generated_keyword: true,
    };
    assert_eq!(empty_options.to_string(), "GENERATED ALWAYS AS IDENTITY");
    let no_options = ColumnOption::Generated {
        generated_as: GeneratedAs::Always,
        sequence_options: None,
        generation_expr: None,
        generation_expr_mode: None,
        generated_keyword: true,
    };
    assert_eq!(no_options.to_string(), "GENERATED ALWAYS AS IDENTITY");
}

#[test]
fn identity_column_options() {
    let call = ColumnOption::Identity(IdentityPropertyKind::Identity(IdentityProperty {
        parameters: Some(IdentityPropertyFormatKind::FunctionCall(IdentityParameters {
            seed: expr("100"),
            increment: expr("1"),
        })),
        order: Some(IdentityPropertyOrder::Order),
    }));
    assert_eq!(call.to_string(), "IDENTITY(100, 1) ORDER");
    let start = ColumnOption::Identity(IdentityPropertyKind::Autoincrement(IdentityProperty {
        parameters: Some(IdentityPropertyFormatKind::StartAndIncrement(IdentityParameters {
            seed: expr("100"),
            increment: expr("1"),
        })),
        order: Some(IdentityPropertyOrder::NoOrder),
    }));
    assert_eq!(start.to_string(), "AUTOINCREMENT START 100 INCREMENT 1 NOORDER");
    let bare = IdentityPropertyKind::Identity(IdentityProperty { parameters: None, order: None });
    assert_eq!(bare.to_string(), "IDENTITY");
}

#[test]
fn policy_and_tags_column_options() {
    let masking = ColumnOption::Policy(ColumnPolicy::MaskingPolicy(ColumnPolicyProperty {
        with: true,
        policy_name: obj(&["p"]),
        using_columns: Some(ids(&["a", "b"])),
    }));
    assert_eq!(masking.to_string(), "WITH MASKING POLICY p USING (a, b)");
    let projection = ColumnPolicy::ProjectionPolicy(ColumnPolicyProperty {
        with: false,
        policy_name: obj(&["sample_policy"]),
        using_columns: None,
    });
    assert_eq!(projection.to_string(), "PROJECTION POLICY sample_policy");
    let tags = TagsColumnOption { with: true, tags: vec![Tag("A = 'Tag A'".to_string()), Tag("B = 'b'".to_string())] };
    assert_eq!(tags.to_string(), "WITH TAG (A = 'Tag A', B = 'b')");
    let bare_tags = ColumnOption::Tags(TagsColumnOption { with: false, tags: vec![Tag("A = 'x'".to_string())] });
    assert_eq!(bare_tags.to_string(), "TAG (A = 'x')");
}

// ---------- ALTER ----------

#[test]
fn alter_policy_operations() {
    assert_eq!(AlterPolicyOperation::Rename { new_name: id("p2") }.to_string(), " RENAME TO p2");
    let apply = AlterPolicyOperation::Apply {
        to: Some(vec![Owner::CurrentUser, Owner::Ident(id("bob"))]),
        using: Some(expr("a = 1")),
        with_check: Some(expr("b")),
    };
    assert_eq!(apply.to_string(), " TO CURRENT_USER, bob USING (a = 1) WITH CHECK (b)");
    let nothing = AlterPolicyOperation::Apply { to: None, using: None, with_check: None };
    assert_eq!(nothing.to_string(), "");
}

#[test]
fn alter_index_operation() {
    assert_eq!(
        AlterIndexOperation::RenameIndex { index_name: obj(&["s", "i2"]) }.to_string(),
        "RENAME TO s.i2"
    );
}

#[test]
fn alter_type_operations() {
    assert_eq!(AlterTypeOperation::Rename(AlterTypeRename { new_name: id("t2") }).to_string(), "RENAME TO t2");
    let add = AlterTypeOperation::AddValue(AlterTypeAddValue {
        if_not_exists: true,
        value: Ident::with_quote('\'', "x".to_string()),
        position: Some(AlterTypeAddValuePosition::Before(Ident::with_quote('\'', "y".to_string()))),
    });
    assert_eq!(add.to_string(), "ADD VALUE IF NOT EXISTS 'x' BEFORE 'y'");
    let after = AlterTypeOperation::AddValue(AlterTypeAddValue {
        if_not_exists: false,
        value: id("v"),
        position: Some(AlterTypeAddValuePosition::After(id("w"))),
    });
    assert_eq!(after.to_string(), "ADD VALUE v AFTER w");
    let plain = AlterTypeOperation::AddValue(AlterTypeAddValue { if_not_exists: false, value: id("v"), position: None });
    assert_eq!(plain.to_string(), "ADD VALUE v");
    let rename = AlterTypeOperation::RenameValue(AlterTypeRenameValue { from: id("a"), to: id("b") });
    assert_eq!(rename.to_string(), "RENAME VALUE a TO b");
}

#[test]
fn alter_column_operations() {
    assert_eq!(AlterColumnOperation::SetNotNull.to_string(), "SET NOT NULL");
    assert_eq!(AlterColumnOperation::DropNotNull.to_string(), "DROP NOT NULL");
    assert_eq!(AlterColumnOperation::SetDefault { value: expr("0") }.to_string(), "SET DEFAULT 0");
    assert_eq!(AlterColumnOperation::DropDefault.to_string(), "DROP DEFAULT");
    assert_eq!(
        AlterColumnOperation::SetDataType { data_type: ty("TEXT"), using: Some(expr("a::TEXT")), had_set: true }.to_string(),
        "SET DATA TYPE TEXT USING a::TEXT"
    );
    assert_eq!(
        AlterColumnOperation::SetDataType { data_type: ty("INT"), using: None, had_set: false }.to_string(),
        "TYPE INT"
    );
    assert_eq!(
        AlterColumnOperation::AddGenerated { generated_as: Some(GeneratedAs::Always), sequence_options: None }.to_string(),
        "ADD GENERATED ALWAYS AS IDENTITY"
    );
    assert_eq!(
        AlterColumnOperation::AddGenerated {
            generated_as: Some(GeneratedAs::ByDefault),
            sequence_options: Some(vec![SequenceOptions(" START WITH 5".to_string())]),
        }
        .to_string(),
        "ADD GENERATED BY DEFAULT AS IDENTITY ( START WITH 5 )"
    );
    assert_eq!(
        AlterColumnOperation::AddGenerated { generated_as: None, sequence_options: Some(vec![]) }.to_string(),
        "ADD GENERATED AS IDENTITY ( )"
    );
}

#[test]
fn alter_table_add_operations() {
    let add_constraint = AlterTableOperation::AddConstraint {
        constraint: TableConstraint::PrimaryKey {
            name: Some(Ident::with_quote('"', "bar".to_string())),
            index_name: None,
            index_type: None,
            columns: cols(&["baz"]),
            index_options: vec![],
            characteristics: None,
        },
        not_valid: false,
    };
    assert_eq!(add_constraint.to_string(), "ADD CONSTRAINT \"bar\" PRIMARY KEY (baz)");
    let not_valid = AlterTableOperation::AddConstraint {
        constraint: TableConstraint::Check { name: None, expr: Box::new(expr("a")), enforced: None },
        not_valid: true,
    };
    assert_eq!(not_valid.to_string(), "ADD CHECK (a) NOT VALID");
    let add_column = AlterTableOperation::AddColumn {
        column_keyword: true,
        if_not_exists: true,
        column_def: ColumnDef { name: id("c"), data_type: ty("INT"), options: vec![] },
        column_position: Some(MySQLColumnPosition("FIRST".to_string())),
    };
    assert_eq!(add_column.to_string(), "ADD COLUMN IF NOT EXISTS c INT FIRST");
    let add_column_short = AlterTableOperation::AddColumn {
        column_keyword: false,
        if_not_exists: false,
        column_def: ColumnDef { name: id("c"), data_type: ty("INT"), options: vec![] },
        column_position: None,
    };
    assert_eq!(add_column_short.to_string(), "ADD c INT");
    let add_projection = AlterTableOperation::AddProjection {
        if_not_exists: true,
        name: id("p"),
        select: ProjectionSelect("SELECT a".to_string()),
    };
    assert_eq!(add_projection.to_string(), "ADD PROJECTION IF NOT EXISTS p (SELECT a)");
    let add_partitions = AlterTableOperation::AddPartitions {
        if_not_exists: true,
        new_partitions: vec![Partition::Expr(expr("a = 1")), Partition::Part(expr("b"))],
    };
    assert_eq!(add_partitions.to_string(), "ADD IF NOT EXISTS PARTITION a = 1 PART b");
}

#[test]
fn alter_table_projection_operations() {
    assert_eq!(
        AlterTableOperation::DropProjection { if_exists: true, name: id("p") }.to_string(),
        "DROP PROJECTION IF EXISTS p"
    );
    assert_eq!(
        AlterTableOperation::MaterializeProjection { if_exists: false, name: id("p"), partition: Some(id("q")) }.to_string(),
        "MATERIALIZE PROJECTION p IN PARTITION q"
    );
    assert_eq!(
        AlterTableOperation::ClearProjection { if_exists: true, name: id("p"), partition: None }.to_string(),
        "CLEAR PROJECTION IF EXISTS p"
    );
}

#[test]
fn alter_table_drop_operations() {
    assert_eq!(
        AlterTableOperation::DropConstraint { if_exists: true, name: id("c"), drop_behavior: Some(DropBehavior::Cascade) }.to_string(),
        "DROP CONSTRAINT IF EXISTS c CASCADE"
    );
    assert_eq!(
        AlterTableOperation::DropConstraint { if_exists: false, name: id("c"), drop_behavior: None }.to_string(),
        "DROP CONSTRAINT c"
    );
    assert_eq!(
        AlterTableOperation::DropColumn {
            has_column_keyword: true,
            column_names: ids(&["a", "b"]),
            if_exists: true,
            drop_behavior: Some(DropBehavior::Restrict),
        }
        .to_string(),
        "DROP COLUMN IF EXISTS a, b RESTRICT"
    );
    assert_eq!(
        AlterTableOperation::DropColumn { has_column_keyword: false, column_names: ids(&["a"]), if_exists: false, drop_behavior: None }
            .to_string(),
        "DROP a"
    );
    assert_eq!(AlterTableOperation::DropPrimaryKey.to_string(), "DROP PRIMARY KEY");
    assert_eq!(AlterTableOperation::DropForeignKey { name: id("fk") }.to_string(), "DROP FOREIGN KEY fk");
    assert_eq!(AlterTableOperation::DropIndex { name: id("i") }.to_string(), "DROP INDEX i");
    assert_eq!(
        AlterTableOperation::DropPartitions { partitions: vec![expr("a"), expr("b")], if_exists: true }.to_string(),
        "DROP IF EXISTS PARTITION (a, b)"
    );
    assert_eq!(AlterTableOperation::DropClusteringKey.to_string(), "DROP CLUSTERING KEY");
}

#[test]
fn alter_table_enable_disable_operations() {
    assert_eq!(AlterTableOperation::DisableRowLevelSecurity.to_string(), "DISABLE ROW LEVEL SECURITY");
    assert_eq!(AlterTableOperation::DisableRule { name: id("r") }.to_string(), "DISABLE RULE r");
    assert_eq!(AlterTableOperation::DisableTrigger { name: id("t") }.to_string(), "DISABLE TRIGGER t");
    assert_eq!(AlterTableOperation::EnableAlwaysRule { name: id("r") }.to_string(), "ENABLE ALWAYS RULE r");
    assert_eq!(AlterTableOperation::EnableAlwaysTrigger { name: id("t") }.to_string(), "ENABLE ALWAYS TRIGGER t");
    assert_eq!(AlterTableOperation::EnableReplicaRule { name: id("r") }.to_string(), "ENABLE REPLICA RULE r");
    assert_eq!(AlterTableOperation::EnableReplicaTrigger { name: id("t") }.to_string(), "ENABLE REPLICA TRIGGER t");
    assert_eq!(AlterTableOperation::EnableRowLevelSecurity.to_string(), "ENABLE ROW LEVEL SECURITY");
    assert_eq!(AlterTableOperation::EnableRule { name: id("r") }.to_string(), "ENABLE RULE r");
    assert_eq!(AlterTableOperation::EnableTrigger { name: id("t") }.to_string(), "ENABLE TRIGGER t");
}

#[test]
fn alter_table_partition_operations() {
    assert_eq!(
        AlterTableOperation::AttachPartition { partition: Partition::Identifier(id("p1")) }.to_string(),
        "ATTACH PARTITION ID p1"
    );
    assert_eq!(
        AlterTableOperation::DetachPartition { partition: Partition::Part(expr("x")) }.to_string(),
        "DETACH PART x"
    );
    assert_eq!(
        AlterTableOperation::FreezePartition { partition: Partition::Expr(expr("2024")), with_name: Some(id("bk")) }.to_string(),
        "FREEZE PARTITION 2024 WITH NAME bk"
    );
    assert_eq!(
        AlterTableOperation::UnfreezePartition { partition: Partition::Partitions(vec![expr("a"), expr("b")]), with_name: None }
            .to_string(),
        "UNFREEZE PARTITION (a, b)"
    );
    assert_eq!(
        AlterTableOperation::RenamePartitions { old_partitions: vec![expr("a = 1")], new_partitions: vec![expr("a = 2")] }
            .to_string(),
        "PARTITION (a = 1) RENAME TO PARTITION (a = 2)"
    );
}

#[test]
fn alter_table_rename_and_change_operations() {
    assert_eq!(
        AlterTableOperation::RenameColumn { old_column_name: id("a"), new_column_name: id("b") }.to_string(),
        "RENAME COLUMN a TO b"
    );
    assert_eq!(AlterTableOperation::RenameTable { table_name: obj(&["s", "t"]) }.to_string(), "RENAME TO s.t");
    assert_eq!(
        AlterTableOperation::RenameConstraint { old_name: id("c1"), new_name: id("c2") }.to_string(),
        "RENAME CONSTRAINT c1 TO c2"
    );
    assert_eq!(
        AlterTableOperation::ChangeColumn {
            old_name: id("a"),
            new_name: id("b"),
            data_type: ty("INT"),
            options: vec![ColumnOption::NotNull, ColumnOption::Default(expr("1"))],
            column_position: Some(MySQLColumnPosition("AFTER c".to_string())),
        }
        .to_string(),
        "CHANGE COLUMN a b INT NOT NULL DEFAULT 1 AFTER c"
    );
    assert_eq!(
        AlterTableOperation::ChangeColumn {
            old_name: id("a"),
            new_name: id("b"),
            data_type: ty("TEXT"),
            options: vec![],
            column_position: None,
        }
        .to_string(),
        "CHANGE COLUMN a b TEXT"
    );
    assert_eq!(
        AlterTableOperation::ModifyColumn {
            col_name: id("a"),
            data_type: ty("BIGINT"),
            options: vec![ColumnOption::Null],
            column_position: None,
        }
        .to_string(),
        "MODIFY COLUMN a BIGINT NULL"
    );
    assert_eq!(
        AlterTableOperation::AlterColumn { column_name: id("a"), op: AlterColumnOperation::DropDefault }.to_string(),
        "ALTER COLUMN a DROP DEFAULT"
    );
    assert_eq!(AlterTableOperation::SwapWith { table_name: obj(&["t2"]) }.to_string(), "SWAP WITH t2");
    assert_eq!(AlterTableOperation::OwnerTo { new_owner: Owner::SessionUser }.to_string(), "OWNER TO SESSION_USER");
}

#[test]
fn alter_table_setting_operations() {
    assert_eq!(
        AlterTableOperation::SetTblProperties { table_properties: vec![SqlOption("'a' = '1'".to_string())] }.to_string(),
        "SET TBLPROPERTIES('a' = '1')"
    );
    assert_eq!(
        AlterTableOperation::ClusterBy { exprs: vec![expr("a"), expr("b")] }.to_string(),
        "CLUSTER BY (a, b)"
    );
    assert_eq!(AlterTableOperation::SuspendRecluster.to_string(), "SUSPEND RECLUSTER");
    assert_eq!(AlterTableOperation::ResumeRecluster.to_string(), "RESUME RECLUSTER");
    assert_eq!(
        AlterTableOperation::Algorithm { equals: true, algorithm: AlterTableAlgorithm::Inplace }.to_string(),
        "ALGORITHM = INPLACE"
    );
    assert_eq!(
        AlterTableOperation::Algorithm { equals: false, algorithm: AlterTableAlgorithm::Copy }.to_string(),
        "ALGORITHM COPY"
    );
    assert_eq!(AlterTableOperation::Lock { equals: true, lock: AlterTableLock::Shared }.to_string(), "LOCK = SHARED");
    assert_eq!(AlterTableOperation::Lock { equals: false, lock: AlterTableLock::NoLock }.to_string(), "LOCK NONE");
    assert_eq!(
        AlterTableOperation::AutoIncrement { equals: true, value: ValueWithSpan("100".to_string()) }.to_string(),
        "AUTO_INCREMENT = 100"
    );
    assert_eq!(
        AlterTableOperation::AutoIncrement { equals: false, value: ValueWithSpan("7".to_string()) }.to_string(),
        "AUTO_INCREMENT 7"
    );
    assert_eq!(
        AlterTableOperation::ReplicaIdentity { identity: ReplicaIdentity::Full }.to_string(),
        "REPLICA IDENTITY FULL"
    );
    assert_eq!(
        AlterTableOperation::ReplicaIdentity { identity: ReplicaIdentity::Nothing }.to_string(),
        "REPLICA IDENTITY NOTHING"
    );
    assert_eq!(AlterTableOperation::ValidateConstraint { name: id("c") }.to_string(), "VALIDATE CONSTRAINT c");
    assert_eq!(
        AlterTableOperation::SetOptionsParens {
            options: vec![SqlOption("scale_factor = 0.01".to_string()), SqlOption("threshold = 500".to_string())],
        }
        .to_string(),
        "SET (scale_factor = 0.01, threshold = 500)"
    );
}

// ---------- CREATE ----------

#[test]
fn user_defined_types() {
    let composite = UserDefinedTypeRepresentation::Composite {
        attributes: vec![
            UserDefinedTypeCompositeAttributeDef { name: id("a"), data_type: ty("INT"), collation: None },
            UserDefinedTypeCompositeAttributeDef { name: id("b"), data_type: ty("TEXT"), collation: Some(obj(&["de_DE"])) },
        ],
    };
    assert_eq!(composite.to_string(), "(a INT, b TEXT COLLATE de_DE)");
    let labels = UserDefinedTypeRepresentation::Enum {
        labels: vec![Ident::with_quote('\'', "sad".to_string()), Ident::with_quote('\'', "ok".to_string())],
    };
    assert_eq!(labels.to_string(), "ENUM ('sad', 'ok')");
}

#[test]
fn partitions_and_deduplicate() {
    assert_eq!(Partition::Identifier(id("p")).to_string(), "PARTITION ID p");
    assert_eq!(Partition::Expr(expr("x")).to_string(), "PARTITION x");
    assert_eq!(Partition::Part(expr("x")).to_string(), "PART x");
    assert_eq!(Partition::Partitions(vec![expr("1"), expr("2")]).to_string(), "PARTITION (1, 2)");
    assert_eq!(Deduplicate::All.to_string(), "DEDUPLICATE");
    assert_eq!(Deduplicate::ByExpression(expr("a")).to_string(), "DEDUPLICATE BY a");
}

#[test]
fn clustered_by() {
    let c = ClusteredBy {
        columns: ids(&["a", "b"]),
        sorted_by: Some(vec![OrderByExpr("a ASC".to_string()), OrderByExpr("b DESC".to_string())]),
        num_buckets: Value("4".to_string()),
    };
    assert_eq!(c.to_string(), "CLUSTERED BY (a, b) SORTED BY (a ASC, b DESC) INTO 4 BUCKETS");
    let d = ClusteredBy { columns: ids(&["a"]), sorted_by: None, num_buckets: Value("8".to_string()) };
    assert_eq!(d.to_string(), "CLUSTERED BY (a) INTO 8 BUCKETS");
}

#[test]
fn create_domain() {
    let d = CreateDomain {
        name: obj(&["positive_int"]),
        data_type: ty("INT"),
        collation: Some(id("c")),
        default: Some(expr("1")),
        constraints: vec![TableConstraint::Check { name: None, expr: Box::new(expr("VALUE > 0")), enforced: None }],
    };
    assert_eq!(d.to_string(), "CREATE DOMAIN positive_int AS INT COLLATE c DEFAULT 1 CHECK (VALUE > 0)");
    let plain = CreateDomain { name: obj(&["d"]), data_type: ty("TEXT"), collation: None, default: None, constraints: vec![] };
    assert_eq!(plain.to_string(), "CREATE DOMAIN d AS TEXT");
}

fn base_function() -> CreateFunction {
    CreateFunction {
        or_alter: false,
        or_replace: false,
        temporary: false,
        if_not_exists: false,
        name: obj(&["f"]),
        args: None,
        return_type: None,
        function_body: None,
        behavior: None,
        called_on_null: None,
        parallel: None,
        using: None,
        language: None,
        determinism_specifier: None,
        options: None,
        remote_connection: None,
    }
}

#[test]
fn create_function_minimal() {
    assert_eq!(base_function().to_string(), "CREATE FUNCTION f");
}

#[test]
fn create_function_full() {
    let mut f = base_function();
    f.or_alter = true;
    f.or_replace = true;
    f.temporary = true;
    f.if_not_exists = true;
    f.args = Some(vec![OperateFunctionArg("a INT".to_string()), OperateFunctionArg("b INT".to_string())]);
    f.return_type = Some(ty("INT"));
    f.determinism_specifier = Some(FunctionDeterminismSpecifier("DETERMINISTIC".to_string()));
    f.language = Some(id("js"));
    f.behavior = Some(FunctionBehavior("IMMUTABLE".to_string()));
    f.called_on_null = Some(FunctionCalledOnNull("STRICT".to_string()));
    f.parallel = Some(FunctionParallel("PARALLEL SAFE".to_string()));
    f.remote_connection = Some(obj(&["us", "conn"]));
    f.function_body = Some(CreateFunctionBody::AsBeforeOptions(expr("a + b")));
    f.using = Some(CreateFunctionUsing("USING JAR 'x.jar'".to_string()));
    f.options = Some(vec![SqlOption("x = 1".to_string())]);
    assert_eq!(
        f.to_string(),
        "CREATE OR ALTER OR REPLACE TEMPORARY FUNCTION IF NOT EXISTS f(a INT, b INT) RETURNS INT DETERMINISTIC LANGUAGE js IMMUTABLE STRICT PARALLEL SAFE REMOTE WITH CONNECTION us.conn AS a + b USING JAR 'x.jar' OPTIONS(x = 1)"
    );
}

#[test]
fn create_function_body_positions() {
    let mut f = base_function();
    f.options = Some(vec![SqlOption("o = 1".to_string())]);
    f.function_body = Some(CreateFunctionBody::AsAfterOptions(expr("\"console.log();\"")));
    assert_eq!(f.to_string(), "CREATE FUNCTION f OPTIONS(o = 1) AS \"console.log();\"");
    f.function_body = Some(CreateFunctionBody::Return(expr("1")));
    assert_eq!(f.to_string(), "CREATE FUNCTION f RETURN 1 OPTIONS(o = 1)");
    f.function_body = Some(CreateFunctionBody::AsReturnExpr(expr("2")));
    assert_eq!(f.to_string(), "CREATE FUNCTION f AS RETURN 2 OPTIONS(o = 1)");
    f.function_body = Some(CreateFunctionBody::AsReturnSelect(Select("SELECT 3".to_string())));
    assert_eq!(f.to_string(), "CREATE FUNCTION f AS RETURN SELECT 3 OPTIONS(o = 1)");
    f.function_body = Some(CreateFunctionBody::AsBeginEnd(BeginEndStatements("BEGIN RETURN 4; END".to_string())));
    assert_eq!(f.to_string(), "CREATE FUNCTION f OPTIONS(o = 1) AS BEGIN RETURN 4; END");
    f.args = Some(vec![]);
    f.options = None;
    f.function_body = None;
    assert_eq!(f.to_string(), "CREATE FUNCTION f()");
}

#[test]
fn create_connector() {
    let c = CreateConnector {
        name: id("mysql_conn"),
        if_not_exists: true,
        connector_type: Some("mysql".to_string()),
        url: Some("jdbc:mysql://localhost:3306".to_string()),
        comment: Some(CommentDef("Connector to MySQL".to_string())),
        with_dcproperties: Some(vec![SqlOption("'user' = 'root'".to_string())]),
    };
    assert_eq!(
        c.to_string(),
        "CREATE CONNECTOR IF NOT EXISTS mysql_conn TYPE 'mysql' URL 'jdbc:mysql://localhost:3306' COMMENT = 'Connector to MySQL' WITH DCPROPERTIES('user' = 'root')"
    );
    let plain = CreateConnector {
        name: id("c"),
        if_not_exists: false,
        connector_type: None,
        url: None,
        comment: None,
        with_dcproperties: None,
    };
    assert_eq!(plain.to_string(), "CREATE CONNECTOR c");
}
