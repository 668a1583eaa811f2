//! Table constraints and the pieces they are made of: index types and options,
//! constraint characteristics, referential actions.
use vstd::prelude::*;
use vstd::string::*;

use crate::fragment::{Expr, Ident, IndexColumn, ObjectName};
use crate::text::{
    contains_text, ends_with, lemma_ends, lemma_has, lemma_starts, starts_with,
    all_displayable, append_sql, append_when, comma_separated, display_comma_separated,
    display_option, display_option_spaced, display_separated, join, option_displayable,
    option_text, separated, if_text, SqlDisplay,
};

verus! {

/// The text of an optional constraint name: `CONSTRAINT <name> ` or nothing.
pub open spec fn constraint_name_text(name: Option<Ident>) -> Seq<char> {
    match name {
        Some(n) => "CONSTRAINT "@ + n.sql() + " "@,
        None => Seq::empty(),
    }
}

/// Renders an optional constraint name as `CONSTRAINT <name> `, or nothing.
pub fn display_constraint_name(name: &Option<Ident>) -> (s: String)
    requires
        option_displayable(*name),
    ensures
        s@ == constraint_name_text(*name),
{
    let mut s = String::new();
    match name {
        Some(n) => {
            s.append("CONSTRAINT ");
            append_sql(&mut s, n);
            s.append(" ");
        },
        None => {},
    }
    s
}

/// Representation whether a definition can contain the `KEY` or `INDEX` keywords with
/// the same meaning.
#[derive(Debug, Copy, Clone, PartialEq, PartialOrd, Eq, Ord, Hash)]
pub enum KeyOrIndexDisplay {
    /// Nothing to display
    Nothing,
    /// Display the KEY keyword
    Key,
    /// Display the INDEX keyword
    Index,
}

impl KeyOrIndexDisplay {
    /// Whether nothing is displayed.
    pub fn is_none(self) -> (r: bool)
        ensures
            r == (self is Nothing),
    {
        match self {
            KeyOrIndexDisplay::Nothing => true,
            _ => false,
        }
    }

    /// The keyword, written with a space before it when right-aligned and not empty.
    pub open spec fn sql_aligned(self, right_aligned: bool) -> Seq<char> {
        if_text(right_aligned && !(self is Nothing), " "@) + self.sql()
    }

    /// Renders the keyword; right-aligned, a space comes before a keyword that is
    /// written.
    pub fn display_aligned(&self, right_aligned: bool) -> (s: String)
        ensures
            s@ == self.sql_aligned(right_aligned),
    {
        let mut s = String::new();
        append_when(&mut s, right_aligned && !self.is_none(), " ");
        append_sql(&mut s, self);
        s
    }
}

impl SqlDisplay for KeyOrIndexDisplay {
    open spec fn displayable(&self) -> bool {
        true
    }

    open spec fn sql(&self) -> Seq<char> {
        match self {
            KeyOrIndexDisplay::Nothing => Seq::empty(),
            KeyOrIndexDisplay::Key => "KEY"@,
            KeyOrIndexDisplay::Index => "INDEX"@,
        }
    }

    fn to_string(&self) -> (s: String) {
        match self {
            KeyOrIndexDisplay::Nothing => String::new(),
            KeyOrIndexDisplay::Key => String::from_str("KEY"),
            KeyOrIndexDisplay::Index => String::from_str("INDEX"),
        }
    }
}

/// Indexing method used by an index.
#[derive(Debug, Clone, PartialEq, PartialOrd, Eq, Ord, Hash)]
pub enum IndexType {
    BTree,
    Hash,
    GIN,
    GiST,
    SPGiST,
    BRIN,
    Bloom,
    /// Users may define their own index types, which would
    /// not be covered by the above variants.
    Custom(Ident),
}

impl SqlDisplay for IndexType {
    open spec fn displayable(&self) -> bool {
        match self {
            IndexType::Custom(name) => name.displayable(),
            _ => true,
        }
    }

    open spec fn sql(&self) -> Seq<char> {
        match self {
            IndexType::BTree => "BTREE"@,
            IndexType::Hash => "HASH"@,
            IndexType::GIN => "GIN"@,
            IndexType::GiST => "GIST"@,
            IndexType::SPGiST => "SPGIST"@,
            IndexType::BRIN => "BRIN"@,
            IndexType::Bloom => "BLOOM"@,
            IndexType::Custom(name) => name.sql(),
        }
    }

    fn to_string(&self) -> (s: String) {
        match self {
            IndexType::BTree => String::from_str("BTREE"),
            IndexType::Hash => String::from_str("HASH"),
            IndexType::GIN => String::from_str("GIN"),
            IndexType::GiST => String::from_str("GIST"),
            IndexType::SPGiST => String::from_str("SPGIST"),
            IndexType::BRIN => String::from_str("BRIN"),
            IndexType::Bloom => String::from_str("BLOOM"),
            IndexType::Custom(name) => name.to_string(),
        }
    }
}

/// MySQL's index option.
#[derive(Debug, Clone, PartialEq, PartialOrd, Eq, Ord, Hash)]
pub enum IndexOption {
    Using(IndexType),
    Comment(String),
}

impl SqlDisplay for IndexOption {
    open spec fn displayable(&self) -> bool {
        match self {
            IndexOption::Using(t) => t.displayable(),
            IndexOption::Comment(_) => true,
        }
    }

    open spec fn sql(&self) -> Seq<char> {
        match self {
            IndexOption::Using(t) => "USING "@ + t.sql(),
            IndexOption::Comment(c) => "COMMENT '"@ + c@ + "'"@,
        }
    }

    fn to_string(&self) -> (s: String) {
        let mut s = String::new();
        match self {
            IndexOption::Using(t) => {
                s.append("USING ");
                append_sql(&mut s, t);
            },
            IndexOption::Comment(c) => {
                s.append("COMMENT '");
                s.append(c.as_str());
                s.append("'");
            },
        }
        s
    }
}

/// PostgreSQL unique index nulls handling option: `[ NULLS [ NOT ] DISTINCT ]`
#[derive(Debug, Clone, PartialEq, PartialOrd, Eq, Ord, Hash)]
pub enum NullsDistinctOption {
    /// Not specified
    NotSpecified,
    /// NULLS DISTINCT
    Distinct,
    /// NULLS NOT DISTINCT
    NotDistinct,
}

impl SqlDisplay for NullsDistinctOption {
    open spec fn displayable(&self) -> bool {
        true
    }

    open spec fn sql(&self) -> Seq<char> {
        match self {
            NullsDistinctOption::NotSpecified => Seq::empty(),
            NullsDistinctOption::Distinct => " NULLS DISTINCT"@,
            NullsDistinctOption::NotDistinct => " NULLS NOT DISTINCT"@,
        }
    }

    fn to_string(&self) -> (s: String) {
        match self {
            NullsDistinctOption::NotSpecified => String::new(),
            NullsDistinctOption::Distinct => String::from_str(" NULLS DISTINCT"),
            NullsDistinctOption::NotDistinct => String::from_str(" NULLS NOT DISTINCT"),
        }
    }
}

/// `<constraint_characteristics> = [ DEFERRABLE | NOT DEFERRABLE ] [ INITIALLY DEFERRED | INITIALLY IMMEDIATE ] [ ENFORCED | NOT ENFORCED ]`
///
/// Used in UNIQUE and foreign key constraints. The individual settings may occur in any
/// order.
#[derive(Debug, Copy, Clone, PartialEq, PartialOrd, Eq, Ord, Hash)]
pub struct ConstraintCharacteristics {
    /// `[ DEFERRABLE | NOT DEFERRABLE ]`
    pub deferrable: Option<bool>,
    /// `[ INITIALLY DEFERRED | INITIALLY IMMEDIATE ]`
    pub initially: Option<DeferrableInitial>,
    /// `[ ENFORCED | NOT ENFORCED ]`
    pub enforced: Option<bool>,
}

impl Default for ConstraintCharacteristics {
    fn default() -> (r: ConstraintCharacteristics)
        ensures
            r.deferrable is None,
            r.initially is None,
            r.enforced is None,
    {
        ConstraintCharacteristics { deferrable: None, initially: None, enforced: None }
    }
}

#[derive(Debug, Copy, Clone, PartialEq, PartialOrd, Eq, Ord, Hash)]
pub enum DeferrableInitial {
    /// `INITIALLY IMMEDIATE`
    Immediate,
    /// `INITIALLY DEFERRED`
    Deferred,
}

/// The view of an optional static text.
pub open spec fn text_view(t: Option<&str>) -> Option<Seq<char>> {
    match t {
        Some(s) => Some(s@),
        None => None,
    }
}

/// The words of the present settings, in order.
pub open spec fn present(words: Seq<Option<Seq<char>>>) -> Seq<Seq<char>>
    decreases words.len(),
{
    if words.len() == 0 {
        Seq::empty()
    } else {
        match words.last() {
            Some(w) => present(words.drop_last()).push(w),
            None => present(words.drop_last()),
        }
    }
}

impl ConstraintCharacteristics {
    /// `DEFERRABLE` or `NOT DEFERRABLE`, when set.
    pub open spec fn deferrable_word(self) -> Option<Seq<char>> {
        match self.deferrable {
            Some(d) => Some(if d { "DEFERRABLE"@ } else { "NOT DEFERRABLE"@ }),
            None => None,
        }
    }

    /// `INITIALLY IMMEDIATE` or `INITIALLY DEFERRED`, when set.
    pub open spec fn initially_word(self) -> Option<Seq<char>> {
        match self.initially {
            Some(DeferrableInitial::Immediate) => Some("INITIALLY IMMEDIATE"@),
            Some(DeferrableInitial::Deferred) => Some("INITIALLY DEFERRED"@),
            None => None,
        }
    }

    /// `ENFORCED` or `NOT ENFORCED`, when set.
    pub open spec fn enforced_word(self) -> Option<Seq<char>> {
        match self.enforced {
            Some(e) => Some(if e { "ENFORCED"@ } else { "NOT ENFORCED"@ }),
            None => None,
        }
    }

    /// The words of the settings that are given, in the order deferrable, initially,
    /// enforced.
    pub open spec fn words(self) -> Seq<Seq<char>> {
        present(seq![self.deferrable_word(), self.initially_word(), self.enforced_word()])
    }

    /// The keyword text of the deferrable setting.
    pub fn deferrable_text(&self) -> (r: Option<&'static str>)
        ensures
            text_view(r) == self.deferrable_word(),
    {
        match self.deferrable {
            Some(d) => {
                if d {
                    Some("DEFERRABLE")
                } else {
                    Some("NOT DEFERRABLE")
                }
            },
            None => None,
        }
    }

    /// The keyword text of the initial-check setting.
    pub fn initially_immediate_text(&self) -> (r: Option<&'static str>)
        ensures
            text_view(r) == self.initially_word(),
    {
        match self.initially {
            Some(DeferrableInitial::Immediate) => Some("INITIALLY IMMEDIATE"),
            Some(DeferrableInitial::Deferred) => Some("INITIALLY DEFERRED"),
            None => None,
        }
    }

    /// The keyword text of the enforcement setting.
    pub fn enforced_text(&self) -> (r: Option<&'static str>)
        ensures
            text_view(r) == self.enforced_word(),
    {
        match self.enforced {
            Some(e) => {
                if e {
                    Some("ENFORCED")
                } else {
                    Some("NOT ENFORCED")
                }
            },
            None => None,
        }
    }
}

impl SqlDisplay for ConstraintCharacteristics {
    open spec fn displayable(&self) -> bool {
        true
    }

    /// The words of the given settings, separated by single spaces.
    open spec fn sql(&self) -> Seq<char> {
        join(self.words(), " "@)
    }

    fn to_string(&self) -> (s: String) {
        let deferrable = self.deferrable_text();
        let initially_immediate = self.initially_immediate_text();
        let enforced = self.enforced_text();
        let ghost d = self.deferrable_word();
        let ghost i = self.initially_word();
        let ghost e = self.enforced_word();
        let ghost ws = seq![d, i, e];
        assert(ws.drop_last() =~= seq![d, i]);
        assert(ws.drop_last().drop_last() =~= seq![d]);
        assert(ws.drop_last().drop_last().drop_last() =~= Seq::<Option<Seq<char>>>::empty());
        reveal_with_fuel(join, 4);
        reveal_with_fuel(present, 4);
        let mut s = String::new();
        match (deferrable, initially_immediate, enforced) {
            (None, None, None) => {},
            (None, None, Some(enforced)) => {
                s.append(enforced);
            },
            (None, Some(initial), None) => {
                s.append(initial);
            },
            (None, Some(initial), Some(enforced)) => {
                s.append(initial);
                s.append(" ");
                s.append(enforced);
            },
            (Some(deferrable), None, None) => {
                s.append(deferrable);
            },
            (Some(deferrable), None, Some(enforced)) => {
                s.append(deferrable);
                s.append(" ");
                s.append(enforced);
            },
            (Some(deferrable), Some(initial), None) => {
                s.append(deferrable);
                s.append(" ");
                s.append(initial);
            },
            (Some(deferrable), Some(initial), Some(enforced)) => {
                s.append(deferrable);
                s.append(" ");
                s.append(initial);
                s.append(" ");
                s.append(enforced);
            },
        }
        s
    }
}

/// `<referential_action> = { RESTRICT | CASCADE | SET NULL | NO ACTION | SET DEFAULT }`
///
/// Used in foreign key constraints in `ON UPDATE` and `ON DELETE` options.
#[derive(Debug, Copy, Clone, PartialEq, PartialOrd, Eq, Ord, Hash)]
pub enum ReferentialAction {
    Restrict,
    Cascade,
    SetNull,
    NoAction,
    SetDefault,
}

impl SqlDisplay for ReferentialAction {
    open spec fn displayable(&self) -> bool {
        true
    }

    open spec fn sql(&self) -> Seq<char> {
        match self {
            ReferentialAction::Restrict => "RESTRICT"@,
            ReferentialAction::Cascade => "CASCADE"@,
            ReferentialAction::SetNull => "SET NULL"@,
            ReferentialAction::NoAction => "NO ACTION"@,
            ReferentialAction::SetDefault => "SET DEFAULT"@,
        }
    }

    fn to_string(&self) -> (s: String) {
        String::from_str(
            match self {
                ReferentialAction::Restrict => "RESTRICT",
                ReferentialAction::Cascade => "CASCADE",
                ReferentialAction::SetNull => "SET NULL",
                ReferentialAction::NoAction => "NO ACTION",
                ReferentialAction::SetDefault => "SET DEFAULT",
            },
        )
    }
}

/// `<drop behavior> ::= CASCADE | RESTRICT`.
///
/// Used in `DROP` statements.
#[derive(Debug, Copy, Clone, PartialEq, PartialOrd, Eq, Ord, Hash)]
pub enum DropBehavior {
    Restrict,
    Cascade,
}

impl SqlDisplay for DropBehavior {
    open spec fn displayable(&self) -> bool {
        true
    }

    open spec fn sql(&self) -> Seq<char> {
        match self {
            DropBehavior::Restrict => "RESTRICT"@,
            DropBehavior::Cascade => "CASCADE"@,
        }
    }

    fn to_string(&self) -> (s: String) {
        String::from_str(
            match self {
                DropBehavior::Restrict => "RESTRICT",
                DropBehavior::Cascade => "CASCADE",
            },
        )
    }
}

/// A table-level constraint, specified in a `CREATE TABLE` or an
/// `ALTER TABLE ADD <constraint>` statement.
#[derive(Debug, Clone, PartialEq, PartialOrd, Eq, Ord, Hash)]
pub enum TableConstraint {
    /// `[CONSTRAINT [<name>]] UNIQUE <index_type_display> [<index_name>] [index_type] (<columns>) <index_options>`
    Unique {
        /// Constraint name.
        name: Option<Ident>,
        /// Index name
        index_name: Option<Ident>,
        /// Whether the type is followed by the keyword `KEY`, `INDEX`, or no keyword at all.
        index_type_display: KeyOrIndexDisplay,
        /// Optional `USING` of index type statement before columns.
        index_type: Option<IndexType>,
        /// Identifiers of the columns that are unique.
        columns: Vec<IndexColumn>,
        index_options: Vec<IndexOption>,
        characteristics: Option<ConstraintCharacteristics>,
        /// Optional Postgres nulls handling: `[ NULLS [ NOT ] DISTINCT ]`
        nulls_distinct: NullsDistinctOption,
    },
    /// `[CONSTRAINT [<name>]] PRIMARY KEY [index_name] [index_type] (<columns>) <index_options>`
    PrimaryKey {
        /// Constraint name.
        name: Option<Ident>,
        /// Index name
        index_name: Option<Ident>,
        /// Optional `USING` of index type statement before columns.
        index_type: Option<IndexType>,
        /// Identifiers of the columns that form the primary key.
        columns: Vec<IndexColumn>,
        index_options: Vec<IndexOption>,
        characteristics: Option<ConstraintCharacteristics>,
    },
    /// A referential integrity constraint (`[ CONSTRAINT <name> ] FOREIGN KEY (<columns>)
    /// REFERENCES <foreign_table> (<referred_columns>)
    /// { [ON DELETE <referential_action>] [ON UPDATE <referential_action>] |
    ///   [ON UPDATE <referential_action>] [ON DELETE <referential_action>]
    /// }`).
    ForeignKey {
        name: Option<Ident>,
        /// MySQL-specific field
        index_name: Option<Ident>,
        columns: Vec<Ident>,
        foreign_table: ObjectName,
        referred_columns: Vec<Ident>,
        on_delete: Option<ReferentialAction>,
        on_update: Option<ReferentialAction>,
        characteristics: Option<ConstraintCharacteristics>,
    },
    /// `[ CONSTRAINT <name> ] CHECK (<expr>) [[NOT] ENFORCED]`
    Check {
        name: Option<Ident>,
        expr: Box<Expr>,
        /// MySQL-specific syntax
        enforced: Option<bool>,
    },
    /// MySQL's index definition: `{INDEX | KEY} [index_name] [index_type] (key_part,...)`
    Index {
        /// Whether this index starts with KEY (true) or INDEX (false), to maintain the same syntax.
        display_as_key: bool,
        /// Index name.
        name: Option<Ident>,
        /// Optional index type.
        index_type: Option<IndexType>,
        /// Referred column identifier list.
        columns: Vec<IndexColumn>,
    },
    /// MySQL's fulltext or spatial definition:
    /// `{FULLTEXT | SPATIAL} [INDEX | KEY] [index_name] (key_part,...)`
    FulltextOrSpatial {
        /// Whether this is a `FULLTEXT` (true) or `SPATIAL` (false) definition.
        fulltext: bool,
        /// Whether the type is followed by the keyword `KEY`, `INDEX`, or no keyword at all.
        index_type_display: KeyOrIndexDisplay,
        /// Optional index name.
        opt_index_name: Option<Ident>,
        /// Referred column identifier list.
        columns: Vec<IndexColumn>,
    },
}

/// `" <items separated by sep>"` when there are items, nothing otherwise.
pub open spec fn spaced_list<T: SqlDisplay>(items: Seq<T>, sep: Seq<char>) -> Seq<char> {
    if_text(items.len() > 0, " "@ + separated(items, sep))
}

/// Appends `" <items separated by sep>"` when there are items.
pub fn append_spaced_list<T: SqlDisplay>(s: &mut String, items: &Vec<T>, sep: &str)
    requires
        all_displayable(items@),
    ensures
        final(s)@ == old(s)@ + spaced_list(items@, sep@),
{
    if items.len() > 0 {
        s.append(" ");
        let t = display_separated(items, sep);
        s.append(t.as_str());
    } else {
        assert(old(s)@ + spaced_list(items@, sep@) =~= old(s)@);
    }
}

/// ` ON DELETE <action>` / ` ON UPDATE <action>` and the characteristics that close a
/// foreign key.
pub open spec fn foreign_key_tail(
    on_delete: Option<ReferentialAction>,
    on_update: Option<ReferentialAction>,
    characteristics: Option<ConstraintCharacteristics>,
) -> Seq<char> {
    option_text(" ON DELETE "@, Seq::empty(), on_delete) + option_text(
        " ON UPDATE "@,
        Seq::empty(),
        on_update,
    ) + option_text(" "@, Seq::empty(), characteristics)
}

/// Appends the referential actions and characteristics of a foreign key.
pub fn append_foreign_key_tail(
    s: &mut String,
    on_delete: &Option<ReferentialAction>,
    on_update: &Option<ReferentialAction>,
    characteristics: &Option<ConstraintCharacteristics>,
)
    ensures
        final(s)@ == old(s)@ + foreign_key_tail(*on_delete, *on_update, *characteristics),
{
    if let Some(action) = on_delete {
        s.append(" ON DELETE ");
        append_sql(s, action);
    }
    if let Some(action) = on_update {
        s.append(" ON UPDATE ");
        append_sql(s, action);
    }
    if let Some(c) = characteristics {
        s.append(" ");
        append_sql(s, c);
    }
}

impl SqlDisplay for TableConstraint {
    open spec fn displayable(&self) -> bool {
        match self {
            TableConstraint::Unique { name, index_name, index_type, columns, index_options, .. } => {
                &&& option_displayable(*name)
                &&& option_displayable(*index_name)
                &&& option_displayable(*index_type)
                &&& all_displayable(index_options@)
            },
            TableConstraint::PrimaryKey { name, index_name, index_type, columns, index_options, .. } => {
                &&& option_displayable(*name)
                &&& option_displayable(*index_name)
                &&& option_displayable(*index_type)
                &&& all_displayable(index_options@)
            },
            TableConstraint::ForeignKey { name, index_name, columns, foreign_table, referred_columns, .. } => {
                &&& option_displayable(*name)
                &&& option_displayable(*index_name)
                &&& all_displayable(columns@)
                &&& foreign_table.displayable()
                &&& all_displayable(referred_columns@)
            },
            TableConstraint::Check { name, .. } => option_displayable(*name),
            TableConstraint::Index { name, index_type, .. } => {
                &&& option_displayable(*name)
                &&& option_displayable(*index_type)
            },
            TableConstraint::FulltextOrSpatial { opt_index_name, .. } => option_displayable(
                *opt_index_name,
            ),
        }
    }

    open spec fn sql(&self) -> Seq<char> {
        match self {
            TableConstraint::Unique {
                name,
                index_name,
                index_type_display,
                index_type,
                columns,
                index_options,
                characteristics,
                nulls_distinct,
            } => constraint_name_text(*name) + "UNIQUE"@ + nulls_distinct.sql()
                + index_type_display.sql_aligned(true) + option_text(" "@, Seq::empty(), *index_name)
                + option_text(" USING "@, ""@, *index_type) + " ("@ + comma_separated(columns@)
                + ")"@ + spaced_list(index_options@, " "@) + option_text(
                " "@,
                Seq::empty(),
                *characteristics,
            ),
            TableConstraint::PrimaryKey {
                name,
                index_name,
                index_type,
                columns,
                index_options,
                characteristics,
            } => constraint_name_text(*name) + "PRIMARY KEY"@ + option_text(
                " "@,
                Seq::empty(),
                *index_name,
            ) + option_text(" USING "@, ""@, *index_type) + " ("@ + comma_separated(columns@)
                + ")"@ + spaced_list(index_options@, " "@) + option_text(
                " "@,
                Seq::empty(),
                *characteristics,
            ),
            TableConstraint::ForeignKey {
                name,
                index_name,
                columns,
                foreign_table,
                referred_columns,
                on_delete,
                on_update,
                characteristics,
            } => constraint_name_text(*name) + "FOREIGN KEY"@ + option_text(
                " "@,
                Seq::empty(),
                *index_name,
            ) + " ("@ + comma_separated(columns@) + ") REFERENCES "@ + foreign_table.sql() + if_text(
                referred_columns@.len() > 0,
                "("@ + comma_separated(referred_columns@) + ")"@,
            ) + foreign_key_tail(*on_delete, *on_update, *characteristics),
            TableConstraint::Check { name, expr, enforced } => constraint_name_text(*name)
                + "CHECK ("@ + expr.sql() + ")"@ + match enforced {
                Some(b) => " "@ + if *b {
                    "ENFORCED"@
                } else {
                    "NOT ENFORCED"@
                },
                None => Seq::empty(),
            },
            TableConstraint::Index { display_as_key, name, index_type, columns } => (if *display_as_key {
                "KEY"@
            } else {
                "INDEX"@
            }) + option_text(" "@, Seq::empty(), *name) + option_text(
                " USING "@,
                Seq::empty(),
                *index_type,
            ) + " ("@ + comma_separated(columns@) + ")"@,
            TableConstraint::FulltextOrSpatial {
                fulltext,
                index_type_display,
                opt_index_name,
                columns,
            } => (if *fulltext {
                "FULLTEXT"@
            } else {
                "SPATIAL"@
            }) + index_type_display.sql_aligned(true) + option_text(
                " "@,
                Seq::empty(),
                *opt_index_name,
            ) + " ("@ + comma_separated(columns@) + ")"@,
        }
    }

    fn to_string(&self) -> (s: String) {
        match self {
            TableConstraint::Unique {
                name,
                index_name,
                index_type_display,
                index_type,
                columns,
                index_options,
                characteristics,
                nulls_distinct,
            } => {
                let mut s = display_constraint_name(name);
                s.append("UNIQUE");
                append_sql(&mut s, nulls_distinct);
                s.append(index_type_display.display_aligned(true).as_str());
                s.append(display_option_spaced(index_name).as_str());
                s.append(display_option(" USING ", "", index_type).as_str());
                s.append(" (");
                s.append(display_comma_separated(columns).as_str());
                s.append(")");
                append_spaced_list(&mut s, index_options, " ");
                s.append(display_option_spaced(characteristics).as_str());
                s
            },
            TableConstraint::PrimaryKey {
                name,
                index_name,
                index_type,
                columns,
                index_options,
                characteristics,
            } => {
                let mut s = display_constraint_name(name);
                s.append("PRIMARY KEY");
                s.append(display_option_spaced(index_name).as_str());
                s.append(display_option(" USING ", "", index_type).as_str());
                s.append(" (");
                s.append(display_comma_separated(columns).as_str());
                s.append(")");
                append_spaced_list(&mut s, index_options, " ");
                s.append(display_option_spaced(characteristics).as_str());
                s
            },
            TableConstraint::ForeignKey {
                name,
                index_name,
                columns,
                foreign_table,
                referred_columns,
                on_delete,
                on_update,
                characteristics,
            } => {
                let mut s = display_constraint_name(name);
                s.append("FOREIGN KEY");
                s.append(display_option_spaced(index_name).as_str());
                s.append(" (");
                s.append(display_comma_separated(columns).as_str());
                s.append(") REFERENCES ");
                append_sql(&mut s, foreign_table);
                if referred_columns.len() > 0 {
                    s.append("(");
                    s.append(display_comma_separated(referred_columns).as_str());
                    s.append(")");
                }
                append_foreign_key_tail(&mut s, on_delete, on_update, characteristics);
                s
            },
            TableConstraint::Check { name, expr, enforced } => {
                let mut s = display_constraint_name(name);
                s.append("CHECK (");
                append_sql(&mut s, &**expr);
                s.append(")");
                if let Some(b) = enforced {
                    s.append(" ");
                    if *b {
                        s.append("ENFORCED");
                    } else {
                        s.append("NOT ENFORCED");
                    }
                }
                s
            },
            TableConstraint::Index { display_as_key, name, index_type, columns } => {
                let mut s = String::new();
                if *display_as_key {
                    s.append("KEY");
                } else {
                    s.append("INDEX");
                }
                if let Some(name) = name {
                    s.append(" ");
                    append_sql(&mut s, name);
                }
                if let Some(index_type) = index_type {
                    s.append(" USING ");
                    append_sql(&mut s, index_type);
                }
                s.append(" (");
                s.append(display_comma_separated(columns).as_str());
                s.append(")");
                s
            },
            TableConstraint::FulltextOrSpatial {
                fulltext,
                index_type_display,
                opt_index_name,
                columns,
            } => {
                let mut s = String::new();
                if *fulltext {
                    s.append("FULLTEXT");
                } else {
                    s.append("SPATIAL");
                }
                s.append(index_type_display.display_aligned(true).as_str());
                if let Some(name) = opt_index_name {
                    s.append(" ");
                    append_sql(&mut s, name);
                }
                s.append(" (");
                s.append(display_comma_separated(columns).as_str());
                s.append(")");
                s
            },
        }
    }
}


/// A `PRIMARY KEY` constraint writes its name first (when named), then its keyword
/// and the column list; after the closing parenthesis come the index options, when
/// there are any, after a space and separated by spaces, and last the characteristics,
/// when given, after a space.
#[verifier::spinoff_prover]
#[verifier::rlimit(40)]
pub proof fn primary_key_constraint_shows_its_parts(
    name: Option<Ident>,
    index_name: Option<Ident>,
    index_type: Option<IndexType>,
    columns: Vec<IndexColumn>,
    index_options: Vec<IndexOption>,
    characteristics: Option<ConstraintCharacteristics>,
)
    ensures
        ({
            let t = TableConstraint::PrimaryKey {
                name,
                index_name,
                index_type,
                columns,
                index_options,
                characteristics,
            }.sql();
            &&& (name is Some ==> starts_with(t, "CONSTRAINT "@ + name.unwrap().sql() + " "@))
            &&& (name is None ==> starts_with(t, "PRIMARY KEY"@))
            &&& contains_text(t, comma_separated(columns@))
            &&& (characteristics is Some ==> ends_with(t, " "@ + characteristics.unwrap().sql()))
            &&& (index_options@.len() > 0 && characteristics is None ==> ends_with(
                t,
                " "@ + separated(index_options@, " "@),
            ))
            &&& (index_options@.len() == 0 && characteristics is None ==> ends_with(t, ")"@))
            &&& ends_with(
                t,
                " ("@ + comma_separated(columns@) + ")"@ + (if index_options@.len() > 0 {
                    " "@ + separated(index_options@, " "@)
                } else {
                    Seq::empty()
                }) + (match characteristics {
                    Some(x) => " "@ + x.sql(),
                    None => Seq::empty(),
                }),
            )
        }),
{
    let t = TableConstraint::PrimaryKey {
        name,
        index_name,
        index_type,
        columns,
        index_options,
        characteristics,
    }.sql();
    let cn = constraint_name_text(name);
    let rest = t.subrange(cn.len() as int, t.len() as int);
    assert(t =~= cn + rest);
    if let Some(n) = name {
        lemma_starts(t, "CONSTRAINT "@ + n.sql() + " "@, rest);
    } else {
        assert(t =~= rest);
        let r2 = t.subrange("PRIMARY KEY"@.len() as int, t.len() as int);
        lemma_starts(t, "PRIMARY KEY"@, r2);
    }
    let c = comma_separated(columns@);
    let ol = spaced_list(index_options@, " "@);
    let ch = option_text(" "@, Seq::empty(), characteristics);
    let pre = cn + "PRIMARY KEY"@ + option_text(" "@, Seq::empty(), index_name) + option_text(" USING "@, ""@, index_type);
    let a = pre + " ("@;
    assert(t == a + c + ")"@ + ol + ch);
    let tail = " ("@ + c + ")"@ + ol + ch;
    assert(t =~= pre + tail);
    lemma_ends(t, pre, tail);
    assert(ch =~= (match characteristics {
        Some(x) => " "@ + x.sql(),
        None => Seq::<char>::empty(),
    }));
    crate::text::lemma_has_in_five(a, c, ")"@, ol, ch);
    if let Some(x) = characteristics {
        assert(ch =~= " "@ + x.sql());
        lemma_ends(t, a + c + ")"@ + ol, " "@ + x.sql());
    } else {
        if index_options@.len() > 0 {
            lemma_ends(t, a + c + ")"@, ol);
        } else {
            lemma_ends(t, a + c, ")"@);
        }
    }
}


/// A `UNIQUE` constraint writes its name first (when named), then its keyword
/// and the column list; after the closing parenthesis come the index options, when
/// there are any, after a space and separated by spaces, and last the characteristics,
/// when given, after a space.
#[verifier::spinoff_prover]
#[verifier::rlimit(100)]
pub proof fn unique_constraint_shows_its_parts(
    name: Option<Ident>,
    index_name: Option<Ident>,
    index_type_display: KeyOrIndexDisplay,
    index_type: Option<IndexType>,
    columns: Vec<IndexColumn>,
    index_options: Vec<IndexOption>,
    characteristics: Option<ConstraintCharacteristics>,
    nulls_distinct: NullsDistinctOption,
)
    ensures
        ({
            let t = TableConstraint::Unique {
                name,
                index_name,
                index_type_display,
                index_type,
                columns,
                index_options,
                characteristics,
                nulls_distinct,
            }.sql();
            &&& (name is Some ==> starts_with(t, "CONSTRAINT "@ + name.unwrap().sql() + " "@))
            &&& (name is None ==> starts_with(t, "UNIQUE"@))
            &&& contains_text(t, comma_separated(columns@))
            &&& (characteristics is Some ==> ends_with(t, " "@ + characteristics.unwrap().sql()))
            &&& (index_options@.len() > 0 && characteristics is None ==> ends_with(
                t,
                " "@ + separated(index_options@, " "@),
            ))
            &&& (index_options@.len() == 0 && characteristics is None ==> ends_with(t, ")"@))
            &&& ends_with(
                t,
                " ("@ + comma_separated(columns@) + ")"@ + (if index_options@.len() > 0 {
                    " "@ + separated(index_options@, " "@)
                } else {
                    Seq::empty()
                }) + (match characteristics {
                    Some(x) => " "@ + x.sql(),
                    None => Seq::empty(),
                }),
            )
        }),
{
    let t = TableConstraint::Unique {
        name,
        index_name,
        index_type_display,
        index_type,
        columns,
        index_options,
        characteristics,
        nulls_distinct,
    }.sql();
    let cn = constraint_name_text(name);
    let rest = t.subrange(cn.len() as int, t.len() as int);
    assert(t =~= cn + rest);
    if let Some(n) = name {
        lemma_starts(t, "CONSTRAINT "@ + n.sql() + " "@, rest);
    } else {
        assert(t =~= rest);
        let r2 = t.subrange("UNIQUE"@.len() as int, t.len() as int);
        lemma_starts(t, "UNIQUE"@, r2);
    }
    let c = comma_separated(columns@);
    let ol = spaced_list(index_options@, " "@);
    let ch = option_text(" "@, Seq::empty(), characteristics);
    let pre = cn + "UNIQUE"@ + nulls_distinct.sql() + index_type_display.sql_aligned(true) + option_text(" "@, Seq::empty(), index_name) + option_text(" USING "@, ""@, index_type);
    let a = pre + " ("@;
    assert(t == a + c + ")"@ + ol + ch);
    let tail = " ("@ + c + ")"@ + ol + ch;
    assert(t =~= pre + tail);
    lemma_ends(t, pre, tail);
    assert(ch =~= (match characteristics {
        Some(x) => " "@ + x.sql(),
        None => Seq::<char>::empty(),
    }));
    crate::text::lemma_has_in_five(a, c, ")"@, ol, ch);
    if let Some(x) = characteristics {
        assert(ch =~= " "@ + x.sql());
        lemma_ends(t, a + c + ")"@ + ol, " "@ + x.sql());
    } else {
        if index_options@.len() > 0 {
            lemma_ends(t, a + c + ")"@, ol);
        } else {
            lemma_ends(t, a + c, ")"@);
        }
    }
}


/// A `FOREIGN KEY` constraint writes its columns and the referenced table; the
/// referential actions follow, each after its keywords, and the characteristics, when
/// given, come last after a space.
#[verifier::spinoff_prover]
#[verifier::rlimit(40)]
pub proof fn foreign_key_constraint_shows_its_parts(
    name: Option<Ident>,
    index_name: Option<Ident>,
    columns: Vec<Ident>,
    foreign_table: ObjectName,
    referred_columns: Vec<Ident>,
    on_delete: Option<ReferentialAction>,
    on_update: Option<ReferentialAction>,
    characteristics: Option<ConstraintCharacteristics>,
)
    ensures
        ({
            let f = TableConstraint::ForeignKey {
                name,
                index_name,
                columns,
                foreign_table,
                referred_columns,
                on_delete,
                on_update,
                characteristics,
            }.sql();
            &&& contains_text(
                f,
                " ("@ + comma_separated(columns@) + ") REFERENCES "@ + foreign_table.sql(),
            )
            &&& (referred_columns@.len() > 0 ==> contains_text(
                f,
                "("@ + comma_separated(referred_columns@) + ")"@,
            ))
            &&& (on_delete is Some ==> contains_text(f, " ON DELETE "@ + on_delete.unwrap().sql()))
            &&& (on_update is Some ==> contains_text(f, " ON UPDATE "@ + on_update.unwrap().sql()))
            &&& (characteristics is Some ==> ends_with(f, " "@ + characteristics.unwrap().sql()))
            &&& (on_update is Some && characteristics is None ==> ends_with(
                f,
                " ON UPDATE "@ + on_update.unwrap().sql(),
            ))
        }),
{
    let f = TableConstraint::ForeignKey {
        name,
        index_name,
        columns,
        foreign_table,
        referred_columns,
        on_delete,
        on_update,
        characteristics,
    }.sql();
    let h = constraint_name_text(name) + "FOREIGN KEY"@ + option_text(" "@, Seq::empty(), index_name);
    let mid = " ("@ + comma_separated(columns@) + ") REFERENCES "@ + foreign_table.sql();
    let rc = if_text(referred_columns@.len() > 0, "("@ + comma_separated(referred_columns@) + ")"@);
    let d = option_text(" ON DELETE "@, Seq::empty(), on_delete);
    let u = option_text(" ON UPDATE "@, Seq::empty(), on_update);
    let c = option_text(" "@, Seq::empty(), characteristics);
    assert(f =~= h + mid + rc + d + u + c);
    lemma_has(f, h, mid, rc + d + u + c);
    lemma_has(f, h + mid, rc, d + u + c);
    lemma_has(f, h + mid + rc, d, u + c);
    lemma_has(f, h + mid + rc + d, u, c);
    if let Some(x) = characteristics {
        lemma_ends(f, h + mid + rc + d + u, " "@ + x.sql());
    } else {
        lemma_ends(f, h + mid + rc + d, u);
    }
}

/// A `CHECK` constraint writes its expression in parentheses; `ENFORCED` or
/// `NOT ENFORCED` comes last exactly as the constraint says, and otherwise the closing
/// parenthesis does.
#[verifier::spinoff_prover]
#[verifier::rlimit(60)]
pub proof fn check_constraint_shows_its_parts(name: Option<Ident>, expr: Expr, enforced: Option<bool>)
    ensures
        ({
            let c = TableConstraint::Check { name, expr: Box::new(expr), enforced }.sql();
            &&& contains_text(c, "CHECK ("@ + expr.sql() + ")"@)
            &&& (enforced == Some(true) ==> ends_with(c, " "@ + "ENFORCED"@))
            &&& (enforced == Some(false) ==> ends_with(c, " "@ + "NOT ENFORCED"@))
            &&& (enforced is None ==> ends_with(c, "CHECK ("@ + expr.sql() + ")"@))
        }),
{
    let c = TableConstraint::Check { name, expr: Box::new(expr), enforced }.sql();
    let cn = constraint_name_text(name);
    let body = "CHECK ("@ + expr.sql() + ")"@;
    let tail = match enforced {
        Some(b) => " "@ + if b {
            "ENFORCED"@
        } else {
            "NOT ENFORCED"@
        },
        None => Seq::empty(),
    };
    assert(c =~= cn + body + tail);
    lemma_has(c, cn, body, tail);
    lemma_ends(c, cn + body, tail);
    if enforced is None {
        lemma_ends(c, cn, body);
    }
}

/// An `INDEX` or `KEY` constraint writes its keyword first, the name (when given) after a
/// space, and ends with the columns in parentheses; an index method, when given, stands
/// right before the columns after ` USING `.
#[verifier::spinoff_prover]
#[verifier::rlimit(40)]
pub proof fn index_constraint_shows_its_parts(
    display_as_key: bool,
    name: Option<Ident>,
    index_type: Option<IndexType>,
    columns: Vec<IndexColumn>,
)
    ensures
        ({
            let i = TableConstraint::Index { display_as_key, name, index_type, columns }.sql();
            let cols = " ("@ + comma_separated(columns@) + ")"@;
            &&& starts_with(i, if display_as_key { "KEY"@ } else { "INDEX"@ })
            &&& (name is Some ==> contains_text(i, " "@ + name.unwrap().sql()))
            &&& (index_type is Some ==> ends_with(
                i,
                " USING "@ + index_type.unwrap().sql() + cols,
            ))
            &&& ends_with(i, cols)
        }),
{
    let i = TableConstraint::Index { display_as_key, name, index_type, columns }.sql();
    let cols = " ("@ + comma_separated(columns@) + ")"@;
    let k = if display_as_key { "KEY"@ } else { "INDEX"@ };
    let n = option_text(" "@, Seq::empty(), name);
    let u = option_text(" USING "@, Seq::empty(), index_type);
    assert(i == k + n + u + cols);
    lemma_starts(i, k, n + u + cols);
    lemma_has(i, k, n, u + cols);
    lemma_ends(i, k + n + u, cols);
    if let Some(x) = index_type {
        assert(i =~= k + n + (" USING "@ + x.sql() + cols));
        lemma_ends(i, k + n, " USING "@ + x.sql() + cols);
    }
    if let Some(x) = name {
        assert(n =~= " "@ + x.sql());
    }
}

/// A `FULLTEXT` or `SPATIAL` constraint writes its keyword first, the name (when given)
/// after a space, and ends with the columns in parentheses.
#[verifier::spinoff_prover]
#[verifier::rlimit(40)]
pub proof fn fulltext_constraint_shows_its_parts(
    fulltext: bool,
    index_type_display: KeyOrIndexDisplay,
    opt_index_name: Option<Ident>,
    columns: Vec<IndexColumn>,
)
    ensures
        ({
            let f = TableConstraint::FulltextOrSpatial {
                fulltext,
                index_type_display,
                opt_index_name,
                columns,
            }.sql();
            let cols = " ("@ + comma_separated(columns@) + ")"@;
            &&& starts_with(f, if fulltext { "FULLTEXT"@ } else { "SPATIAL"@ })
            &&& (opt_index_name is Some ==> contains_text(f, " "@ + opt_index_name.unwrap().sql()))
            &&& ends_with(f, cols)
        }),
{
    let f = TableConstraint::FulltextOrSpatial {
        fulltext,
        index_type_display,
        opt_index_name,
        columns,
    }.sql();
    let cols = " ("@ + comma_separated(columns@) + ")"@;
    let k = if fulltext { "FULLTEXT"@ } else { "SPATIAL"@ };
    let n = option_text(" "@, Seq::empty(), opt_index_name);
    let d = index_type_display.sql_aligned(true);
    assert(f == k + d + n + cols);
    lemma_starts(f, k, d + n + cols);
    lemma_has(f, k + d, n, cols);
    lemma_ends(f, k + d + n, cols);
    if let Some(x) = opt_index_name {
        assert(n =~= " "@ + x.sql());
    }
}

/// What comes before the columns of a `PRIMARY KEY` constraint is written in full: the
/// name after `CONSTRAINT ` and before a space when given, the keyword, the index name
/// after a space when given, and the index method after ` USING ` when given, then ` (`.
#[verifier::spinoff_prover]
#[verifier::rlimit(60)]
pub proof fn primary_key_head_is_written(
    name: Option<Ident>,
    index_name: Option<Ident>,
    index_type: Option<IndexType>,
    columns: Vec<IndexColumn>,
    index_options: Vec<IndexOption>,
    characteristics: Option<ConstraintCharacteristics>,
)
    ensures
        ({
            let cn = match name {
                Some(n) => "CONSTRAINT "@ + n.sql() + " "@,
                None => Seq::empty(),
            };
            let iname = match index_name {
                Some(n) => " "@ + n.sql(),
                None => Seq::empty(),
            };
            let using = match index_type {
                Some(t) => " USING "@ + t.sql(),
                None => Seq::empty(),
            };
            let pk = (TableConstraint::PrimaryKey {
                name,
                index_name,
                index_type,
                columns,
                index_options,
                characteristics,
            }).sql();
            starts_with(pk, cn + "PRIMARY KEY"@ + iname + using + " ("@)
        }),
{
    let cn = constraint_name_text(name);
    let iname = option_text(" "@, Seq::empty(), index_name);
    let using = option_text(" USING "@, ""@, index_type);
    if let Some(t) = index_type {
        reveal_strlit("");
        assert(using =~= " USING "@ + t.sql());
    }
    if let Some(n) = index_name {
        assert(iname =~= " "@ + n.sql());
    }
    let c = comma_separated(columns@);
    let ptail = c + ")"@ + spaced_list(index_options@, " "@) + option_text(
        " "@,
        Seq::empty(),
        characteristics,
    );
    let pk = (TableConstraint::PrimaryKey {
        name,
        index_name,
        index_type,
        columns,
        index_options,
        characteristics,
    }).sql();
    assert(pk =~= cn + "PRIMARY KEY"@ + iname + using + " ("@ + ptail);
    lemma_starts(pk, cn + "PRIMARY KEY"@ + iname + using + " ("@, ptail);
}

/// What comes before the columns of a `UNIQUE` constraint is written in full: the name
/// after `CONSTRAINT ` and before a space when given, the keyword, the nulls handling,
/// the `KEY` or `INDEX` word after a space when given, the index name after a space when
/// given, and the index method after ` USING ` when given, then ` (`.
#[verifier::spinoff_prover]
#[verifier::rlimit(60)]
pub proof fn unique_head_is_written(
    name: Option<Ident>,
    index_name: Option<Ident>,
    index_type_display: KeyOrIndexDisplay,
    index_type: Option<IndexType>,
    columns: Vec<IndexColumn>,
    index_options: Vec<IndexOption>,
    characteristics: Option<ConstraintCharacteristics>,
    nulls_distinct: NullsDistinctOption,
)
    ensures
        ({
            let cn = match name {
                Some(n) => "CONSTRAINT "@ + n.sql() + " "@,
                None => Seq::empty(),
            };
            let iname = match index_name {
                Some(n) => " "@ + n.sql(),
                None => Seq::empty(),
            };
            let using = match index_type {
                Some(t) => " USING "@ + t.sql(),
                None => Seq::empty(),
            };
            let kw = match index_type_display {
                KeyOrIndexDisplay::Nothing => Seq::empty(),
                KeyOrIndexDisplay::Key => " KEY"@,
                KeyOrIndexDisplay::Index => " INDEX"@,
            };
            let uq = (TableConstraint::Unique {
                name,
                index_name,
                index_type_display,
                index_type,
                columns,
                index_options,
                characteristics,
                nulls_distinct,
            }).sql();
            starts_with(uq, cn + "UNIQUE"@ + nulls_distinct.sql() + kw + iname + using + " ("@)
        }),
{
    let cn = constraint_name_text(name);
    let iname = option_text(" "@, Seq::empty(), index_name);
    let using = option_text(" USING "@, ""@, index_type);
    if let Some(t) = index_type {
        reveal_strlit("");
        assert(using =~= " USING "@ + t.sql());
    }
    if let Some(n) = index_name {
        assert(iname =~= " "@ + n.sql());
    }
    let c = comma_separated(columns@);
    let ptail = c + ")"@ + spaced_list(index_options@, " "@) + option_text(
        " "@,
        Seq::empty(),
        characteristics,
    );
    let uq = (TableConstraint::Unique {
        name,
        index_name,
        index_type_display,
        index_type,
        columns,
        index_options,
        characteristics,
        nulls_distinct,
    }).sql();
    if !(index_type_display is Nothing) {
        assert(index_type_display.sql_aligned(true) =~= " "@ + index_type_display.sql());
        reveal_strlit(" KEY");
        reveal_strlit(" INDEX");
        reveal_strlit("KEY");
        reveal_strlit("INDEX");
        reveal_strlit(" ");
        assert(" "@ + "KEY"@ =~= " KEY"@);
        assert(" "@ + "INDEX"@ =~= " INDEX"@);
    } else {
        assert(index_type_display.sql_aligned(true) =~= Seq::<char>::empty());
    }
    let uh = cn + "UNIQUE"@ + nulls_distinct.sql() + index_type_display.sql_aligned(true) + iname
        + using + " ("@;
    assert(uq =~= uh + ptail);
    lemma_starts(uq, uh, ptail);
}

/// A `FOREIGN KEY` constraint starts with its name after `CONSTRAINT ` and before a space
/// when given, then its keyword, its index name after a space when given, and ` (`; a
/// `CHECK` constraint starts with its name likewise, then `CHECK (`.
#[verifier::spinoff_prover]
#[verifier::rlimit(60)]
pub proof fn foreign_key_and_check_heads_are_written(
    name: Option<Ident>,
    index_name: Option<Ident>,
    fk_columns: Vec<Ident>,
    foreign_table: ObjectName,
    referred_columns: Vec<Ident>,
    on_delete: Option<ReferentialAction>,
    on_update: Option<ReferentialAction>,
    characteristics: Option<ConstraintCharacteristics>,
    expr: Expr,
    enforced: Option<bool>,
)
    ensures
        ({
            let cn = match name {
                Some(n) => "CONSTRAINT "@ + n.sql() + " "@,
                None => Seq::empty(),
            };
            let iname = match index_name {
                Some(n) => " "@ + n.sql(),
                None => Seq::empty(),
            };
            let fk = (TableConstraint::ForeignKey {
                name,
                index_name,
                columns: fk_columns,
                foreign_table,
                referred_columns,
                on_delete,
                on_update,
                characteristics,
            }).sql();
            let ck = (TableConstraint::Check { name, expr: Box::new(expr), enforced }).sql();
            &&& starts_with(fk, cn + "FOREIGN KEY"@ + iname + " ("@)
            &&& starts_with(ck, cn + "CHECK ("@)
        }),
{
    let cn = constraint_name_text(name);
    let iname = option_text(" "@, Seq::empty(), index_name);
    if let Some(n) = index_name {
        assert(iname =~= " "@ + n.sql());
    }
    let fk = (TableConstraint::ForeignKey {
        name,
        index_name,
        columns: fk_columns,
        foreign_table,
        referred_columns,
        on_delete,
        on_update,
        characteristics,
    }).sql();
    let ck = (TableConstraint::Check { name, expr: Box::new(expr), enforced }).sql();
    let ftail = comma_separated(fk_columns@) + ") REFERENCES "@ + foreign_table.sql() + if_text(
        referred_columns@.len() > 0,
        "("@ + comma_separated(referred_columns@) + ")"@,
    ) + foreign_key_tail(on_delete, on_update, characteristics);
    assert(fk =~= cn + "FOREIGN KEY"@ + iname + " ("@ + ftail);
    lemma_starts(fk, cn + "FOREIGN KEY"@ + iname + " ("@, ftail);
    let etail = expr.sql() + ")"@ + match enforced {
        Some(b) => " "@ + if b {
            "ENFORCED"@
        } else {
            "NOT ENFORCED"@
        },
        None => Seq::<char>::empty(),
    };
    assert(ck =~= cn + "CHECK ("@ + etail);
    lemma_starts(ck, cn + "CHECK ("@, etail);
}

/// The constraint characteristics render as nothing exactly when no setting is given;
/// otherwise each given setting contributes its words.
#[verifier::spinoff_prover]
#[verifier::rlimit(60)]
pub proof fn characteristics_empty_iff_unset(c: ConstraintCharacteristics)
    ensures
        (c.sql().len() == 0) <==> (c.deferrable is None && c.initially is None
            && c.enforced is None),
{
    reveal_strlit("DEFERRABLE");
    reveal_strlit("NOT DEFERRABLE");
    reveal_strlit("INITIALLY IMMEDIATE");
    reveal_strlit("INITIALLY DEFERRED");
    reveal_strlit("ENFORCED");
    reveal_strlit("NOT ENFORCED");
    reveal_strlit(" ");
    reveal_with_fuel(join, 4);
    reveal_with_fuel(present, 4);
    let ws = seq![c.deferrable_word(), c.initially_word(), c.enforced_word()];
    assert(ws.drop_last() =~= seq![c.deferrable_word(), c.initially_word()]);
    assert(ws.drop_last().drop_last() =~= seq![c.deferrable_word()]);
    assert(ws.drop_last().drop_last().drop_last() =~= Seq::<Option<Seq<char>>>::empty());
}

/// Distinct referential actions render as distinct keywords.
#[verifier::spinoff_prover]
#[verifier::rlimit(60)]
pub proof fn referential_action_sql_injective(a: ReferentialAction, b: ReferentialAction)
    requires
        a.sql() == b.sql(),
    ensures
        a == b,
{
    reveal_strlit("RESTRICT");
    reveal_strlit("CASCADE");
    reveal_strlit("SET NULL");
    reveal_strlit("NO ACTION");
    reveal_strlit("SET DEFAULT");
    assert("RESTRICT"@.len() == 8 && "RESTRICT"@[0] == 'R');
    assert("CASCADE"@.len() == 7);
    assert("SET NULL"@.len() == 8 && "SET NULL"@[0] == 'S');
    assert("NO ACTION"@.len() == 9);
    assert("SET DEFAULT"@.len() == 11);
    if a != b {
        assert(a.sql().len() != b.sql().len() || a.sql()[0] != b.sql()[0]);
    }
}

/// Distinct drop behaviours render as distinct keywords.
#[verifier::spinoff_prover]
#[verifier::rlimit(60)]
pub proof fn drop_behavior_sql_injective(a: DropBehavior, b: DropBehavior)
    requires
        a.sql() == b.sql(),
    ensures
        a == b,
{
    reveal_strlit("RESTRICT");
    reveal_strlit("CASCADE");
    assert("RESTRICT"@.len() == 8);
    assert("CASCADE"@.len() == 7);
    if a != b {
        assert(a.sql().len() != b.sql().len());
    }
}

/// `KeyOrIndexDisplay` renders as nothing exactly when it is `Nothing`, which is what
/// `is_none` reports.
#[verifier::spinoff_prover]
#[verifier::rlimit(60)]
pub proof fn key_or_index_empty_iff_none(k: KeyOrIndexDisplay)
    ensures
        (k.sql().len() == 0) <==> (k is Nothing),
        (k.sql_aligned(true).len() == 0) <==> (k is Nothing),
        k.sql_aligned(false) == k.sql(),
{
    reveal_strlit("KEY");
    reveal_strlit("INDEX");
    reveal_strlit(" ");
    assert(k.sql_aligned(false) =~= k.sql());
}

/// Right-aligned, a keyword that is written gets exactly one space before it.
#[verifier::spinoff_prover]
#[verifier::rlimit(60)]
pub proof fn key_or_index_aligned_adds_one_space(k: KeyOrIndexDisplay)
    requires
        !(k is Nothing),
    ensures
        k.sql_aligned(true) == " "@ + k.sql(),
{
}

} // verus!
