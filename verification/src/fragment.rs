//! The parts of the syntax tree that the DDL nodes refer to but whose structure they
//! do not inspect.  Each is held as its SQL text and renders as that text.
//! Identifiers and object names are modelled in full.
use vstd::prelude::*;
use vstd::string::*;

use crate::text::{
    all_displayable, display_separated, escape_quoted, escape_quoted_string, push_char, separated,
    SqlDisplay,
};

verus! {

/// An identifier, possibly quoted.
#[derive(Debug, Clone, PartialEq, PartialOrd, Eq, Ord, Hash)]
pub struct Ident {
    /// The identifier's text, without quotes.
    pub value: String,
    /// The quote it is written with: `"`, `'`, `` ` `` or `[`; `None` when unquoted.
    pub quote_style: Option<char>,
}

impl Ident {
    /// An unquoted identifier.
    pub fn new(value: String) -> (r: Ident)
        ensures
            r.value@ == value@,
            r.quote_style == None::<char>,
    {
        Ident { value, quote_style: None }
    }

    /// An identifier quoted with `quote`.
    pub fn with_quote(quote: char, value: String) -> (r: Ident)
        ensures
            r.value@ == value@,
            r.quote_style == Some(quote),
    {
        Ident { value, quote_style: Some(quote) }
    }
}

/// Whether `q` is a quote that an identifier is written between, doubling it inside.
pub open spec fn is_escaping_quote(q: char) -> bool {
    q == '"' || q == '\'' || q == '`'
}

impl SqlDisplay for Ident {
    /// An identifier has a rendering when it is unquoted or its quote is one of the four
    /// known quotes.
    open spec fn displayable(&self) -> bool {
        match self.quote_style {
            None => true,
            Some(q) => is_escaping_quote(q) || q == '[',
        }
    }

    /// Unquoted: the text itself; `[`: the text between brackets; other quotes: the text
    /// between two quotes, with the quote escaped inside.
    open spec fn sql(&self) -> Seq<char> {
        match self.quote_style {
            None => self.value@,
            Some(q) => if is_escaping_quote(q) {
                seq![q] + escape_quoted(self.value@, q) + seq![q]
            } else {
                seq!['['] + self.value@ + seq![']']
            },
        }
    }

    fn to_string(&self) -> (s: String) {
        match self.quote_style {
            None => String::from_str(self.value.as_str()),
            Some(q) => {
                if q == '"' || q == '\'' || q == '`' {
                    let mut s = String::new();
                    push_char(&mut s, q);
                    let escaped = escape_quoted_string(self.value.as_str(), q);
                    s.append(escaped.as_str());
                    push_char(&mut s, q);
                    s
                } else {
                    let mut s = String::new();
                    push_char(&mut s, '[');
                    s.append(self.value.as_str());
                    push_char(&mut s, ']');
                    s
                }
            },
        }
    }
}

/// A possibly qualified name: identifiers joined by `.`.
#[derive(Debug, Clone, PartialEq, PartialOrd, Eq, Ord, Hash)]
pub struct ObjectName(pub Vec<Ident>);

impl SqlDisplay for ObjectName {
    open spec fn displayable(&self) -> bool {
        all_displayable(self.0@)
    }

    open spec fn sql(&self) -> Seq<char> {
        separated(self.0@, "."@)
    }

    fn to_string(&self) -> (s: String) {
        display_separated(&self.0, ".")
    }
}

/// A data type.  `Unspecified` stands for a column declared without a type and
/// renders as nothing; any other type is held as its SQL text.
#[derive(Debug, Clone, PartialEq, PartialOrd, Eq, Ord, Hash)]
pub enum DataType {
    Unspecified,
    Named(String),
}

impl SqlDisplay for DataType {
    open spec fn displayable(&self) -> bool {
        true
    }

    open spec fn sql(&self) -> Seq<char> {
        match self {
            DataType::Unspecified => Seq::empty(),
            DataType::Named(t) => t@,
        }
    }

    fn to_string(&self) -> (s: String) {
        match self {
            DataType::Unspecified => String::new(),
            DataType::Named(t) => String::from_str(t.as_str()),
        }
    }
}

/// The body of a `CREATE FUNCTION`, by where it stands in the statement.
#[derive(Debug, Clone, PartialEq, PartialOrd, Eq, Ord, Hash)]
pub enum CreateFunctionBody {
    /// `AS <expr>` before the `OPTIONS` clause.
    AsBeforeOptions(Expr),
    /// `AS <expr>` after the `OPTIONS` clause.
    AsAfterOptions(Expr),
    /// `AS BEGIN ... END`.
    AsBeginEnd(BeginEndStatements),
    /// `RETURN <expr>`.
    Return(Expr),
    /// `AS RETURN <expr>`.
    AsReturnExpr(Expr),
    /// `AS RETURN <select>`.
    AsReturnSelect(Select),
}

/// An SQL expression, held as its SQL text.
#[derive(Debug, Clone, PartialEq, PartialOrd, Eq, Ord, Hash)]
pub struct Expr(pub String);

impl SqlDisplay for Expr {
    open spec fn displayable(&self) -> bool {
        true
    }

    open spec fn sql(&self) -> Seq<char> {
        self.0@
    }

    fn to_string(&self) -> (s: String) {
        String::from_str(self.0.as_str())
    }
}

/// A MySQL column position (`FIRST` or `AFTER <column>`), held as its SQL text.
#[derive(Debug, Clone, PartialEq, PartialOrd, Eq, Ord, Hash)]
pub struct MySQLColumnPosition(pub String);

impl SqlDisplay for MySQLColumnPosition {
    open spec fn displayable(&self) -> bool {
        true
    }

    open spec fn sql(&self) -> Seq<char> {
        self.0@
    }

    fn to_string(&self) -> (s: String) {
        String::from_str(self.0.as_str())
    }
}

/// The `SELECT` of a ClickHouse projection, held as its SQL text.
#[derive(Debug, Clone, PartialEq, PartialOrd, Eq, Ord, Hash)]
pub struct ProjectionSelect(pub String);

impl SqlDisplay for ProjectionSelect {
    open spec fn displayable(&self) -> bool {
        true
    }

    open spec fn sql(&self) -> Seq<char> {
        self.0@
    }

    fn to_string(&self) -> (s: String) {
        String::from_str(self.0.as_str())
    }
}

/// A `key = value` option, held as its SQL text.
#[derive(Debug, Clone, PartialEq, PartialOrd, Eq, Ord, Hash)]
pub struct SqlOption(pub String);

impl SqlDisplay for SqlOption {
    open spec fn displayable(&self) -> bool {
        true
    }

    open spec fn sql(&self) -> Seq<char> {
        self.0@
    }

    fn to_string(&self) -> (s: String) {
        String::from_str(self.0.as_str())
    }
}

/// A literal value, held as its SQL text.
#[derive(Debug, Clone, PartialEq, PartialOrd, Eq, Ord, Hash)]
pub struct Value(pub String);

impl SqlDisplay for Value {
    open spec fn displayable(&self) -> bool {
        true
    }

    open spec fn sql(&self) -> Seq<char> {
        self.0@
    }

    fn to_string(&self) -> (s: String) {
        String::from_str(self.0.as_str())
    }
}

/// A literal value together with its source location, held as its SQL text.
#[derive(Debug, Clone, PartialEq, PartialOrd, Eq, Ord, Hash)]
pub struct ValueWithSpan(pub String);

impl SqlDisplay for ValueWithSpan {
    open spec fn displayable(&self) -> bool {
        true
    }

    open spec fn sql(&self) -> Seq<char> {
        self.0@
    }

    fn to_string(&self) -> (s: String) {
        String::from_str(self.0.as_str())
    }
}

/// A sequence option of an identity column, held as its SQL text.
#[derive(Debug, Clone, PartialEq, PartialOrd, Eq, Ord, Hash)]
pub struct SequenceOptions(pub String);

impl SqlDisplay for SequenceOptions {
    open spec fn displayable(&self) -> bool {
        true
    }

    open spec fn sql(&self) -> Seq<char> {
        self.0@
    }

    fn to_string(&self) -> (s: String) {
        String::from_str(self.0.as_str())
    }
}

/// A column of an index, with its ordering, held as its SQL text.
#[derive(Debug, Clone, PartialEq, PartialOrd, Eq, Ord, Hash)]
pub struct IndexColumn(pub String);

impl SqlDisplay for IndexColumn {
    open spec fn displayable(&self) -> bool {
        true
    }

    open spec fn sql(&self) -> Seq<char> {
        self.0@
    }

    fn to_string(&self) -> (s: String) {
        String::from_str(self.0.as_str())
    }
}

/// The mode of a procedure parameter (`IN`, `OUT`, `INOUT`), held as its SQL text.
#[derive(Debug, Clone, PartialEq, PartialOrd, Eq, Ord, Hash)]
pub struct ArgMode(pub String);

impl SqlDisplay for ArgMode {
    open spec fn displayable(&self) -> bool {
        true
    }

    open spec fn sql(&self) -> Seq<char> {
        self.0@
    }

    fn to_string(&self) -> (s: String) {
        String::from_str(self.0.as_str())
    }
}

/// A `name = 'value'` tag, held as its SQL text.
#[derive(Debug, Clone, PartialEq, PartialOrd, Eq, Ord, Hash)]
pub struct Tag(pub String);

impl SqlDisplay for Tag {
    open spec fn displayable(&self) -> bool {
        true
    }

    open spec fn sql(&self) -> Seq<char> {
        self.0@
    }

    fn to_string(&self) -> (s: String) {
        String::from_str(self.0.as_str())
    }
}

/// A token of a dialect-specific column option, held as its SQL text.
#[derive(Debug, Clone, PartialEq, PartialOrd, Eq, Ord, Hash)]
pub struct Token(pub String);

impl SqlDisplay for Token {
    open spec fn displayable(&self) -> bool {
        true
    }

    open spec fn sql(&self) -> Seq<char> {
        self.0@
    }

    fn to_string(&self) -> (s: String) {
        String::from_str(self.0.as_str())
    }
}

/// A keyword, as its name (the way `Debug` writes it), held as its SQL text.
#[derive(Debug, Clone, PartialEq, PartialOrd, Eq, Ord, Hash)]
pub struct Keyword(pub String);

impl SqlDisplay for Keyword {
    open spec fn displayable(&self) -> bool {
        true
    }

    open spec fn sql(&self) -> Seq<char> {
        self.0@
    }

    fn to_string(&self) -> (s: String) {
        String::from_str(self.0.as_str())
    }
}

/// An expression of an `ORDER BY` list, held as its SQL text.
#[derive(Debug, Clone, PartialEq, PartialOrd, Eq, Ord, Hash)]
pub struct OrderByExpr(pub String);

impl SqlDisplay for OrderByExpr {
    open spec fn displayable(&self) -> bool {
        true
    }

    open spec fn sql(&self) -> Seq<char> {
        self.0@
    }

    fn to_string(&self) -> (s: String) {
        String::from_str(self.0.as_str())
    }
}

/// An argument of a function declaration, held as its SQL text.
#[derive(Debug, Clone, PartialEq, PartialOrd, Eq, Ord, Hash)]
pub struct OperateFunctionArg(pub String);

impl SqlDisplay for OperateFunctionArg {
    open spec fn displayable(&self) -> bool {
        true
    }

    open spec fn sql(&self) -> Seq<char> {
        self.0@
    }

    fn to_string(&self) -> (s: String) {
        String::from_str(self.0.as_str())
    }
}

/// The behaviour of a function (`IMMUTABLE`, `STABLE`, `VOLATILE`), held as its SQL text.
#[derive(Debug, Clone, PartialEq, PartialOrd, Eq, Ord, Hash)]
pub struct FunctionBehavior(pub String);

impl SqlDisplay for FunctionBehavior {
    open spec fn displayable(&self) -> bool {
        true
    }

    open spec fn sql(&self) -> Seq<char> {
        self.0@
    }

    fn to_string(&self) -> (s: String) {
        String::from_str(self.0.as_str())
    }
}

/// How a function treats `NULL` input, held as its SQL text.
#[derive(Debug, Clone, PartialEq, PartialOrd, Eq, Ord, Hash)]
pub struct FunctionCalledOnNull(pub String);

impl SqlDisplay for FunctionCalledOnNull {
    open spec fn displayable(&self) -> bool {
        true
    }

    open spec fn sql(&self) -> Seq<char> {
        self.0@
    }

    fn to_string(&self) -> (s: String) {
        String::from_str(self.0.as_str())
    }
}

/// The `PARALLEL` setting of a function, held as its SQL text.
#[derive(Debug, Clone, PartialEq, PartialOrd, Eq, Ord, Hash)]
pub struct FunctionParallel(pub String);

impl SqlDisplay for FunctionParallel {
    open spec fn displayable(&self) -> bool {
        true
    }

    open spec fn sql(&self) -> Seq<char> {
        self.0@
    }

    fn to_string(&self) -> (s: String) {
        String::from_str(self.0.as_str())
    }
}

/// The determinism of a function (`[NOT] DETERMINISTIC`), held as its SQL text.
#[derive(Debug, Clone, PartialEq, PartialOrd, Eq, Ord, Hash)]
pub struct FunctionDeterminismSpecifier(pub String);

impl SqlDisplay for FunctionDeterminismSpecifier {
    open spec fn displayable(&self) -> bool {
        true
    }

    open spec fn sql(&self) -> Seq<char> {
        self.0@
    }

    fn to_string(&self) -> (s: String) {
        String::from_str(self.0.as_str())
    }
}

/// The `USING` clause of a Hive function, held as its SQL text.
#[derive(Debug, Clone, PartialEq, PartialOrd, Eq, Ord, Hash)]
pub struct CreateFunctionUsing(pub String);

impl SqlDisplay for CreateFunctionUsing {
    open spec fn displayable(&self) -> bool {
        true
    }

    open spec fn sql(&self) -> Seq<char> {
        self.0@
    }

    fn to_string(&self) -> (s: String) {
        String::from_str(self.0.as_str())
    }
}

/// A comment on a connector, held as its SQL text.
#[derive(Debug, Clone, PartialEq, PartialOrd, Eq, Ord, Hash)]
pub struct CommentDef(pub String);

impl SqlDisplay for CommentDef {
    open spec fn displayable(&self) -> bool {
        true
    }

    open spec fn sql(&self) -> Seq<char> {
        self.0@
    }

    fn to_string(&self) -> (s: String) {
        String::from_str(self.0.as_str())
    }
}

/// A `BEGIN ... END` block of statements, held as its SQL text.
#[derive(Debug, Clone, PartialEq, PartialOrd, Eq, Ord, Hash)]
pub struct BeginEndStatements(pub String);

impl SqlDisplay for BeginEndStatements {
    open spec fn displayable(&self) -> bool {
        true
    }

    open spec fn sql(&self) -> Seq<char> {
        self.0@
    }

    fn to_string(&self) -> (s: String) {
        String::from_str(self.0.as_str())
    }
}

/// A `SELECT` query, held as its SQL text.
#[derive(Debug, Clone, PartialEq, PartialOrd, Eq, Ord, Hash)]
pub struct Select(pub String);

impl SqlDisplay for Select {
    open spec fn displayable(&self) -> bool {
        true
    }

    open spec fn sql(&self) -> Seq<char> {
        self.0@
    }

    fn to_string(&self) -> (s: String) {
        String::from_str(self.0.as_str())
    }
}

/// An identifier whose text holds no quote character of its own renders as that text
/// between two quotes; an unquoted identifier renders as its text.
#[verifier::spinoff_prover]
#[verifier::rlimit(60)]
pub proof fn ident_quoting(i: Ident)
    ensures
        i.quote_style is None ==> i.sql() == i.value@,
        i.quote_style is Some && is_escaping_quote(i.quote_style.unwrap())
            && !i.value@.contains(i.quote_style.unwrap()) ==> i.sql() == seq![
            i.quote_style.unwrap(),
        ] + i.value@ + seq![i.quote_style.unwrap()],
        i.quote_style == Some('[') ==> i.sql() == seq!['['] + i.value@ + seq![']'],
{
    if let Some(q) = i.quote_style {
        if is_escaping_quote(q) && !i.value@.contains(q) {
            crate::text::escape_quoted_without_quote(i.value@, q);
        }
    }
}

/// A quoted identifier renders the same whether or not the quotes in its text were
/// escaped beforehand.
#[verifier::spinoff_prover]
#[verifier::rlimit(60)]
pub proof fn quoted_ident_ignores_prior_escaping(i: Ident, j: Ident)
    requires
        i.quote_style is Some,
        is_escaping_quote(i.quote_style.unwrap()),
        j.quote_style == i.quote_style,
        j.value@ == escape_quoted(i.value@, i.quote_style.unwrap()),
    ensures
        j.sql() == i.sql(),
{
    crate::text::escape_quoted_idempotent(i.value@, i.quote_style.unwrap());
}

} // verus!
