//! Rendering of AST values as SQL text: the `SqlDisplay` trait, separated lists,
//! optional parts and quote escaping.
use vstd::prelude::*;
use vstd::string::*;

verus! {

/// A value that renders as SQL text.
///
/// `sql` states the text; `to_string` builds it.  `displayable` holds of the values
/// that have a rendering at all (a few AST shapes have none).
pub trait SqlDisplay {
    /// Whether this value has an SQL rendering.
    spec fn displayable(&self) -> bool;

    /// The SQL text of this value.
    spec fn sql(&self) -> Seq<char>;

    /// Renders this value as SQL text.
    fn to_string(&self) -> (s: String)
        requires
            self.displayable(),
        ensures
            s@ == self.sql(),
    ;
}

/// `t` when `b` holds, nothing otherwise.
pub open spec fn if_text(b: bool, t: Seq<char>) -> Seq<char> {
    if b {
        t
    } else {
        Seq::empty()
    }
}

/// The parts, with `sep` between each two neighbours.
pub open spec fn join(parts: Seq<Seq<char>>, sep: Seq<char>) -> Seq<char>
    decreases parts.len(),
{
    if parts.len() == 0 {
        Seq::empty()
    } else if parts.len() == 1 {
        parts[0]
    } else {
        join(parts.drop_last(), sep) + sep + parts.last()
    }
}

/// The SQL text of each item, in order.
pub open spec fn sql_texts<T: SqlDisplay>(items: Seq<T>) -> Seq<Seq<char>> {
    items.map_values(|t: T| t.sql())
}

/// Every item has a rendering.
pub open spec fn all_displayable<T: SqlDisplay>(items: Seq<T>) -> bool {
    forall|i: int| 0 <= i < items.len() ==> #[trigger] items[i].displayable()
}

/// The items rendered one after the other with `sep` between them.
pub open spec fn separated<T: SqlDisplay>(items: Seq<T>, sep: Seq<char>) -> Seq<char> {
    join(sql_texts(items), sep)
}

/// The items rendered with `", "` between them.
pub open spec fn comma_separated<T: SqlDisplay>(items: Seq<T>) -> Seq<char> {
    separated(items, ", "@)
}

/// The items rendered one after the other with nothing between them.
pub open spec fn concatenated<T: SqlDisplay>(items: Seq<T>) -> Seq<char>
    decreases items.len(),
{
    if items.len() == 0 {
        Seq::empty()
    } else {
        concatenated(items.drop_last()) + items.last().sql()
    }
}

/// Text of an optional value: `prefix`, the value, `postfix`; nothing for `None`.
pub open spec fn option_text<T: SqlDisplay>(
    prefix: Seq<char>,
    postfix: Seq<char>,
    option: Option<T>,
) -> Seq<char> {
    match option {
        Some(inner) => prefix + inner.sql() + postfix,
        None => Seq::empty(),
    }
}

/// An optional value has a rendering when it is absent or its content has one.
pub open spec fn option_displayable<T: SqlDisplay>(option: Option<T>) -> bool {
    match option {
        Some(inner) => inner.displayable(),
        None => true,
    }
}

/// Appends `c` to `s`.
///
/// Calls `String::push`, whose documentation states that it appends the character to the
/// end of the string; the contract says exactly that and nothing more.
#[verifier::external_body]
pub(crate) fn push_char(s: &mut String, c: char)
    ensures
        final(s)@ == old(s)@.push(c),
{
    s.push(c)
}

/// Appends the SQL text of `x` to `s`.
pub fn append_sql<T: SqlDisplay>(s: &mut String, x: &T)
    requires
        x.displayable(),
    ensures
        final(s)@ == old(s)@ + x.sql(),
{
    let t = x.to_string();
    s.append(t.as_str());
}

/// Appends `t` to `s` when `b` holds.
pub fn append_when(s: &mut String, b: bool, t: &str)
    ensures
        final(s)@ == old(s)@ + if_text(b, t@),
{
    if b {
        s.append(t);
    } else {
        assert(old(s)@ + if_text(b, t@) =~= old(s)@);
    }
}

/// Renders the items with `sep` between each two neighbours.
pub fn display_separated<T: SqlDisplay>(items: &Vec<T>, sep: &str) -> (s: String)
    requires
        all_displayable(items@),
    ensures
        s@ == separated(items@, sep@),
{
    let mut res = String::new();
    let n = items.len();
    let ghost texts = sql_texts(items@);
    for i in 0..n
        invariant
            n == items@.len(),
            texts == sql_texts(items@),
            all_displayable(items@),
            res@ == join(texts.take(i as int), sep@),
    {
        assert(items@[i as int].displayable());
        if i > 0 {
            res.append(sep);
        }
        append_sql(&mut res, &items[i]);
        assert(texts.take(i + 1).drop_last() =~= texts.take(i as int));
        assert(texts.take(i + 1).last() == items@[i as int].sql());
        if i == 0 {
            assert(res@ =~= join(texts.take(1), sep@));
        }
    }
    assert(texts.take(n as int) =~= texts);
    res
}

/// Renders the items with `", "` between them.
pub fn display_comma_separated<T: SqlDisplay>(items: &Vec<T>) -> (s: String)
    requires
        all_displayable(items@),
    ensures
        s@ == comma_separated(items@),
{
    display_separated(items, ", ")
}


/// Each item rendered after `prefix`, one after the other.
pub open spec fn each_prefixed<T: SqlDisplay>(items: Seq<T>, prefix: Seq<char>) -> Seq<char>
    decreases items.len(),
{
    if items.len() == 0 {
        Seq::empty()
    } else {
        each_prefixed(items.drop_last(), prefix) + prefix + items.last().sql()
    }
}

/// Appends each item after `prefix`.
pub fn append_each_prefixed<T: SqlDisplay>(s: &mut String, items: &Vec<T>, prefix: &str)
    requires
        all_displayable(items@),
    ensures
        final(s)@ == old(s)@ + each_prefixed(items@, prefix@),
{
    let n = items.len();
    let ghost start = old(s)@;
    assert(items@.take(0) =~= Seq::<T>::empty());
    for i in 0..n
        invariant
            n == items@.len(),
            all_displayable(items@),
            s@ == start + each_prefixed(items@.take(i as int), prefix@),
    {
        assert(items@[i as int].displayable());
        s.append(prefix);
        append_sql(s, &items[i]);
        assert(items@.take(i + 1).drop_last() =~= items@.take(i as int));
    }
    assert(items@.take(n as int) =~= items@);
}

/// Renders the items one after the other.
pub fn display_concatenated<T: SqlDisplay>(items: &Vec<T>) -> (s: String)
    requires
        all_displayable(items@),
    ensures
        s@ == concatenated(items@),
{
    let mut res = String::new();
    let n = items.len();
    for i in 0..n
        invariant
            n == items@.len(),
            all_displayable(items@),
            res@ == concatenated(items@.take(i as int)),
    {
        assert(items@[i as int].displayable());
        append_sql(&mut res, &items[i]);
        assert(items@.take(i + 1).drop_last() =~= items@.take(i as int));
    }
    assert(items@.take(n as int) =~= items@);
    res
}

/// Appends `prefix` and the value, when there is one.
pub fn append_option<T: SqlDisplay>(s: &mut String, prefix: &str, option: &Option<T>)
    requires
        option_displayable(*option),
    ensures
        final(s)@ == old(s)@ + option_text(prefix@, Seq::empty(), *option),
{
    match option {
        Some(inner) => {
            s.append(prefix);
            append_sql(s, inner);
        },
        None => {
            assert(old(s)@ + option_text(prefix@, Seq::empty(), *option) =~= old(s)@);
        },
    }
}

/// `prefix`, the items separated by `", "`, `postfix`, when there is a list; nothing
/// otherwise.
pub open spec fn option_list_text<T: SqlDisplay>(
    prefix: Seq<char>,
    list: Option<Vec<T>>,
    postfix: Seq<char>,
) -> Seq<char> {
    match list {
        Some(items) => prefix + comma_separated(items@) + postfix,
        None => Seq::empty(),
    }
}

/// Every item of an optional list has a rendering.
pub open spec fn option_list_displayable<T: SqlDisplay>(list: Option<Vec<T>>) -> bool {
    match list {
        Some(items) => all_displayable(items@),
        None => true,
    }
}

/// Appends `prefix`, the items separated by `", "` and `postfix`, when there is a list.
pub fn append_option_list<T: SqlDisplay>(
    s: &mut String,
    prefix: &str,
    list: &Option<Vec<T>>,
    postfix: &str,
)
    requires
        option_list_displayable(*list),
    ensures
        final(s)@ == old(s)@ + option_list_text(prefix@, *list, postfix@),
{
    match list {
        Some(items) => {
            s.append(prefix);
            let t = display_comma_separated(items);
            s.append(t.as_str());
            s.append(postfix);
        },
        None => {
            assert(old(s)@ + option_list_text(prefix@, *list, postfix@) =~= old(s)@);
        },
    }
}

/// If `option` is `Some(inner)`, the text `"{prefix}{inner}{postfix}"`; otherwise nothing.
pub fn display_option<T: SqlDisplay>(prefix: &str, postfix: &str, option: &Option<T>) -> (s: String)
    requires
        option_displayable(*option),
    ensures
        s@ == option_text(prefix@, postfix@, *option),
{
    let mut res = String::new();
    match option {
        Some(inner) => {
            res.append(prefix);
            append_sql(&mut res, inner);
            res.append(postfix);
        },
        None => {},
    }
    res
}

/// If `option` is `Some(inner)`, the text `" {inner}"`; otherwise nothing.
pub fn display_option_spaced<T: SqlDisplay>(option: &Option<T>) -> (s: String)
    requires
        option_displayable(*option),
    ensures
        s@ == option_text(" "@, Seq::empty(), *option),
{
    let mut res = String::new();
    match option {
        Some(inner) => {
            res.append(" ");
            append_sql(&mut res, inner);
        },
        None => {},
    }
    res
}

/// Escaping of `quote` in `s`, where `prev` is the character read just before `s`.
///
/// A quote that follows a backslash is kept as it is, a quote that is already doubled
/// is kept as it is, and any other quote is doubled.
pub open spec fn escape_from(s: Seq<char>, quote: char, prev: char) -> Seq<char>
    decreases s.len(),
{
    if s.len() == 0 {
        Seq::empty()
    } else if s[0] == quote {
        if prev == '\\' {
            seq![quote] + escape_from(s.drop_first(), quote, prev)
        } else if s.len() > 1 && s[1] == quote {
            seq![quote, quote] + escape_from(s.skip(2), quote, quote)
        } else {
            seq![quote, quote] + escape_from(s.drop_first(), quote, quote)
        }
    } else {
        seq![s[0]] + escape_from(s.drop_first(), quote, s[0])
    }
}

/// `s` with its unescaped `quote` characters doubled.
pub open spec fn escape_quoted(s: Seq<char>, quote: char) -> Seq<char> {
    escape_from(s, quote, '\0')
}

/// Escapes `quote` in `s` for use inside a string quoted by `quote`.
///
/// The text may or may not already be escaped: a quote that is already doubled, or
/// that follows a backslash, is written once; any other quote is written twice.
pub fn escape_quoted_string(s: &str, quote: char) -> (r: String)
    ensures
        r@ == escape_quoted(s@, quote),
{
    let n = s.unicode_len();
    let mut res = String::new();
    let mut prev: char = '\0';
    let mut i: usize = 0;
    assert(s@.skip(0) =~= s@);
    while i < n
        invariant
            n == s@.len(),
            i <= n,
            escape_quoted(s@, quote) == res@ + escape_from(s@.skip(i as int), quote, prev),
        decreases n - i,
    {
        let c = s.get_char(i);
        let ghost rest = s@.skip(i as int);
        assert(rest[0] == c);
        assert(rest.drop_first() =~= s@.skip(i + 1));
        if c == quote {
            if prev == '\\' {
                push_char(&mut res, quote);
                i = i + 1;
            } else if i + 1 < n && s.get_char(i + 1) == quote {
                assert(rest[1] == s@[i + 1]);
                assert(rest.skip(2) =~= s@.skip(i + 2));
                push_char(&mut res, quote);
                push_char(&mut res, quote);
                prev = quote;
                i = i + 2;
            } else {
                push_char(&mut res, quote);
                push_char(&mut res, quote);
                prev = quote;
                i = i + 1;
            }
        } else {
            push_char(&mut res, c);
            prev = c;
            i = i + 1;
        }
    }
    assert(s@.skip(n as int) =~= Seq::<char>::empty());
    res
}

/// `'` escaped in `s` for use inside a single-quoted string.
pub open spec fn escape_single_quoted(s: Seq<char>) -> Seq<char> {
    escape_quoted(s, '\'')
}

/// Escapes single quotes in `s`.
pub fn escape_single_quote_string(s: &str) -> (r: String)
    ensures
        r@ == escape_single_quoted(s@),
{
    escape_quoted_string(s, '\'')
}


/// `t` is the last part of `s`.
pub open spec fn ends_with(s: Seq<char>, t: Seq<char>) -> bool {
    t.len() <= s.len() && s.subrange(s.len() - t.len(), s.len() as int) == t
}

/// `t` is the first part of `s`.
pub open spec fn starts_with(s: Seq<char>, t: Seq<char>) -> bool {
    t.len() <= s.len() && s.subrange(0, t.len() as int) == t
}

/// `t` occurs in `s`.
pub open spec fn contains_text(s: Seq<char>, t: Seq<char>) -> bool {
    exists|i: int| 0 <= i && i + t.len() <= s.len() && #[trigger] s.subrange(i, i + t.len()) == t
}

pub proof fn lemma_ends_with(x: Seq<char>, t: Seq<char>)
    ensures
        ends_with(x + t, t),
{
    assert((x + t).subrange(x.len() as int, (x.len() + t.len()) as int) =~= t);
}

pub proof fn lemma_starts_with(t: Seq<char>, y: Seq<char>)
    ensures
        starts_with(t + y, t),
{
    assert((t + y).subrange(0, t.len() as int) =~= t);
}

pub proof fn lemma_contains(x: Seq<char>, t: Seq<char>, y: Seq<char>)
    ensures
        contains_text(x + t + y, t),
{
    let s = x + t + y;
    assert(s.subrange(x.len() as int, (x.len() + t.len()) as int) =~= t);
}


/// `s`, being `x` then `t`, ends with `t`.
pub proof fn lemma_ends(s: Seq<char>, x: Seq<char>, t: Seq<char>)
    requires
        s =~= x + t,
    ensures
        ends_with(s, t),
{
    lemma_ends_with(x, t);
}

/// `s`, being `t` then `y`, starts with `t`.
pub proof fn lemma_starts(s: Seq<char>, t: Seq<char>, y: Seq<char>)
    requires
        s =~= t + y,
    ensures
        starts_with(s, t),
{
    lemma_starts_with(t, y);
}

/// `s`, being `x`, `t` and `y`, contains `t`.
pub proof fn lemma_has(s: Seq<char>, x: Seq<char>, t: Seq<char>, y: Seq<char>)
    requires
        s =~= x + t + y,
    ensures
        contains_text(s, t),
{
    lemma_contains(x, t, y);
}


/// `x`, `t` and three more parts, one after the other, contain `t`.
pub proof fn lemma_has_in_five(x: Seq<char>, t: Seq<char>, y: Seq<char>, z: Seq<char>, w: Seq<char>)
    ensures
        contains_text(x + t + y + z + w, t),
{
    let s = x + t + y + z + w;
    assert(s.subrange(x.len() as int, (x.len() + t.len()) as int) =~= t);
}


/// Text that occurs in `s` still occurs after more text is appended.
pub proof fn lemma_contains_extend(s: Seq<char>, t: Seq<char>, y: Seq<char>)
    requires
        contains_text(s, t),
    ensures
        contains_text(s + y, t),
{
    let i = choose|i: int| 0 <= i && i + t.len() <= s.len() && #[trigger] s.subrange(i, i + t.len()) == t;
    assert((s + y).subrange(i, i + t.len()) =~= s.subrange(i, i + t.len()));
}

/// A first part of `s` stays the first part after more text is appended.
pub proof fn lemma_starts_extend(s: Seq<char>, t: Seq<char>, y: Seq<char>)
    requires
        starts_with(s, t),
    ensures
        starts_with(s + y, t),
{
    assert((s + y).subrange(0, t.len() as int) =~= s.subrange(0, t.len() as int));
}

/// The last part of `s` occurs in `s`.
pub proof fn lemma_ends_contains(s: Seq<char>, t: Seq<char>)
    requires
        ends_with(s, t),
    ensures
        contains_text(s, t),
{
    assert(s.subrange(s.len() - t.len(), s.len() - t.len() + t.len()) == t);
}

/// The number of occurrences of `c` in `s`.
pub open spec fn count_char(s: Seq<char>, c: char) -> nat
    decreases s.len(),
{
    if s.len() == 0 {
        0
    } else {
        (if s[0] == c { 1nat } else { 0nat }) + count_char(s.drop_first(), c)
    }
}

/// `s` with every `c` taken out.
pub open spec fn without_char(s: Seq<char>, c: char) -> Seq<char>
    decreases s.len(),
{
    if s.len() == 0 {
        Seq::empty()
    } else if s[0] == c {
        without_char(s.drop_first(), c)
    } else {
        seq![s[0]] + without_char(s.drop_first(), c)
    }
}

/// Read from the left, every `quote` in `t` is the first of a pair of two `quote`s.
pub open spec fn quotes_paired(t: Seq<char>, quote: char) -> bool
    decreases t.len(),
{
    if t.len() == 0 {
        true
    } else if t[0] != quote {
        quotes_paired(t.drop_first(), quote)
    } else {
        t.len() >= 2 && t[1] == quote && quotes_paired(t.skip(2), quote)
    }
}

proof fn lemma_prefix_one(c: char, rest: Seq<char>)
    ensures
        (seq![c] + rest).len() > 0,
        (seq![c] + rest)[0] == c,
        (seq![c] + rest).drop_first() == rest,
{
    assert((seq![c] + rest).drop_first() =~= rest);
}

proof fn lemma_prefix_two(c: char, rest: Seq<char>)
    ensures
        (seq![c, c] + rest).len() >= 2,
        (seq![c, c] + rest)[0] == c,
        (seq![c, c] + rest)[1] == c,
        (seq![c, c] + rest).drop_first() == seq![c] + rest,
        (seq![c, c] + rest).skip(2) == rest,
{
    assert((seq![c, c] + rest).drop_first() =~= seq![c] + rest);
    assert((seq![c, c] + rest).skip(2) =~= rest);
}

proof fn lemma_escape_from_shape(s: Seq<char>, quote: char, prev: char)
    ensures
        without_char(escape_from(s, quote, prev), quote) == without_char(s, quote),
        count_char(s, quote) <= count_char(escape_from(s, quote, prev), quote),
        count_char(escape_from(s, quote, prev), quote) <= 2 * count_char(s, quote),
        prev != '\\' && !s.contains('\\') ==> quotes_paired(escape_from(s, quote, prev), quote),
    decreases s.len(),
{
    if s.len() == 0 {
    } else {
        let c = s[0];
        let d = s.drop_first();
        if !s.contains('\\') {
            assert forall|x: char| d.contains(x) implies s.contains(x) by {
                let k = choose|k: int| 0 <= k < d.len() && d[k] == x;
                assert(s[k + 1] == x);
            }
        }
        if c == quote {
            if prev == '\\' {
                let rest = escape_from(d, quote, prev);
                lemma_escape_from_shape(d, quote, prev);
                lemma_prefix_one(quote, rest);
            } else if s.len() > 1 && s[1] == quote {
                let rest = escape_from(s.skip(2), quote, quote);
                lemma_escape_from_shape(s.skip(2), quote, quote);
                lemma_prefix_two(quote, rest);
                lemma_prefix_one(quote, rest);
                assert(d[0] == quote);
                assert(d.drop_first() =~= s.skip(2));
                let out = seq![quote, quote] + rest;
                assert(without_char(d, quote) == without_char(s.skip(2), quote));
                assert(without_char(s, quote) == without_char(s.skip(2), quote));
                assert(without_char(out.drop_first(), quote) == without_char(rest, quote));
                assert(count_char(d, quote) == 1 + count_char(s.skip(2), quote));
                assert(count_char(out.drop_first(), quote) == 1 + count_char(rest, quote));
                if !s.contains('\\') {
                    assert forall|x: char| s.skip(2).contains(x) implies s.contains(x) by {
                        let k = choose|k: int| 0 <= k < s.skip(2).len() && s.skip(2)[k] == x;
                        assert(s[k + 2] == x);
                    }
                }
            } else {
                let rest = escape_from(d, quote, quote);
                lemma_escape_from_shape(d, quote, quote);
                lemma_prefix_two(quote, rest);
                lemma_prefix_one(quote, rest);
                let out = seq![quote, quote] + rest;
                assert(without_char(out.drop_first(), quote) == without_char(rest, quote));
                assert(count_char(out.drop_first(), quote) == 1 + count_char(rest, quote));
            }
        } else {
            let rest = escape_from(d, quote, c);
            lemma_escape_from_shape(d, quote, c);
            lemma_prefix_one(c, rest);
            if !s.contains('\\') {
                assert(c != '\\');
            }
        }
    }
}

proof fn lemma_escape_from_ends_paired(s: Seq<char>, quote: char, prev: char)
    requires
        s.len() > 0,
        s.last() == quote,
        prev != '\\',
        !s.contains('\\'),
    ensures
        ends_with(escape_from(s, quote, prev), seq![quote, quote]),
    decreases s.len(),
{
    let c = s[0];
    let d = s.drop_first();
    assert forall|x: char| d.contains(x) implies s.contains(x) by {
        let k = choose|k: int| 0 <= k < d.len() && d[k] == x;
        assert(s[k + 1] == x);
    }
    if c == quote {
        if s.len() > 1 && s[1] == quote {
            let rest = escape_from(s.skip(2), quote, quote);
            if s.len() == 2 {
                assert(s.skip(2) =~= Seq::<char>::empty());
                assert(seq![quote, quote] + rest =~= seq![quote, quote]);
                lemma_ends_with(Seq::empty(), seq![quote, quote]);
                assert(Seq::<char>::empty() + seq![quote, quote] =~= seq![quote, quote]);
            } else {
                assert(s.skip(2).last() == quote);
                assert forall|x: char| s.skip(2).contains(x) implies s.contains(x) by {
                    let k = choose|k: int| 0 <= k < s.skip(2).len() && s.skip(2)[k] == x;
                    assert(s[k + 2] == x);
                }
                lemma_escape_from_ends_paired(s.skip(2), quote, quote);
                lemma_ends_with_after(seq![quote, quote], rest, seq![quote, quote]);
            }
        } else {
            let rest = escape_from(d, quote, quote);
            if s.len() == 1 {
                assert(d =~= Seq::<char>::empty());
                assert(seq![quote, quote] + rest =~= seq![quote, quote]);
                lemma_ends_with(Seq::empty(), seq![quote, quote]);
                assert(Seq::<char>::empty() + seq![quote, quote] =~= seq![quote, quote]);
            } else {
                assert(d.last() == quote);
                lemma_escape_from_ends_paired(d, quote, quote);
                lemma_ends_with_after(seq![quote, quote], rest, seq![quote, quote]);
            }
        }
    } else {
        let rest = escape_from(d, quote, c);
        assert(s.len() > 1);
        assert(d.last() == quote);
        assert(c != '\\');
        lemma_escape_from_ends_paired(d, quote, c);
        lemma_ends_with_after(seq![c], rest, seq![quote, quote]);
    }
}

proof fn lemma_ends_with_after(x: Seq<char>, s: Seq<char>, t: Seq<char>)
    requires
        ends_with(s, t),
    ensures
        ends_with(x + s, t),
{
    assert((x + s).subrange((x + s).len() - t.len(), (x + s).len() as int) =~= s.subrange(
        s.len() - t.len(),
        s.len() as int,
    ));
}

/// What escaping does, in terms of its input and output: the characters other than the
/// quote are kept, in order; each quote of the input comes out once or twice, so the
/// output holds at least as many and at most twice as many quotes; and when the input
/// has no backslash, every quote of the output is paired with the next one (in
/// particular the output holds an even number of quotes), and an input that ends with a
/// quote gives an output that ends with two.
#[verifier::spinoff_prover]
#[verifier::rlimit(60)]
pub proof fn escape_quoted_shape(s: Seq<char>, quote: char)
    ensures
        without_char(escape_quoted(s, quote), quote) == without_char(s, quote),
        count_char(s, quote) <= count_char(escape_quoted(s, quote), quote),
        count_char(escape_quoted(s, quote), quote) <= 2 * count_char(s, quote),
        !s.contains('\\') ==> quotes_paired(escape_quoted(s, quote), quote),
        !s.contains('\\') && s.len() > 0 && s.last() == quote ==> ends_with(
            escape_quoted(s, quote),
            seq![quote, quote],
        ),
{
    lemma_escape_from_shape(s, quote, '\0');
    if !s.contains('\\') && s.len() > 0 && s.last() == quote {
        lemma_escape_from_ends_paired(s, quote, '\0');
    }
}

proof fn lemma_paired_count_even(t: Seq<char>, quote: char)
    requires
        quotes_paired(t, quote),
    ensures
        count_char(t, quote) % 2 == 0,
    decreases t.len(),
{
    if t.len() > 0 {
        if t[0] != quote {
            lemma_paired_count_even(t.drop_first(), quote);
        } else {
            lemma_paired_count_even(t.skip(2), quote);
            assert(t.drop_first().drop_first() =~= t.skip(2));
            assert(t.drop_first()[0] == quote);
        }
    }
}

/// Text without backslashes escapes to text with an even number of quotes.
#[verifier::spinoff_prover]
#[verifier::rlimit(60)]
pub proof fn escape_quoted_even_quotes(s: Seq<char>, quote: char)
    requires
        !s.contains('\\'),
    ensures
        count_char(escape_quoted(s, quote), quote) % 2 == 0,
{
    escape_quoted_shape(s, quote);
    lemma_paired_count_even(escape_quoted(s, quote), quote);
}

proof fn lemma_escape_from_idempotent(s: Seq<char>, quote: char, prev: char)
    ensures
        escape_from(escape_from(s, quote, prev), quote, prev) == escape_from(s, quote, prev),
    decreases s.len(),
{
    if s.len() == 0 {
    } else if s[0] == quote {
        if prev == '\\' {
            let rest = escape_from(s.drop_first(), quote, prev);
            lemma_escape_from_idempotent(s.drop_first(), quote, prev);
            let out = seq![quote] + rest;
            assert(out[0] == quote);
            assert(out.drop_first() =~= rest);
        } else if s.len() > 1 && s[1] == quote {
            let rest = escape_from(s.skip(2), quote, quote);
            lemma_escape_from_idempotent(s.skip(2), quote, quote);
            let out = seq![quote, quote] + rest;
            assert(out[0] == quote && out[1] == quote);
            assert(out.skip(2) =~= rest);
        } else {
            let rest = escape_from(s.drop_first(), quote, quote);
            lemma_escape_from_idempotent(s.drop_first(), quote, quote);
            let out = seq![quote, quote] + rest;
            assert(out[0] == quote && out[1] == quote);
            assert(out.skip(2) =~= rest);
        }
    } else {
        let rest = escape_from(s.drop_first(), quote, s[0]);
        lemma_escape_from_idempotent(s.drop_first(), quote, s[0]);
        let out = seq![s[0]] + rest;
        assert(out[0] == s[0]);
        assert(out.drop_first() =~= rest);
    }
}

/// Escaping is idempotent: escaping text that was already escaped changes nothing, so
/// text is rendered the same whether or not its quotes were escaped beforehand.
#[verifier::spinoff_prover]
#[verifier::rlimit(60)]
pub proof fn escape_quoted_idempotent(s: Seq<char>, quote: char)
    ensures
        escape_quoted(escape_quoted(s, quote), quote) == escape_quoted(s, quote),
{
    lemma_escape_from_idempotent(s, quote, '\0');
}

proof fn lemma_escape_from_paired(s: Seq<char>, quote: char, prev: char)
    requires
        quotes_paired(s, quote),
        !s.contains('\\'),
        prev != '\\',
    ensures
        escape_from(s, quote, prev) == s,
    decreases s.len(),
{
    if s.len() > 0 {
        assert forall|c: char| s.drop_first().contains(c) implies s.contains(c) by {
            let k = choose|k: int| 0 <= k < s.drop_first().len() && s.drop_first()[k] == c;
            assert(s[k + 1] == c);
        }
        if s[0] == quote {
            assert(s.skip(2) =~= s.drop_first().drop_first());
            assert forall|c: char| s.skip(2).contains(c) implies s.contains(c) by {
                let k = choose|k: int| 0 <= k < s.skip(2).len() && s.skip(2)[k] == c;
                assert(s[k + 2] == c);
            }
            lemma_escape_from_paired(s.skip(2), quote, quote);
            assert(s =~= seq![quote, quote] + s.skip(2));
        } else {
            assert(s[0] != '\\') by {
                assert(s.contains(s[0]));
            }
            lemma_escape_from_paired(s.drop_first(), quote, s[0]);
            assert(s =~= seq![s[0]] + s.drop_first());
        }
    }
}

/// Text that is already escaped, with no backslash and every quote doubled, is left as
/// it is.
#[verifier::spinoff_prover]
#[verifier::rlimit(60)]
pub proof fn escape_quoted_keeps_doubled_quotes(s: Seq<char>, quote: char)
    requires
        quotes_paired(s, quote),
        !s.contains('\\'),
    ensures
        escape_quoted(s, quote) == s,
{
    lemma_escape_from_paired(s, quote, '\0');
}

proof fn lemma_escape_from_backslashed(s: Seq<char>, quote: char, prev: char)
    requires
        forall|i: int|
            0 <= i < s.len() && #[trigger] s[i] == quote ==> (if i == 0 {
                prev == '\\'
            } else {
                s[i - 1] == '\\'
            }),
    ensures
        escape_from(s, quote, prev) == s,
    decreases s.len(),
{
    if s.len() > 0 {
        let d = s.drop_first();
        if s[0] == quote {
            assert(prev == '\\');
            assert forall|i: int|
                0 <= i < d.len() && #[trigger] d[i] == quote implies (if i == 0 {
                    prev == '\\'
                } else {
                    d[i - 1] == '\\'
                }) by {
                assert(s[i + 1] == quote);
            }
            lemma_escape_from_backslashed(d, quote, prev);
        } else {
            assert forall|i: int|
                0 <= i < d.len() && #[trigger] d[i] == quote implies (if i == 0 {
                    s[0] == '\\'
                } else {
                    d[i - 1] == '\\'
                }) by {
                assert(s[i + 1] == quote);
            }
            lemma_escape_from_backslashed(d, quote, s[0]);
        }
        assert(s =~= seq![s[0]] + d);
    }
}

/// Text in which every quote follows a backslash is left as it is: a quote escaped by a
/// backslash is never doubled.
#[verifier::spinoff_prover]
#[verifier::rlimit(60)]
pub proof fn escape_quoted_keeps_backslashed_quotes(s: Seq<char>, quote: char)
    requires
        forall|i: int| 0 <= i < s.len() && #[trigger] s[i] == quote ==> 0 < i && s[i - 1] == '\\',
    ensures
        escape_quoted(s, quote) == s,
{
    lemma_escape_from_backslashed(s, quote, '\0');
}

proof fn lemma_escape_from_no_quote(s: Seq<char>, quote: char, prev: char)
    requires
        !s.contains(quote),
    ensures
        escape_from(s, quote, prev) == s,
    decreases s.len(),
{
    if s.len() > 0 {
        assert(s[0] != quote);
        assert forall|c: char| s.drop_first().contains(c) implies s.contains(c) by {
            let k = choose|k: int| 0 <= k < s.drop_first().len() && s.drop_first()[k] == c;
            assert(s[k + 1] == c);
        }
        lemma_escape_from_no_quote(s.drop_first(), quote, s[0]);
        assert(s =~= seq![s[0]] + s.drop_first());
    }
}

/// Text without the quote character is left as it is by escaping.
#[verifier::spinoff_prover]
#[verifier::rlimit(60)]
pub proof fn escape_quoted_without_quote(s: Seq<char>, quote: char)
    requires
        !s.contains(quote),
    ensures
        escape_quoted(s, quote) == s,
{
    lemma_escape_from_no_quote(s, quote, '\0');
}


/// `display_option_spaced` renders what `display_option` renders with the prefix `" "`
/// and an empty postfix.
#[verifier::spinoff_prover]
#[verifier::rlimit(60)]
pub proof fn option_spaced_is_option_with_space<T: SqlDisplay>(option: Option<T>)
    ensures
        option_text(" "@, ""@, option) == option_text(" "@, Seq::empty(), option),
{
    reveal_strlit("");
    match option {
        Some(inner) => {
            assert(" "@ + inner.sql() + ""@ =~= " "@ + inner.sql() + Seq::<char>::empty());
        },
        None => {},
    }
}

/// A list of one item renders as that item, whatever the separator; an empty list renders
/// as nothing.
#[verifier::spinoff_prover]
#[verifier::rlimit(60)]
pub proof fn separated_single_and_empty<T: SqlDisplay>(items: Seq<T>, sep: Seq<char>)
    ensures
        items.len() == 0 ==> separated(items, sep) == Seq::<char>::empty(),
        items.len() == 1 ==> separated(items, sep) == items[0].sql(),
{
}

/// Appending one item to a list of at least one adds the separator and the item's text.
#[verifier::spinoff_prover]
#[verifier::rlimit(60)]
pub proof fn separated_push<T: SqlDisplay>(items: Seq<T>, item: T, sep: Seq<char>)
    requires
        items.len() > 0,
    ensures
        separated(items.push(item), sep) == separated(items, sep) + sep + item.sql(),
{
    assert(sql_texts(items.push(item)).drop_last() =~= sql_texts(items));
}


/// A comma-separated list puts `", "` between neighbours: one item renders as itself, and
/// appending an item to a non-empty list adds `", "` and the item's text.
#[verifier::spinoff_prover]
#[verifier::rlimit(60)]
pub proof fn comma_separated_push<T: SqlDisplay>(items: Seq<T>, item: T)
    ensures
        comma_separated(Seq::<T>::empty()) == Seq::<char>::empty(),
        comma_separated(seq![item]) == item.sql(),
        items.len() > 0 ==> comma_separated(items.push(item)) == comma_separated(items) + ", "@
            + item.sql(),
{
    separated_single_and_empty(Seq::<T>::empty(), ", "@);
    separated_single_and_empty(seq![item], ", "@);
    if items.len() > 0 {
        separated_push(items, item, ", "@);
    }
}

/// Every item of a list appears, rendered, in the list's text.
#[verifier::spinoff_prover]
#[verifier::rlimit(60)]
pub proof fn separated_shows_each_item<T: SqlDisplay>(items: Seq<T>, sep: Seq<char>, i: int)
    requires
        0 <= i < items.len(),
    ensures
        contains_text(separated(items, sep), items[i].sql()),
    decreases items.len(),
{
    let front = items.drop_last();
    assert(items =~= front.push(items.last()));
    if items.len() == 1 {
        separated_single_and_empty(items, sep);
        lemma_contains(Seq::empty(), items[0].sql(), Seq::empty());
        assert(Seq::<char>::empty() + items[0].sql() + Seq::<char>::empty() =~= items[0].sql());
    } else {
        separated_push(front, items.last(), sep);
        if i == items.len() - 1 {
            lemma_ends_with(separated(front, sep) + sep, items.last().sql());
            lemma_ends_contains(separated(items, sep), items.last().sql());
        } else {
            separated_shows_each_item(front, sep, i);
            assert(front[i] == items[i]);
            lemma_contains_extend(separated(front, sep), items[i].sql(), sep + items.last().sql());
            assert(separated(front, sep) + (sep + items.last().sql()) =~= separated(front, sep) + sep
                + items.last().sql());
        }
    }
}

/// Items written one after the other each after a prefix: nothing for no items, and
/// appending an item adds the prefix and the item's text.
#[verifier::spinoff_prover]
#[verifier::rlimit(60)]
pub proof fn each_prefixed_and_concatenated_push<T: SqlDisplay>(
    items: Seq<T>,
    item: T,
    prefix: Seq<char>,
)
    ensures
        each_prefixed(Seq::<T>::empty(), prefix) == Seq::<char>::empty(),
        each_prefixed(items.push(item), prefix) == each_prefixed(items, prefix) + prefix
            + item.sql(),
        concatenated(Seq::<T>::empty()) == Seq::<char>::empty(),
        concatenated(items.push(item)) == concatenated(items) + item.sql(),
{
    assert(items.push(item).drop_last() =~= items);
}

} // verus!
