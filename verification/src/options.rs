//! Named string options attached to an external table or user mapping, and
//! the generic clause renderer: each table format declares an ordered list
//! of rendering rules ({option name, rendered label, separator, value
//! style}), and a statement is the join of the rendered clauses of the
//! options that are present.

use crate::text::{
    format_csv, join_strings, quote_piece, spec_format_csv, spec_join, spec_quote, str_chars,
    str_eq,
};
use vstd::prelude::*;

verus! {

/// The mathematical content of an option set: a map from option name to
/// option value, later bindings of the same name replacing earlier ones.
pub open spec fn pairs_map(s: Seq<(String, String)>) -> Map<Seq<char>, Seq<char>>
    decreases s.len(),
{
    if s.len() == 0 {
        Map::empty()
    } else {
        pairs_map(s.drop_last()).insert(s.last().0@, s.last().1@)
    }
}

/// Pairwise distinct option names (as character sequences).
pub open spec fn distinct_key_views(s: Seq<(String, String)>) -> bool {
    forall|i: int, j: int| 0 <= i < j < s.len() ==> s[i].0@ != s[j].0@
}

/// An option set: a mapping from option name to string value. At most one
/// value per name; setting a name again replaces its value.
pub struct TableOptions {
    pairs: Vec<(String, String)>,
}

impl View for TableOptions {
    type V = Map<Seq<char>, Seq<char>>;

    closed spec fn view(&self) -> Map<Seq<char>, Seq<char>> {
        pairs_map(self.pairs@)
    }
}

proof fn lemma_pairs_map_entry(s: Seq<(String, String)>, i: int)
    requires
        distinct_key_views(s),
        0 <= i < s.len(),
    ensures
        pairs_map(s).contains_key(s[i].0@),
        pairs_map(s)[s[i].0@] == s[i].1@,
    decreases s.len(),
{
    if i == s.len() - 1 {
    } else {
        lemma_pairs_map_entry(s.drop_last(), i);
        assert(s.drop_last()[i] == s[i]);
        assert(s.last().0@ != s[i].0@);
    }
}

proof fn lemma_pairs_map_absent(s: Seq<(String, String)>, k: Seq<char>)
    requires
        forall|i: int| 0 <= i < s.len() ==> s[i].0@ != k,
    ensures
        !pairs_map(s).contains_key(k),
    decreases s.len(),
{
    if s.len() > 0 {
        lemma_pairs_map_absent(s.drop_last(), k);
    }
}

proof fn lemma_pairs_map_update(s: Seq<(String, String)>, i: int, v: String)
    requires
        distinct_key_views(s),
        0 <= i < s.len(),
    ensures
        pairs_map(s.update(i, (s[i].0, v))) =~= pairs_map(s).insert(s[i].0@, v@),
    decreases s.len(),
{
    let t = s.update(i, (s[i].0, v));
    if i == s.len() - 1 {
        assert(t.drop_last() =~= s.drop_last());
    } else {
        lemma_pairs_map_update(s.drop_last(), i, v);
        assert(t.drop_last() =~= s.drop_last().update(i, (s[i].0, v)));
        assert(t.last() == s.last());
        assert(s.last().0@ != s[i].0@);
        assert(pairs_map(t) =~= pairs_map(t.drop_last()).insert(t.last().0@, t.last().1@));
    }
}

impl TableOptions {
    /// Option names are pairwise distinct.
    pub closed spec fn inv(&self) -> bool {
        distinct_key_views(self.pairs@)
    }

    pub fn new() -> (r: Self)
        ensures
            r.inv(),
            r@ == Map::<Seq<char>, Seq<char>>::empty(),
    {
        let r = TableOptions { pairs: Vec::new() };
        r
    }

    fn find(&self, key: &str) -> (r: Option<usize>)
        ensures
            match r {
                Some(i) => i < self.pairs@.len() && self.pairs@[i as int].0@ == key@,
                None => forall|i: int| 0 <= i < self.pairs@.len() ==> self.pairs@[i].0@ != key@,
            },
    {
        let n = self.pairs.len();
        let mut i: usize = 0;
        while i < n
            invariant
                i <= n,
                n == self.pairs@.len(),
                forall|j: int| 0 <= j < i ==> self.pairs@[j].0@ != key@,
            decreases n - i,
        {
            if str_eq(self.pairs[i].0.as_str(), key) {
                return Some(i);
            }
            i = i + 1;
        }
        None
    }

    /// Binds `key` to `value`, replacing any earlier binding.
    pub fn set(&mut self, key: String, value: String)
        requires
            old(self).inv(),
        ensures
            final(self).inv(),
            final(self)@ == old(self)@.insert(key@, value@),
    {
        match self.find(key.as_str()) {
            Some(i) => {
                let ghost s = self.pairs@;
                let k = self.pairs[i].0.clone();
                proof {
                    lemma_pairs_map_update(s, i as int, value);
                }
                self.pairs.set(i, (k, value));
                proof {
                    assert(self.pairs@ =~= s.update(i as int, (s[i as int].0, value)));
                    assert(self@ =~= old(self)@.insert(key@, value@));
                }
            },
            None => {
                self.pairs.push((key, value));
                proof {
                    assert(self.pairs@.drop_last() =~= old(self).pairs@);
                }
            },
        }
    }

    /// The value bound to `key`, if any.
    pub fn get(&self, key: &str) -> (r: Option<String>)
        requires
            self.inv(),
        ensures
            match r {
                Some(v) => self@.contains_key(key@) && v@ == self@[key@],
                None => !self@.contains_key(key@),
            },
    {
        match self.find(key) {
            Some(i) => {
                proof {
                    lemma_pairs_map_entry(self.pairs@, i as int);
                }
                Some(self.pairs[i].1.clone())
            },
            None => {
                proof {
                    lemma_pairs_map_absent(self.pairs@, key@);
                }
                None
            },
        }
    }

    /// Whether `key` is bound.
    pub fn contains(&self, key: &str) -> (r: bool)
        requires
            self.inv(),
        ensures
            r == self@.contains_key(key@),
    {
        self.get(key).is_some()
    }

    /// Whether no option is bound.
    pub fn is_empty(&self) -> (r: bool)
        requires
            self.inv(),
        ensures
            r == (self@ == Map::<Seq<char>, Seq<char>>::empty()),
    {
        let e = self.pairs.len() == 0;
        proof {
            if e {
                assert(self@ =~= Map::<Seq<char>, Seq<char>>::empty());
            } else {
                lemma_pairs_map_entry(self.pairs@, 0);
            }
        }
        e
    }
}

/// How an option value is rendered inside a clause.
#[derive(Clone, Copy, PartialEq, Eq, Structural, Debug)]
pub enum ValueStyle {
    /// The value itself.
    Bare,
    /// The value wrapped in single quotes.
    Quoted,
    /// The value as a comma-separated list: one item quoted, several
    /// bracketed.
    CsvList,
}

/// The ghost content of a rendering rule.
#[verifier::ext_equal]
pub ghost struct RuleV {
    /// The option name looked up in the option set.
    pub key: Seq<char>,
    /// What the clause starts with (empty for a positional argument).
    pub label: Seq<char>,
    /// What stands between label and value.
    pub eq: Seq<char>,
    pub style: ValueStyle,
}

/// One rendering rule: when the named option is present, emit
/// `label eq value` with the value rendered per `style`.
pub struct OptionRule {
    pub key: String,
    pub label: String,
    pub eq: String,
    pub style: ValueStyle,
}

impl View for OptionRule {
    type V = RuleV;

    open spec fn view(&self) -> RuleV {
        RuleV { key: self.key@, label: self.label@, eq: self.eq@, style: self.style }
    }
}

/// Builds one rendering rule.
pub fn rule(key: &str, label: &str, eq: &str, style: ValueStyle) -> (r: OptionRule)
    ensures
        r@ == (RuleV { key: key@, label: label@, eq: eq@, style }),
{
    OptionRule {
        key: String::from_str(key),
        label: String::from_str(label),
        eq: String::from_str(eq),
        style,
    }
}

/// The text of one clause for value `v`.
pub open spec fn rule_clause(r: RuleV, v: Seq<char>) -> Seq<char> {
    r.label + r.eq + match r.style {
        ValueStyle::Bare => v,
        ValueStyle::Quoted => spec_quote(v),
        ValueStyle::CsvList => spec_format_csv(v),
    }
}

/// The clauses of the rules whose options are present, in rule order.
pub open spec fn rendered_clauses(rules: Seq<RuleV>, m: Map<Seq<char>, Seq<char>>) -> Seq<
    Seq<char>,
>
    decreases rules.len(),
{
    if rules.len() == 0 {
        Seq::empty()
    } else {
        rendered_clauses(rules.drop_last(), m) + if m.contains_key(rules.last().key) {
            seq![rule_clause(rules.last(), m[rules.last().key])]
        } else {
            Seq::empty()
        }
    }
}

/// The rule views of a rule list.
pub open spec fn rules_view(rules: Seq<OptionRule>) -> Seq<RuleV> {
    rules.map_values(|r: OptionRule| r@)
}

/// Renders one clause for a present option value.
fn render_clause(r: &OptionRule, value: &String) -> (out: String)
    ensures
        out@ == rule_clause(r@, value@),
{
    let mut out = String::new();
    out.append(r.label.as_str());
    out.append(r.eq.as_str());
    match r.style {
        ValueStyle::Bare => {
            out.append(value.as_str());
        },
        ValueStyle::Quoted => {
            let cs = str_chars(value.as_str());
            let q = quote_piece(&cs);
            out.append(q.as_str());
        },
        ValueStyle::CsvList => {
            let f = format_csv(value.as_str());
            out.append(f.as_str());
        },
    }
    out
}

/// Renders the clauses of all present options, in rule order.
pub fn render_clauses(rules: &Vec<OptionRule>, opts: &TableOptions) -> (out: Vec<String>)
    requires
        opts.inv(),
    ensures
        out.deep_view() == rendered_clauses(rules_view(rules@), opts@),
{
    let mut out: Vec<String> = Vec::new();
    let n = rules.len();
    let mut i: usize = 0;
    while i < n
        invariant
            i <= n,
            n == rules@.len(),
            opts.inv(),
            out.deep_view() == rendered_clauses(rules_view(rules@.take(i as int)), opts@),
        decreases n - i,
    {
        let ghost prefix = rules_view(rules@.take(i as int));
        let ghost next = rules_view(rules@.take(i + 1 as int));
        proof {
            assert(next =~= prefix.push(rules@[i as int]@));
            assert(next.drop_last() =~= prefix);
        }
        match opts.get(rules[i].key.as_str()) {
            Some(v) => {
                let clause = render_clause(&rules[i], &v);
                out.push(clause);
                proof {
                    assert(out.deep_view() =~~= rendered_clauses(next, opts@));
                }
            },
            None => {
                proof {
                    assert(out.deep_view() =~~= rendered_clauses(next, opts@));
                }
            },
        }
        i = i + 1;
    }
    proof {
        assert(rules@.take(n as int) =~= rules@);
    }
    out
}

/// The text of a relation-creating statement over an engine reader
/// function.
pub open spec fn spec_relation_statement(
    relation: Seq<char>,
    schema: Seq<char>,
    table: Seq<char>,
    select: Seq<char>,
    reader: Seq<char>,
    args: Seq<char>,
) -> Seq<char> {
    "CREATE "@ + relation + " IF NOT EXISTS "@ + schema + "."@ + table + " AS SELECT "@ + select
        + " FROM "@ + reader + "("@ + args + ")"@
}

/// Assembles a `CREATE ... IF NOT EXISTS schema.table AS SELECT ... FROM
/// reader(args)` statement.
pub fn relation_statement(
    relation: &str,
    schema: &str,
    table: &str,
    select: &str,
    reader: &str,
    args: &str,
) -> (r: String)
    ensures
        r@ == spec_relation_statement(relation@, schema@, table@, select@, reader@, args@),
{
    let mut r = String::from_str("CREATE ");
    r.append(relation);
    r.append(" IF NOT EXISTS ");
    r.append(schema);
    r.append(".");
    r.append(table);
    r.append(" AS SELECT ");
    r.append(select);
    r.append(" FROM ");
    r.append(reader);
    r.append("(");
    r.append(args);
    r.append(")");
    r
}

/// The clause list joined with `", "`.
pub open spec fn spec_args(clauses: Seq<Seq<char>>) -> Seq<char> {
    spec_join(clauses, ", "@)
}

/// Joins rendered clauses with `", "`.
pub fn join_args(clauses: &Vec<String>) -> (r: String)
    ensures
        r@ == spec_args(clauses.deep_view()),
{
    join_strings(clauses, ", ")
}

/// Errors of the statement builders.
#[derive(Clone, Copy, PartialEq, Eq, Structural, Debug)]
pub enum OptionError {
    /// The universally required `files` option is absent.
    MissingFiles,
    /// A secret cannot be built from an empty user mapping.
    EmptyUserMapping,
    /// The `type` option of a user mapping is absent.
    MissingSecretType,
}

impl OptionError {
    /// A human-readable description of the error.
    pub fn message(&self) -> (r: String)
        ensures
            r@ == self.spec_message(),
    {
        match self {
            OptionError::MissingFiles => String::from_str("files option is required"),
            OptionError::EmptyUserMapping => String::from_str(
                "create_secret requires user mapping options",
            ),
            OptionError::MissingSecretType => String::from_str(
                "type option required for USER MAPPING",
            ),
        }
    }

    /// The description of each error.
    pub open spec fn spec_message(&self) -> Seq<char> {
        match self {
            OptionError::MissingFiles => "files option is required"@,
            OptionError::EmptyUserMapping => "create_secret requires user mapping options"@,
            OptionError::MissingSecretType => "type option required for USER MAPPING"@,
        }
    }
}

} // verus!
