//! The values that are handed to the templates of the provisioning tools.
//!
//! The values are collected in a `tera::Context`. The engine only fills it:
//! what a context holds is stated by `context_entries`, and the contracts of
//! the functions that fill one say which entries it holds afterwards.

use vstd::prelude::*;
use vstd::string::*;

verus! {

/// The collection of named values that templates are rendered with.
#[verifier::external_type_specification]
#[verifier::external_body]
pub struct ExContext(tera::Context);

/// A value of a template, as the contracts see it.
pub enum TemplateValue {
    /// No value.
    Null,
    /// A truth value.
    Flag(bool),
    /// A number that is not negative.
    Number(u64),
    /// A text.
    Text(Seq<char>),
    /// A list of records, each with its values by their names.
    Records(Seq<Map<Seq<char>, TemplateValue>>),
}

/// A value to hand to a template.
#[derive(Debug)]
pub enum Scalar {
    Null,
    Flag(bool),
    Number(u64),
    Text(String),
}

impl View for Scalar {
    type V = TemplateValue;

    open spec fn view(&self) -> TemplateValue {
        match *self {
            Scalar::Null => TemplateValue::Null,
            Scalar::Flag(b) => TemplateValue::Flag(b),
            Scalar::Number(n) => TemplateValue::Number(n),
            Scalar::Text(s) => TemplateValue::Text(s@),
        }
    }
}

/// What is put into a context under one name: one value, or a list of
/// records, each a list of names with their values.
#[derive(Debug)]
pub enum Entry {
    One(Scalar),
    Rows(Vec<Vec<(String, Scalar)>>),
}

/// The values of a record by their names: a later value replaces an earlier
/// one of the same name.
pub open spec fn record_of(fields: Seq<(String, Scalar)>) -> Map<Seq<char>, TemplateValue>
    decreases fields.len(),
{
    if fields.len() == 0 {
        Map::empty()
    } else {
        record_of(fields.drop_last()).insert(fields.last().0@, fields.last().1@)
    }
}

/// The records of a list of rows.
pub open spec fn records_of(rows: Seq<Vec<(String, Scalar)>>) -> Seq<Map<Seq<char>, TemplateValue>> {
    rows.map_values(|row: Vec<(String, Scalar)>| record_of(row@))
}

impl View for Entry {
    type V = TemplateValue;

    open spec fn view(&self) -> TemplateValue {
        match *self {
            Entry::One(value) => value@,
            Entry::Rows(rows) => TemplateValue::Records(records_of(rows@)),
        }
    }
}

/// The values that a context holds, by their names.
pub uninterp spec fn context_entries(ctx: tera::Context) -> Map<Seq<char>, TemplateValue>;

/// A context without values.
///
/// Trusted: `tera::Context::new` makes a context with an empty map.
#[verifier::external_body]
fn empty_context() -> (made: tera::Context)
    ensures
        context_entries(made).dom() == Set::<Seq<char>>::empty(),
{
    tera::Context::new()
}

/// A context without values.
pub fn new_context() -> (made: tera::Context)
    ensures
        context_entries(made) == Map::<Seq<char>, TemplateValue>::empty(),
{
    let made = empty_context();
    assert(context_entries(made) =~= Map::<Seq<char>, TemplateValue>::empty());
    made
}

/// Puts `value` into the context under the name `key`, in place of what the
/// name stood for before.
///
/// Trusted: `tera::Context::insert` serialises the value and inserts it into
/// the map of the context under the key. A text, a number, a truth value and
/// the null value serialise to the JSON value of that kind, and a list of
/// records to an array of objects.
#[verifier::external_body]
pub(crate) fn context_insert(ctx: &mut tera::Context, key: &str, value: &Entry)
    ensures
        context_entries(*final(ctx)) == context_entries(*old(ctx)).insert(key@, value@),
{
    let json = |v: &Scalar| match v {
        Scalar::Null => serde_json::Value::Null,
        Scalar::Flag(b) => serde_json::Value::Bool(*b),
        Scalar::Number(n) => serde_json::Value::from(*n),
        Scalar::Text(s) => serde_json::Value::String(s.clone()),
    };
    match value {
        Entry::One(v) => ctx.insert(key, &json(v)),
        Entry::Rows(rows) => ctx.insert(
            key,
            &rows.iter().map(|r| r.iter().map(|(n, v)| (n.clone(), json(v))).collect()).collect::<
                Vec<serde_json::Map<String, serde_json::Value>>,
            >(),
        ),
    }
}

/// Puts a text into the context.
pub fn insert_text(ctx: &mut tera::Context, key: &str, value: &str)
    ensures
        context_entries(*final(ctx)) == context_entries(*old(ctx)).insert(
            key@,
            TemplateValue::Text(value@),
        ),
{
    context_insert(ctx, key, &Entry::One(Scalar::Text(String::from_str(value))));
}

/// Puts a number into the context.
pub fn insert_number(ctx: &mut tera::Context, key: &str, value: u64)
    ensures
        context_entries(*final(ctx)) == context_entries(*old(ctx)).insert(
            key@,
            TemplateValue::Number(value),
        ),
{
    context_insert(ctx, key, &Entry::One(Scalar::Number(value)));
}

/// Puts a truth value into the context.
pub fn insert_flag(ctx: &mut tera::Context, key: &str, value: bool)
    ensures
        context_entries(*final(ctx)) == context_entries(*old(ctx)).insert(
            key@,
            TemplateValue::Flag(value),
        ),
{
    context_insert(ctx, key, &Entry::One(Scalar::Flag(value)));
}

/// Puts a list of records into the context.
pub fn insert_records(ctx: &mut tera::Context, key: &str, rows: Vec<Vec<(String, Scalar)>>)
    ensures
        context_entries(*final(ctx)) == context_entries(*old(ctx)).insert(
            key@,
            TemplateValue::Records(records_of(rows@)),
        ),
{
    context_insert(ctx, key, &Entry::Rows(rows));
}

/// A field of a record that holds a text.
pub fn text_field(name: &str, value: &str) -> (r: (String, Scalar))
    ensures
        r.0@ == name@,
        r.1@ == TemplateValue::Text(value@),
{
    (String::from_str(name), Scalar::Text(String::from_str(value)))
}

/// A field of a record that holds a number.
pub fn number_field(name: &str, value: u64) -> (r: (String, Scalar))
    ensures
        r.0@ == name@,
        r.1@ == TemplateValue::Number(value),
{
    (String::from_str(name), Scalar::Number(value))
}

/// A field of a record that holds a truth value.
pub fn flag_field(name: &str, value: bool) -> (r: (String, Scalar))
    ensures
        r.0@ == name@,
        r.1@ == TemplateValue::Flag(value),
{
    (String::from_str(name), Scalar::Flag(value))
}

/// The record with the fields of `so_far` and one more.
pub proof fn lemma_record_push(so_far: Seq<(String, Scalar)>, field: (String, Scalar))
    ensures
        record_of(so_far.push(field)) == record_of(so_far).insert(field.0@, field.1@),
{
    assert(so_far.push(field).drop_last() =~= so_far);
}

/// The entries `entries` with each of the `pairs` added as a text, in their
/// order.
pub open spec fn with_texts(
    entries: Map<Seq<char>, TemplateValue>,
    pairs: Seq<(Seq<char>, Seq<char>)>,
) -> Map<Seq<char>, TemplateValue>
    decreases pairs.len(),
{
    if pairs.len() == 0 {
        entries
    } else {
        with_texts(entries, pairs.drop_last()).insert(
            pairs.last().0,
            TemplateValue::Text(pairs.last().1),
        )
    }
}

/// Puts each of the pairs into the context as a text, in their order.
pub fn insert_texts(ctx: &mut tera::Context, values: &Vec<(String, String)>)
    ensures
        context_entries(*final(ctx)) == with_texts(
            context_entries(*old(ctx)),
            crate::text::pairs(values@),
        ),
{
    let n: usize = values.len();
    let mut i: usize = 0;
    let ghost all = crate::text::pairs(values@);
    while i < n
        invariant
            i <= n == values.len(),
            all == crate::text::pairs(values@),
            context_entries(*ctx) == with_texts(context_entries(*old(ctx)), all.take(i as int)),
        decreases n - i,
    {
        proof {
            assert(all.take(i + 1).drop_last() =~= all.take(i as int));
        }
        insert_text(ctx, values[i].0.as_str(), values[i].1.as_str());
        i = i + 1;
    }
    assert(all.take(n as int) =~= all);
}

} // verus!
