//! Naming context: which concrete column a logical field name stands for.
//!
//! A [`FieldResolver`] pairs a schema (the column names that exist) with a
//! prefix. A logical name resolves to the prefix followed by the name, provided
//! that column is part of the schema. An [`Environment`] carries one resolver
//! through the evaluation of a reader.

use vstd::prelude::*;

verus! {

/// Mathematical model of a [`FieldResolver`]: the known columns and the prefix
/// in force.
pub struct ResolverModel {
    pub schema: Seq<Seq<char>>,
    pub prefix: Seq<char>,
}

impl ResolverModel {
    /// The concrete column that `name` stands for: the prefix followed by the name.
    pub open spec fn qualified(self, name: Seq<char>) -> Seq<char> {
        self.prefix + name
    }

    /// Whether `name` stands for a column of the schema.
    pub open spec fn resolves(self, name: Seq<char>) -> bool {
        self.schema.contains(self.qualified(name))
    }

    /// The message reported for a column that the schema lacks.
    pub open spec fn missing(column: Seq<char>) -> Seq<char> {
        column + " not in schema"@
    }

    /// The outcome of resolving `name`: the concrete column, or the message
    /// that carries the column that was looked for.
    pub open spec fn resolution(self, name: Seq<char>) -> Result<Seq<char>, Seq<char>> {
        if self.resolves(name) {
            Ok(self.qualified(name))
        } else {
            Err(Self::missing(self.qualified(name)))
        }
    }

    /// The same schema under another prefix. The old prefix is dropped, not extended.
    pub open spec fn with_prefix(self, prefix: Seq<char>) -> ResolverModel {
        ResolverModel { schema: self.schema, prefix }
    }

    /// The same schema under the empty prefix.
    pub open spec fn clear_prefix(self) -> ResolverModel {
        ResolverModel { schema: self.schema, prefix: Seq::empty() }
    }
}

/// The characters of the outcome of a resolution.
pub open spec fn text_of(outcome: Result<String, String>) -> Result<Seq<char>, Seq<char>> {
    match outcome {
        Ok(column) => Ok(column@),
        Err(message) => Err(message@),
    }
}

/// The types of values that name a column.
pub trait IntoName: Sized {
    /// The name that the value stands for.
    spec fn name(&self) -> Seq<char>;

    fn into_name(self) -> (name: String)
        ensures
            name@ == self.name(),
    ;
}

impl IntoName for String {
    open spec fn name(&self) -> Seq<char> {
        self@
    }

    fn into_name(self) -> (name: String) {
        self
    }
}

impl<'a> IntoName for &'a str {
    open spec fn name(&self) -> Seq<char> {
        self@
    }

    fn into_name(self) -> (name: String) {
        String::from_str(self)
    }
}

/// The names that a list of values stand for.
pub open spec fn given_names_of<S: IntoName>(values: Seq<S>) -> Seq<Seq<char>> {
    values.map_values(|value: S| value.name())
}

/// The names of a list of columns, as sequences of characters.
pub open spec fn names_of(columns: Seq<String>) -> Seq<Seq<char>> {
    columns.map_values(|column: String| column@)
}

/// The names of a list of borrowed columns, as sequences of characters.
pub open spec fn borrowed_names_of(columns: Seq<&str>) -> Seq<Seq<char>> {
    columns.map_values(|column: &str| column@)
}

/// Owned copies of a list of names, in order.
fn copy_names(columns: &Vec<String>) -> (copy: Vec<String>)
    ensures
        names_of(copy@) == names_of(columns@),
{
    let mut copy: Vec<String> = Vec::new();
    let mut i: usize = 0;
    while i < columns.len()
        invariant
            i <= columns.len(),
            copy.len() == i,
            forall|j: int| 0 <= j < i ==> copy@[j]@ == columns@[j]@,
        decreases columns.len() - i,
    {
        copy.push(columns[i].clone());
        i += 1;
    }
    assert(names_of(copy@) =~= names_of(columns@));
    copy
}

/// Schema and current prefix. A value is never altered: every operation that
/// changes the prefix returns a new resolver.
#[derive(Debug, PartialEq)]
pub struct FieldResolver {
    schema: Vec<String>,
    prefix: String,
}

impl View for FieldResolver {
    type V = ResolverModel;

    closed spec fn view(&self) -> ResolverModel {
        ResolverModel { schema: names_of(self.schema@), prefix: self.prefix@ }
    }
}

impl Clone for FieldResolver {
    fn clone(&self) -> (copy: Self)
        ensures
            copy@ == self@,
    {
        FieldResolver { schema: copy_names(&self.schema), prefix: self.prefix.clone() }
    }
}

impl FieldResolver {
    /// A resolver over `schema` with the empty prefix.
    pub fn new<S: IntoName>(schema: Vec<S>) -> (resolver: Self)
        ensures
            resolver@.schema == given_names_of(schema@),
            resolver@.prefix == Seq::<char>::empty(),
    {
        let ghost wanted = given_names_of(schema@);
        let mut rest = schema;
        let mut owned: Vec<String> = Vec::new();
        while rest.len() > 0
            invariant
                owned.len() + rest.len() == wanted.len(),
                forall|j: int| 0 <= j < owned.len() ==> owned@[j]@ == wanted[j],
                forall|j: int|
                    0 <= j < rest.len() ==> (#[trigger] rest@[j]).name() == wanted[owned.len() + j],
            decreases rest.len(),
        {
            let value = rest.remove(0);
            owned.push(value.into_name());
        }
        assert(names_of(owned@) =~= wanted);
        FieldResolver { schema: owned, prefix: String::new() }
    }

    /// A resolver over the same schema whose prefix is `value`.
    pub fn with_prefix(&self, value: &str) -> (resolver: Self)
        ensures
            resolver@ == self@.with_prefix(value@),
    {
        FieldResolver { schema: copy_names(&self.schema), prefix: String::from_str(value) }
    }

    /// A resolver over the same schema with the empty prefix.
    pub fn clear_prefix(&self) -> (resolver: Self)
        ensures
            resolver@ == self@.clear_prefix(),
    {
        FieldResolver { schema: copy_names(&self.schema), prefix: String::new() }
    }

    /// The prefix in force.
    pub fn prefix(&self) -> (prefix: &str)
        ensures
            prefix@ == self@.prefix,
    {
        self.prefix.as_str()
    }

    /// Resolves a logical name to a concrete column.
    ///
    /// Succeeds exactly when the prefix followed by `name` is a column of the
    /// schema, and then returns that column. Otherwise the error names the
    /// column that was looked for.
    pub fn resolve(&self, name: &str) -> (outcome: Result<String, String>)
        ensures
            text_of(outcome) == self@.resolution(name@),
    {
        let column = self.prefix.clone().concat(name);
        let mut i: usize = 0;
        while i < self.schema.len()
            invariant
                i <= self.schema.len(),
                column@ == self@.qualified(name@),
                forall|j: int| 0 <= j < i ==> self.schema@[j]@ != column@,
            decreases self.schema.len() - i,
        {
            if self.schema[i] == column {
                assert(names_of(self.schema@)[i as int] == column@);
                return Ok(column);
            }
            i += 1;
        }
        assert(!names_of(self.schema@).contains(column@));
        Err(column.concat(" not in schema"))
    }
}

/// Mathematical model of an [`Environment`].
pub struct EnvironmentModel {
    pub resolver: ResolverModel,
}

impl EnvironmentModel {
    /// The same environment with the resolver's prefix replaced by `prefix`.
    pub open spec fn with_prefix(self, prefix: Seq<char>) -> EnvironmentModel {
        EnvironmentModel { resolver: self.resolver.with_prefix(prefix) }
    }

    /// The same environment with the empty prefix.
    pub open spec fn clear_prefix(self) -> EnvironmentModel {
        EnvironmentModel { resolver: self.resolver.clear_prefix() }
    }
}

/// The context that a reader is evaluated in. It wraps exactly one resolver.
#[derive(Debug, PartialEq)]
pub struct Environment {
    resolver: FieldResolver,
}

impl View for Environment {
    type V = EnvironmentModel;

    closed spec fn view(&self) -> EnvironmentModel {
        EnvironmentModel { resolver: self.resolver@ }
    }
}

impl Clone for Environment {
    fn clone(&self) -> (copy: Self)
        ensures
            copy@ == self@,
    {
        Environment { resolver: self.resolver.clone() }
    }
}

impl Environment {
    /// The environment around `resolver`.
    pub fn new(resolver: FieldResolver) -> (environment: Self)
        ensures
            environment@.resolver == resolver@,
    {
        Environment { resolver }
    }

    /// An environment whose resolver has the prefix `value`.
    pub fn with_prefix(&self, value: &str) -> (environment: Self)
        ensures
            environment@ == self@.with_prefix(value@),
    {
        Environment { resolver: self.resolver.with_prefix(value) }
    }

    /// An environment whose resolver has the empty prefix.
    pub fn clear_prefix(&self) -> (environment: Self)
        ensures
            environment@ == self@.clear_prefix(),
    {
        Environment { resolver: self.resolver.clear_prefix() }
    }

    /// The resolver inside.
    pub fn resolver(&self) -> (resolver: &FieldResolver)
        ensures
            resolver@ == self@.resolver,
    {
        &self.resolver
    }
}

} // verus!
