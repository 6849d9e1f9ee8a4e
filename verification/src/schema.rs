//! Parameter schemas and the validation of raw arguments against them.
//!
//! A schema lists the fields a tool accepts. Validation turns a raw,
//! untyped key-value map into typed arguments, one entry per field of the
//! schema, or names the first field that is at fault and why.

use vstd::prelude::*;
use vstd::string::*;
use crate::text::same_text;

verus! {

/// The primitive types a field can have.
#[derive(Clone, Copy, PartialEq, Eq, Debug, Structural)]
pub enum Primitive {
    /// Any text.
    Text,
    /// `true` or `false`.
    Boolean,
    /// A whole number from zero to `max`.
    Unsigned { max: u64 },
}

/// A value as decoded from the wire, before any check.
#[derive(Clone, Debug, PartialEq, Eq)]
pub enum RawValue {
    Null,
    Bool(bool),
    /// A whole number.
    Integer(i128),
    Text(String),
    /// Anything else: a fraction, a list, a nested map.
    Other,
}

/// The mathematical content of a [`RawValue`].
pub enum RawView {
    Null,
    Bool(bool),
    Integer(int),
    Text(Seq<char>),
    Other,
}

impl View for RawValue {
    type V = RawView;

    open spec fn view(&self) -> RawView {
        match self {
            RawValue::Null => RawView::Null,
            RawValue::Bool(b) => RawView::Bool(*b),
            RawValue::Integer(n) => RawView::Integer(*n as int),
            RawValue::Text(t) => RawView::Text(t@),
            RawValue::Other => RawView::Other,
        }
    }
}

/// A value that has passed the check against a primitive type.
#[derive(Clone, Debug, PartialEq, Eq)]
pub enum Value {
    Text(String),
    Boolean(bool),
    Unsigned(u64),
}

/// The mathematical content of a [`Value`].
pub enum ValueView {
    Text(Seq<char>),
    Boolean(bool),
    Unsigned(nat),
}

impl View for Value {
    type V = ValueView;

    open spec fn view(&self) -> ValueView {
        match self {
            Value::Text(t) => ValueView::Text(t@),
            Value::Boolean(b) => ValueView::Boolean(*b),
            Value::Unsigned(n) => ValueView::Unsigned(*n as nat),
        }
    }
}

/// One field of a schema.
#[derive(Clone, Debug, PartialEq, Eq)]
pub struct FieldSpec {
    pub name: String,
    pub primitive: Primitive,
    /// Whether the field may be left out or be null.
    pub optional: bool,
    /// The raw value that stands in for an optional field that is left out.
    pub default: Option<RawValue>,
    /// What the field is for, in words.
    pub doc: String,
}

/// The mathematical content of a [`FieldSpec`].
pub struct FieldView {
    pub name: Seq<char>,
    pub primitive: Primitive,
    pub optional: bool,
    pub default: Option<RawView>,
    pub doc: Seq<char>,
}

impl View for FieldSpec {
    type V = FieldView;

    open spec fn view(&self) -> FieldView {
        FieldView {
            name: self.name@,
            primitive: self.primitive,
            optional: self.optional,
            default: match self.default {
                Some(d) => Some(d@),
                None => None,
            },
            doc: self.doc@,
        }
    }
}

/// A field that must be given.
pub open spec fn required_field(name: Seq<char>, primitive: Primitive, doc: Seq<char>) -> FieldView {
    FieldView { name, primitive, optional: false, default: None, doc }
}

/// A field that may be left out, without a default.
pub open spec fn optional_field(name: Seq<char>, primitive: Primitive, doc: Seq<char>) -> FieldView {
    FieldView { name, primitive, optional: true, default: None, doc }
}

impl FieldSpec {
    /// A field that must be given.
    pub fn required(name: &str, primitive: Primitive, doc: &str) -> (field: FieldSpec)
        ensures
            field@ == required_field(name@, primitive, doc@),
    {
        FieldSpec {
            name: String::from_str(name),
            primitive,
            optional: false,
            default: None,
            doc: String::from_str(doc),
        }
    }

    /// A field that may be left out, without a default.
    pub fn optional(name: &str, primitive: Primitive, doc: &str) -> (field: FieldSpec)
        ensures
            field@ == optional_field(name@, primitive, doc@),
    {
        FieldSpec {
            name: String::from_str(name),
            primitive,
            optional: true,
            default: None,
            doc: String::from_str(doc),
        }
    }
}

/// Why a field was refused.
#[derive(Clone, Copy, PartialEq, Eq, Debug, Structural)]
pub enum Reason {
    /// A required field was left out.
    Missing,
    /// The value is of another type than the field.
    WrongType,
    /// The value is a number outside the field's range.
    OutOfRange,
}

/// The refusal of a raw argument map: the field at fault and the reason.
#[derive(Clone, Debug, PartialEq, Eq)]
pub struct ValidationError {
    pub field: String,
    pub reason: Reason,
}

/// Why a schema could not be extended.
#[derive(Clone, Copy, PartialEq, Eq, Debug, Structural)]
pub enum SchemaError {
    /// The schema already has a field of that name.
    DuplicateField,
}

/// No two fields have the same name.
pub open spec fn names_distinct(fields: Seq<FieldView>) -> bool {
    forall|i: int, j: int|
        0 <= i < j < fields.len() ==> (#[trigger] fields[i]).name != (#[trigger] fields[j]).name
}

/// Whether one of the fields has the given name.
pub open spec fn has_field(fields: Seq<FieldView>, name: Seq<char>) -> bool {
    exists|i: int| 0 <= i < fields.len() && (#[trigger] fields[i]).name == name
}

/// The views of the fields, in order.
pub open spec fn field_views(fields: Seq<FieldSpec>) -> Seq<FieldView> {
    fields.map_values(|f: FieldSpec| f@)
}

/// The description of a tool's parameters: fields with distinct names, in
/// the order in which they were declared.
#[derive(Debug)]
pub struct Schema {
    fields: Vec<FieldSpec>,
}

impl View for Schema {
    type V = Seq<FieldView>;

    closed spec fn view(&self) -> Seq<FieldView> {
        field_views(self.fields@)
    }
}

impl Schema {
    #[verifier::type_invariant]
    spec fn well_formed(self) -> bool {
        names_distinct(field_views(self.fields@))
    }

    /// The schema without fields.
    pub fn new() -> (schema: Schema)
        ensures
            schema@ == Seq::<FieldView>::empty(),
    {
        let schema = Schema { fields: Vec::new() };
        assert(schema@ =~= Seq::<FieldView>::empty());
        schema
    }

    /// The schema of a single field.
    pub fn single(field: FieldSpec) -> (schema: Schema)
        ensures
            schema@ == seq![field@],
    {
        let mut fields: Vec<FieldSpec> = Vec::new();
        fields.push(field);
        let schema = Schema { fields };
        assert(schema@ =~= seq![field@]);
        schema
    }

    /// The schema of two fields, unless they have the same name.
    pub fn pair(first: FieldSpec, second: FieldSpec) -> (made: Result<Schema, SchemaError>)
        ensures
            match made {
                Ok(schema) => first@.name != second@.name && schema@ == seq![first@, second@],
                Err(SchemaError::DuplicateField) => first@.name == second@.name,
            },
    {
        let mut schema = Schema::single(first);
        match schema.add_field(second) {
            Ok(()) => {
                assert(schema@ =~= seq![first@, second@]);
                Ok(schema)
            },
            Err(e) => {
                assert(seq![first@][0].name == second@.name);
                Err(e)
            },
        }
    }

    /// How many fields the schema has. Their names are distinct.
    pub fn len(&self) -> (n: usize)
        ensures
            n == self@.len(),
            names_distinct(self@),
    {
        proof {
            use_type_invariant(self);
        }
        self.fields.len()
    }

    /// The field at a position.
    pub fn field(&self, i: usize) -> (f: &FieldSpec)
        requires
            i < self@.len(),
        ensures
            f@ == self@[i as int],
    {
        &self.fields[i]
    }

    /// Whether the schema has a field of the given name.
    pub fn contains(&self, name: &str) -> (found: bool)
        ensures
            found == has_field(self@, name@),
    {
        let mut i: usize = 0;
        while i < self.fields.len()
            invariant
                i <= self.fields.len(),
                forall|k: int| 0 <= k < i ==> (#[trigger] self@[k]).name != name@,
            decreases self.fields.len() - i,
        {
            if same_text(self.fields[i].name.as_str(), name) {
                assert(self@[i as int].name == name@);
                return true;
            }
            i += 1;
        }
        false
    }

    /// Adds a field at the end, unless the schema has one of that name
    /// already; the schema is then left as it was.
    pub fn add_field(&mut self, field: FieldSpec) -> (added: Result<(), SchemaError>)
        ensures
            match added {
                Ok(()) => !has_field(old(self)@, field@.name) && final(self)@ == old(self)@.push(
                    field@,
                ),
                Err(SchemaError::DuplicateField) => has_field(old(self)@, field@.name)
                    && final(self)@ == old(self)@,
            },
    {
        if self.contains(field.name.as_str()) {
            return Err(SchemaError::DuplicateField);
        }
        proof {
            use_type_invariant(&*self);
        }
        let mut fields: Vec<FieldSpec> = Vec::new();
        std::mem::swap(&mut self.fields, &mut fields);
        let ghost before = fields@;
        fields.push(field);
        proof {
            assert(field_views(fields@) =~= field_views(before).push(field@));
        }
        self.fields = fields;
        Ok(())
    }
}

spec fn raw_lookup(entries: Seq<(String, RawValue)>, key: Seq<char>) -> Option<RawView>
    decreases entries.len(),
{
    if entries.len() == 0 {
        None
    } else if entries.last().0@ == key {
        Some(entries.last().1@)
    } else {
        raw_lookup(entries.drop_last(), key)
    }
}

/// A raw, untyped key-value map, as decoded from the wire.
#[derive(Clone, Debug)]
pub struct RawArguments {
    entries: Vec<(String, RawValue)>,
}

impl View for RawArguments {
    type V = Map<Seq<char>, RawView>;

    closed spec fn view(&self) -> Map<Seq<char>, RawView> {
        Map::new(
            |k: Seq<char>| raw_lookup(self.entries@, k) is Some,
            |k: Seq<char>| raw_lookup(self.entries@, k)->0,
        )
    }
}

impl RawArguments {
    /// The empty map.
    pub fn new() -> (raw: RawArguments)
        ensures
            raw@ == Map::<Seq<char>, RawView>::empty(),
    {
        let raw = RawArguments { entries: Vec::new() };
        assert(raw@ =~= Map::<Seq<char>, RawView>::empty());
        raw
    }

    /// Sets the value of a key, replacing the one it had.
    pub fn insert(&mut self, name: String, value: RawValue)
        ensures
            final(self)@ == old(self)@.insert(name@, value@),
    {
        let ghost before = self.entries@;
        self.entries.push((name, value));
        proof {
            assert(self.entries@.drop_last() =~= before);
            assert(self@ =~= old(self)@.insert(name@, value@));
        }
    }

    /// The value of a key, if it has one.
    pub fn get(&self, name: &str) -> (found: Option<&RawValue>)
        ensures
            match found {
                Some(v) => self@.contains_key(name@) && self@[name@] == v@,
                None => !self@.contains_key(name@),
            },
    {
        let mut i: usize = self.entries.len();
        assert(self.entries@.take(i as int) =~= self.entries@);
        while i > 0
            invariant
                i <= self.entries.len(),
                raw_lookup(self.entries@, name@) == raw_lookup(self.entries@.take(i as int), name@),
            decreases i,
        {
            i -= 1;
            assert(self.entries@.take(i + 1).drop_last() =~= self.entries@.take(i as int));
            if same_text(self.entries[i].0.as_str(), name) {
                return Some(&self.entries[i].1);
            }
        }
        None
    }
}

/// What an argument map holds under a name, searching from a position on:
/// the value of the first entry of that name, and nothing where there is no
/// such entry or it holds no value.
pub open spec fn argument_from(
    args: Seq<(Seq<char>, Option<ValueView>)>,
    name: Seq<char>,
    from: int,
) -> Option<ValueView>
    decreases args.len() - from,
{
    if from < 0 || from >= args.len() {
        None
    } else if args[from].0 == name {
        args[from].1
    } else {
        argument_from(args, name, from + 1)
    }
}

/// What an argument map holds under a name.
pub open spec fn argument(args: Seq<(Seq<char>, Option<ValueView>)>, name: Seq<char>) -> Option<
    ValueView,
> {
    argument_from(args, name, 0)
}

/// The text held under a name, if a text is held there.
pub open spec fn text_argument(args: Seq<(Seq<char>, Option<ValueView>)>, name: Seq<char>) -> Option<
    Seq<char>,
> {
    match argument(args, name) {
        Some(ValueView::Text(t)) => Some(t),
        _ => None,
    }
}

/// The number held under a name, if a number is held there.
pub open spec fn unsigned_argument(
    args: Seq<(Seq<char>, Option<ValueView>)>,
    name: Seq<char>,
) -> Option<nat> {
    match argument(args, name) {
        Some(ValueView::Unsigned(n)) => Some(n),
        _ => None,
    }
}

/// The truth value held under a name, if one is held there.
pub open spec fn boolean_argument(
    args: Seq<(Seq<char>, Option<ValueView>)>,
    name: Seq<char>,
) -> Option<bool> {
    match argument(args, name) {
        Some(ValueView::Boolean(b)) => Some(b),
        _ => None,
    }
}

/// The view of an optional value.
pub open spec fn option_value(v: Option<Value>) -> Option<ValueView> {
    match v {
        Some(x) => Some(x@),
        None => None,
    }
}

/// Typed arguments: one entry for each field of the schema that they were
/// checked against, in the schema's order, with the value if there is one.
#[derive(Clone, Debug)]
pub struct Arguments {
    values: Vec<(String, Option<Value>)>,
}

impl View for Arguments {
    type V = Seq<(Seq<char>, Option<ValueView>)>;

    closed spec fn view(&self) -> Seq<(Seq<char>, Option<ValueView>)> {
        self.values@.map_values(|e: (String, Option<Value>)| (e.0@, option_value(e.1)))
    }
}

impl Arguments {
    /// How many entries there are.
    pub fn len(&self) -> (n: usize)
        ensures
            n == self@.len(),
    {
        self.values.len()
    }

    /// The value held under a name.
    pub fn get(&self, name: &str) -> (found: Option<&Value>)
        ensures
            match found {
                Some(v) => argument(self@, name@) == Some(v@),
                None => argument(self@, name@) is None,
            },
    {
        let mut i: usize = 0;
        while i < self.values.len()
            invariant
                i <= self.values.len(),
                argument(self@, name@) == argument_from(self@, name@, i as int),
            decreases self.values.len() - i,
        {
            assert(self@[i as int] == (self.values@[i as int].0@, option_value(self.values@[i as int].1)));
            if same_text(self.values[i].0.as_str(), name) {
                return match &self.values[i].1 {
                    Some(v) => Some(v),
                    None => None,
                };
            }
            i += 1;
        }
        None
    }

    /// The text held under a name.
    pub fn text(&self, name: &str) -> (found: Option<&String>)
        ensures
            match found {
                Some(t) => text_argument(self@, name@) == Some(t@),
                None => text_argument(self@, name@) is None,
            },
    {
        match self.get(name) {
            Some(Value::Text(t)) => Some(t),
            _ => None,
        }
    }

    /// The number held under a name.
    pub fn unsigned(&self, name: &str) -> (found: Option<u64>)
        ensures
            match found {
                Some(n) => unsigned_argument(self@, name@) == Some(n as nat),
                None => unsigned_argument(self@, name@) is None,
            },
    {
        match self.get(name) {
            Some(Value::Unsigned(n)) => Some(*n),
            _ => None,
        }
    }

    /// The truth value held under a name.
    pub fn boolean(&self, name: &str) -> (found: Option<bool>)
        ensures
            found == boolean_argument(self@, name@),
    {
        match self.get(name) {
            Some(Value::Boolean(b)) => Some(*b),
            _ => None,
        }
    }
}

/// The check of a raw value against a primitive type: the typed value, or
/// the reason why it is refused. Null passes no check.
pub open spec fn checked(primitive: Primitive, v: RawView) -> Result<ValueView, Reason> {
    match primitive {
        Primitive::Text => match v {
            RawView::Text(t) => Ok(ValueView::Text(t)),
            _ => Err(Reason::WrongType),
        },
        Primitive::Boolean => match v {
            RawView::Bool(b) => Ok(ValueView::Boolean(b)),
            _ => Err(Reason::WrongType),
        },
        Primitive::Unsigned { max } => match v {
            RawView::Integer(n) => if 0 <= n <= max {
                Ok(ValueView::Unsigned(n as nat))
            } else {
                Err(Reason::OutOfRange)
            },
            _ => Err(Reason::WrongType),
        },
    }
}

/// The check of a raw value that stands for a field: null is no value where
/// the field is optional and of the wrong type where it is not.
pub open spec fn checked_for(f: FieldView, v: RawView) -> Result<Option<ValueView>, Reason> {
    if v is Null {
        if f.optional {
            Ok(None)
        } else {
            Err(Reason::WrongType)
        }
    } else {
        match checked(f.primitive, v) {
            Ok(x) => Ok(Some(x)),
            Err(r) => Err(r),
        }
    }
}

/// What a raw map gives for a field. A value that is there is checked. For
/// an optional field that is left out its default is checked in its place,
/// and without a default there is no value. A required field that is left
/// out is missing.
pub open spec fn resolved(f: FieldView, raw: Map<Seq<char>, RawView>) -> Result<
    Option<ValueView>,
    Reason,
> {
    if raw.contains_key(f.name) {
        checked_for(f, raw[f.name])
    } else if f.optional {
        match f.default {
            Some(d) => checked_for(f, d),
            None => Ok(None),
        }
    } else {
        Err(Reason::Missing)
    }
}

/// The position of the first field at or after `from` that the raw map
/// does not satisfy; the number of fields where there is none.
pub open spec fn first_invalid(schema: Seq<FieldView>, raw: Map<Seq<char>, RawView>, from: int) -> int
    decreases schema.len() - from,
{
    if from < 0 || from >= schema.len() {
        schema.len() as int
    } else if resolved(schema[from], raw) is Err {
        from
    } else {
        first_invalid(schema, raw, from + 1)
    }
}

/// The entries that validation yields when every field is satisfied.
pub open spec fn resolved_all(schema: Seq<FieldView>, raw: Map<Seq<char>, RawView>) -> Seq<
    (Seq<char>, Option<ValueView>),
> {
    Seq::new(
        schema.len(),
        |i: int|
            (
                schema[i].name,
                match resolved(schema[i], raw) {
                    Ok(v) => v,
                    Err(_) => None,
                },
            ),
    )
}

/// The outcome of validation: the typed arguments, one entry per field in
/// the schema's order, or the name of the first field at fault with the
/// reason. Keys of the raw map that name no field play no part.
pub open spec fn validated(schema: Seq<FieldView>, raw: Map<Seq<char>, RawView>) -> Result<
    Seq<(Seq<char>, Option<ValueView>)>,
    (Seq<char>, Reason),
> {
    let bad = first_invalid(schema, raw, 0);
    if bad < schema.len() {
        Err((schema[bad].name, resolved(schema[bad], raw)->Err_0))
    } else {
        Ok(resolved_all(schema, raw))
    }
}

/// The message of a refusal.
pub open spec fn error_message(field: Seq<char>, reason: Reason) -> Seq<char> {
    match reason {
        Reason::Missing => "missing field: "@ + field,
        Reason::WrongType => "wrong type for field: "@ + field,
        Reason::OutOfRange => "value out of range for field: "@ + field,
    }
}

impl ValidationError {
    /// The message of the refusal: the reason and the field's name.
    pub fn message(&self) -> (text: String)
        ensures
            text@ == error_message(self.field@, self.reason),
    {
        let mut text = match self.reason {
            Reason::Missing => String::from_str("missing field: "),
            Reason::WrongType => String::from_str("wrong type for field: "),
            Reason::OutOfRange => String::from_str("value out of range for field: "),
        };
        text.append(self.field.as_str());
        text
    }
}

/// Computes [`checked`].
pub fn check_value(primitive: Primitive, v: &RawValue) -> (outcome: Result<Value, Reason>)
    ensures
        match checked(primitive, v@) {
            Ok(x) => outcome is Ok && outcome->Ok_0@ == x,
            Err(r) => outcome is Err && outcome->Err_0 == r,
        },
{
    match primitive {
        Primitive::Text => match v {
            RawValue::Text(t) => Ok(Value::Text(t.clone())),
            _ => Err(Reason::WrongType),
        },
        Primitive::Boolean => match v {
            RawValue::Bool(b) => Ok(Value::Boolean(*b)),
            _ => Err(Reason::WrongType),
        },
        Primitive::Unsigned { max } => match v {
            RawValue::Integer(n) => if 0 <= *n && *n <= max as i128 {
                Ok(Value::Unsigned(*n as u64))
            } else {
                Err(Reason::OutOfRange)
            },
            _ => Err(Reason::WrongType),
        },
    }
}

fn check_for(f: &FieldSpec, v: &RawValue) -> (outcome: Result<Option<Value>, Reason>)
    ensures
        match checked_for(f@, v@) {
            Ok(x) => outcome is Ok && option_value(outcome->Ok_0) == x,
            Err(r) => outcome is Err && outcome->Err_0 == r,
        },
{
    match v {
        RawValue::Null => if f.optional {
            Ok(None)
        } else {
            Err(Reason::WrongType)
        },
        _ => match check_value(f.primitive, v) {
            Ok(x) => Ok(Some(x)),
            Err(r) => Err(r),
        },
    }
}

/// Computes [`resolved`].
pub fn resolve_field(f: &FieldSpec, raw: &RawArguments) -> (outcome: Result<Option<Value>, Reason>)
    ensures
        match resolved(f@, raw@) {
            Ok(x) => outcome is Ok && option_value(outcome->Ok_0) == x,
            Err(r) => outcome is Err && outcome->Err_0 == r,
        },
{
    match raw.get(f.name.as_str()) {
        Some(v) => check_for(f, v),
        None => if f.optional {
            match &f.default {
                Some(d) => check_for(f, d),
                None => Ok(None),
            }
        } else {
            Err(Reason::Missing)
        },
    }
}

/// Checks a raw map against a schema.
pub fn validate(schema: &Schema, raw: &RawArguments) -> (outcome: Result<Arguments, ValidationError>)
    ensures
        match validated(schema@, raw@) {
            Ok(args) => outcome is Ok && outcome->Ok_0@ == args,
            Err((field, reason)) => outcome is Err && outcome->Err_0.field@ == field
                && outcome->Err_0.reason == reason,
        },
{
    let n = schema.len();
    let mut values: Vec<(String, Option<Value>)> = Vec::new();
    let mut i: usize = 0;
    while i < n
        invariant
            i <= n,
            n == schema@.len(),
            first_invalid(schema@, raw@, 0) == first_invalid(schema@, raw@, i as int),
            values@.len() == i,
            forall|k: int|
                0 <= k < i ==> ((#[trigger] values@[k]).0@, option_value(values@[k].1))
                    == resolved_all(schema@, raw@)[k],
        decreases n - i,
    {
        let f = schema.field(i);
        match resolve_field(f, raw) {
            Ok(v) => {
                values.push((f.name.clone(), v));
            },
            Err(reason) => {
                return Err(ValidationError { field: f.name.clone(), reason });
            },
        }
        i += 1;
    }
    let args = Arguments { values };
    assert(args@ =~= resolved_all(schema@, raw@));
    Ok(args)
}

/// A required field that the raw map leaves out makes validation fail, with
/// a field at or before it named; where every field before it is satisfied,
/// it is the one named, as missing.
pub proof fn lemma_missing_field_rejected(
    schema: Seq<FieldView>,
    raw: Map<Seq<char>, RawView>,
    i: int,
)
    requires
        0 <= i < schema.len(),
        !schema[i].optional,
        !raw.contains_key(schema[i].name),
    ensures
        validated(schema, raw) is Err,
        exists|j: int| 0 <= j <= i && validated(schema, raw)->Err_0.0 == schema[j].name,
        (forall|j: int| 0 <= j < i ==> resolved(#[trigger] schema[j], raw) is Ok) ==> validated(
            schema,
            raw,
        ) == Err::<Seq<(Seq<char>, Option<ValueView>)>, (Seq<char>, Reason)>(
            (schema[i].name, Reason::Missing),
        ),
{
    lemma_first_invalid(schema, raw, 0);
    let bad = first_invalid(schema, raw, 0);
    assert(resolved(schema[i], raw) is Err);
    assert(bad <= i);
    assert(validated(schema, raw)->Err_0.0 == schema[bad].name);
}

/// The first field at fault is at fault, and none before it is.
pub proof fn lemma_first_invalid(schema: Seq<FieldView>, raw: Map<Seq<char>, RawView>, from: int)
    requires
        0 <= from <= schema.len(),
    ensures
        from <= first_invalid(schema, raw, from) <= schema.len(),
        first_invalid(schema, raw, from) < schema.len() ==> resolved(
            schema[first_invalid(schema, raw, from)],
            raw,
        ) is Err,
        forall|k: int|
            from <= k < first_invalid(schema, raw, from) ==> resolved(#[trigger] schema[k], raw) is Ok,
    decreases schema.len() - from,
{
    if from < schema.len() && resolved(schema[from], raw) is Ok {
        lemma_first_invalid(schema, raw, from + 1);
    }
}

/// After validation against a schema with distinct field names, the typed
/// arguments hold under each field's name what the raw map gave for that
/// field; for a required field that is always a value.
pub proof fn lemma_validated_argument(
    schema: Seq<FieldView>,
    raw: Map<Seq<char>, RawView>,
    i: int,
)
    requires
        names_distinct(schema),
        0 <= i < schema.len(),
        validated(schema, raw) is Ok,
    ensures
        resolved(schema[i], raw) is Ok,
        argument(validated(schema, raw)->Ok_0, schema[i].name) == resolved(schema[i], raw)->Ok_0,
        !schema[i].optional ==> argument(validated(schema, raw)->Ok_0, schema[i].name) is Some,
{
    lemma_first_invalid(schema, raw, 0);
    lemma_argument_at(resolved_all(schema, raw), schema, i, 0);
}

proof fn lemma_argument_at(
    args: Seq<(Seq<char>, Option<ValueView>)>,
    schema: Seq<FieldView>,
    i: int,
    from: int,
)
    requires
        names_distinct(schema),
        args.len() == schema.len(),
        forall|k: int| 0 <= k < args.len() ==> (#[trigger] args[k]).0 == schema[k].name,
        0 <= from <= i < schema.len(),
    ensures
        argument_from(args, schema[i].name, from) == args[i].1,
    decreases i - from,
{
    if from < i {
        assert(args[from].0 == schema[from].name);
        lemma_argument_at(args, schema, i, from + 1);
    } else {
        assert(args[i].0 == schema[i].name);
    }
}

/// A key that names no field of the schema changes nothing: with it or
/// without it, validation gives the same.
pub proof fn lemma_extra_key_ignored(
    schema: Seq<FieldView>,
    raw: Map<Seq<char>, RawView>,
    key: Seq<char>,
    value: RawView,
)
    requires
        !has_field(schema, key),
    ensures
        validated(schema, raw.insert(key, value)) == validated(schema, raw),
{
    let more = raw.insert(key, value);
    assert forall|k: int| 0 <= k < schema.len() implies resolved(#[trigger] schema[k], more)
        == resolved(schema[k], raw) by {
        assert(schema[k].name != key);
    }
    lemma_same_first_invalid(schema, more, raw, 0);
    lemma_first_invalid(schema, raw, 0);
    let bad = first_invalid(schema, raw, 0);
    assert(first_invalid(schema, more, 0) == bad);
    if bad < schema.len() {
        assert(resolved(schema[bad], more) == resolved(schema[bad], raw));
    } else {
        assert(resolved_all(schema, more) =~= resolved_all(schema, raw));
    }
}

proof fn lemma_same_first_invalid(
    schema: Seq<FieldView>,
    a: Map<Seq<char>, RawView>,
    b: Map<Seq<char>, RawView>,
    from: int,
)
    requires
        0 <= from <= schema.len(),
        forall|k: int|
            0 <= k < schema.len() ==> resolved(#[trigger] schema[k], a) == resolved(schema[k], b),
    ensures
        first_invalid(schema, a, from) == first_invalid(schema, b, from),
    decreases schema.len() - from,
{
    if from < schema.len() {
        lemma_same_first_invalid(schema, a, b, from + 1);
    }
}

} // verus!
