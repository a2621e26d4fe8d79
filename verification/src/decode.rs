//! From a script's return value to a typed record.
//!
//! Decoding has two steps. Observation asks the interpreter what the value is
//! and what it holds under each expected field name, and writes the answers
//! down as plain data, each lookup with the field that it was made for.
//! Decoding proper is a function of that data alone: it yields the record, or
//! the first error in field order.
//!
//! Every shape of record is decoded by one algorithm over its list of fields:
//! [`read_table`] looks the fields up and [`read_fields`] reads the lookups.
use vstd::prelude::*;
use crate::number::Number;
use crate::lua::{inspect, integer_as_number, lookup, error_text, seen, table_within, converted};
use vstd::pervasive::unreached;

verus! {

/// The kinds of value that Lua has.
#[derive(Clone, Copy, Debug, PartialEq, Eq, Structural)]
pub enum Kind {
    Nil,
    Boolean,
    LightUserData,
    Integer,
    Number,
    Text,
    Table,
    Function,
    Thread,
    UserData,
    Error,
    Other,
}

/// A Lua value as decoding sees it: its kind and, for the kinds that
/// decoding reads, what it holds.
#[derive(Debug)]
pub enum Dynamic {
    Nil,
    Boolean,
    LightUserData,
    /// A number of the integer subtype.
    Integer(i64),
    /// A number of the float subtype.
    Number(Number),
    Text,
    /// A table, by its handle in the interpreter.
    Table(mlua::Table),
    Function,
    Thread,
    UserData,
    Error,
    Other,
}

/// The shapes of record that a script may return.
#[derive(Clone, Copy, Debug, PartialEq, Eq, Structural)]
pub enum Shape {
    /// `{result, operations, max_value}`, decoded to a [`BenchmarkResult`].
    Full,
    /// `{result}`, decoded to a [`SimpleResult`].
    Simple,
}

/// A field that a record is expected to hold.
#[derive(Clone, Copy, Debug, PartialEq, Eq, Structural)]
pub enum Field {
    Result,
    Operations,
    MaxValue,
}

/// The host type that a field is converted to.
#[derive(Clone, Copy, Debug, PartialEq, Eq, Structural)]
pub enum Target {
    /// A 64-bit number.
    Number,
    /// An unsigned 32-bit integer.
    Unsigned,
}

/// What a lookup of one field gave.
#[derive(Debug, PartialEq, Eq)]
pub enum Fetched {
    /// The lookup itself raised an error; the text describes it.
    Failed(String),
    /// No value is stored under the name.
    Absent,
    /// A Lua number. `integer` is set when it has the integer subtype;
    /// `number` is its value as a number either way, for an integer as Lua
    /// itself converts it.
    Numeric { integer: Option<i64>, number: Number },
    /// A value of a kind that is not a number.
    Other(Kind),
}

/// What observation found of a script's return value, for a shape whose
/// lookups are held in `L`.
#[derive(Debug, PartialEq, Eq)]
pub enum Observed<L> {
    /// The value is no table but of this kind.
    NotRecord(Kind),
    /// The value is a table, with these lookups of the shape's fields.
    Record(L),
}

/// A field of a shape and the type that it is to be read as.
#[derive(Clone, Copy, Debug, PartialEq, Eq, Structural)]
pub struct FieldSpec {
    pub field: Field,
    pub target: Target,
}

/// A lookup together with the field that it was made for.
#[derive(Debug, PartialEq, Eq)]
pub struct Lookup {
    pub field: Field,
    pub fetched: Fetched,
}

/// A lookup together with the type that it is to be read as.
#[derive(Debug, PartialEq, Eq)]
pub struct Slot {
    pub lookup: Lookup,
    pub target: Target,
}

/// What a lookup reads as.
#[derive(Clone, Copy, Debug, PartialEq, Eq, Structural)]
pub enum Reading {
    Number(Number),
    Unsigned(u32),
}

/// The lookups of the full shape, `{result, operations, max_value}`.
#[derive(Debug, PartialEq, Eq)]
pub struct FullLookups {
    pub result: Lookup,
    pub operations: Lookup,
    pub max_value: Lookup,
}

/// The lookup of the simple shape, `{result}`.
#[derive(Debug, PartialEq, Eq)]
pub struct SimpleLookups {
    pub result: Lookup,
}

/// Why a field could not be read.
#[derive(Debug, PartialEq, Eq)]
pub enum Cause {
    /// No value is stored under the name.
    Absent,
    /// The value stored there is of a kind that is not a number.
    NotNumeric(Kind),
    /// The lookup raised an error; the text describes it.
    Raised(String),
}

/// Why decoding failed.
#[derive(Debug, PartialEq, Eq)]
pub enum DecodeError {
    /// The value is no table. `actual` is the kind of value it is, `expected`
    /// the shape of record that was to be decoded.
    ShapeMismatch { actual: Kind, expected: Shape },
    /// A field is missing, is not a number, or could not be looked up.
    FieldAccess { field: Field, cause: Cause },
    /// A field holds a number that the target type cannot hold without loss.
    TypeCoercion { field: Field, target: Target },
}

/// The decoded return value of a benchmark script.
#[derive(Clone, Copy, Debug, PartialEq, Eq, Structural)]
pub struct BenchmarkResult {
    /// The accumulated sum.
    pub result: Number,
    /// How many operations the script counted.
    pub operations: u32,
    /// The largest combined value the script saw.
    pub max_value: Number,
}

/// The decoded return value of a script that reports only its sum.
#[derive(Clone, Copy, Debug, PartialEq, Eq, Structural)]
pub struct SimpleResult {
    /// The accumulated sum.
    pub result: Number,
}

impl Kind {
    /// Lua's name for the kind.
    pub open spec fn spec_name(self) -> Seq<char> {
        match self {
            Kind::Nil => "nil"@,
            Kind::Boolean => "boolean"@,
            Kind::LightUserData => "lightuserdata"@,
            Kind::Integer => "integer"@,
            Kind::Number => "number"@,
            Kind::Text => "string"@,
            Kind::Table => "table"@,
            Kind::Function => "function"@,
            Kind::Thread => "thread"@,
            Kind::UserData => "userdata"@,
            Kind::Error => "error"@,
            Kind::Other => "other"@,
        }
    }

    /// Lua's name for the kind.
    pub fn name(self) -> (r: &'static str)
        ensures
            r@ == self.spec_name(),
    {
        match self {
            Kind::Nil => "nil",
            Kind::Boolean => "boolean",
            Kind::LightUserData => "lightuserdata",
            Kind::Integer => "integer",
            Kind::Number => "number",
            Kind::Text => "string",
            Kind::Table => "table",
            Kind::Function => "function",
            Kind::Thread => "thread",
            Kind::UserData => "userdata",
            Kind::Error => "error",
            Kind::Other => "other",
        }
    }
}

impl Shape {
    /// The name of the record type that the shape is decoded to.
    pub open spec fn spec_name(self) -> Seq<char> {
        match self {
            Shape::Full => "BenchmarkResult"@,
            Shape::Simple => "SimpleResult"@,
        }
    }

    /// The name of the record type that the shape is decoded to.
    pub fn name(self) -> (r: &'static str)
        ensures
            r@ == self.spec_name(),
    {
        match self {
            Shape::Full => "BenchmarkResult",
            Shape::Simple => "SimpleResult",
        }
    }
}

impl Shape {
    /// The fields of the shape, in the order in which they are read.
    pub open spec fn spec_fields(self) -> Seq<FieldSpec> {
        match self {
            Shape::Full => seq![
                FieldSpec { field: Field::Result, target: Target::Number },
                FieldSpec { field: Field::Operations, target: Target::Unsigned },
                FieldSpec { field: Field::MaxValue, target: Target::Number },
            ],
            Shape::Simple => seq![FieldSpec { field: Field::Result, target: Target::Number }],
        }
    }

    /// The fields of the shape, in the order in which they are read.
    pub fn fields(self) -> (r: Vec<FieldSpec>)
        ensures
            r@ == self.spec_fields(),
    {
        let mut fields: Vec<FieldSpec> = Vec::new();
        fields.push(FieldSpec { field: Field::Result, target: Target::Number });
        match self {
            Shape::Full => {
                fields.push(FieldSpec { field: Field::Operations, target: Target::Unsigned });
                fields.push(FieldSpec { field: Field::MaxValue, target: Target::Number });
            },
            Shape::Simple => {},
        }
        assert(fields@ =~= self.spec_fields());
        fields
    }
}

impl FullLookups {
    /// Each lookup was made for the field whose place it holds.
    pub open spec fn in_place(self) -> bool {
        &&& self.result.field == Field::Result
        &&& self.operations.field == Field::Operations
        &&& self.max_value.field == Field::MaxValue
    }

    /// Every lookup records some outcome of looking a field up.
    pub open spec fn all_recorded(self) -> bool {
        &&& is_recorded(self.result.fetched)
        &&& is_recorded(self.operations.fetched)
        &&& is_recorded(self.max_value.fetched)
    }

    /// Three lookups, each in the place of the field it was made for.
    pub open spec fn placed(result: Fetched, operations: Fetched, max_value: Fetched) -> FullLookups {
        FullLookups {
            result: Lookup { field: Field::Result, fetched: result },
            operations: Lookup { field: Field::Operations, fetched: operations },
            max_value: Lookup { field: Field::MaxValue, fetched: max_value },
        }
    }

    /// Puts three lookups in their places.
    pub fn new(result: Fetched, operations: Fetched, max_value: Fetched) -> (r: FullLookups)
        ensures
            r == Self::placed(result, operations, max_value),
    {
        FullLookups {
            result: Lookup { field: Field::Result, fetched: result },
            operations: Lookup { field: Field::Operations, fetched: operations },
            max_value: Lookup { field: Field::MaxValue, fetched: max_value },
        }
    }
}

impl SimpleLookups {
    /// The lookup was made for `result`.
    pub open spec fn in_place(self) -> bool {
        self.result.field == Field::Result
    }

    /// The lookup records some outcome of looking a field up.
    pub open spec fn all_recorded(self) -> bool {
        is_recorded(self.result.fetched)
    }

    /// The lookup in the place of `result`.
    pub open spec fn placed(result: Fetched) -> SimpleLookups {
        SimpleLookups { result: Lookup { field: Field::Result, fetched: result } }
    }

    /// Puts the lookup in its place.
    pub fn new(result: Fetched) -> (r: SimpleLookups)
        ensures
            r == Self::placed(result),
    {
        SimpleLookups { result: Lookup { field: Field::Result, fetched: result } }
    }
}

impl Dynamic {
    /// A table lives in the interpreter `lua`; any other value lives in
    /// none and passes.
    pub open spec fn within(self, lua: mlua::Lua) -> bool {
        match self {
            Dynamic::Table(table) => table_within(table, lua),
            _ => true,
        }
    }

    /// The kind of the value.
    pub open spec fn spec_kind(self) -> Kind {
        match self {
            Dynamic::Nil => Kind::Nil,
            Dynamic::Boolean => Kind::Boolean,
            Dynamic::LightUserData => Kind::LightUserData,
            Dynamic::Integer(_) => Kind::Integer,
            Dynamic::Number(_) => Kind::Number,
            Dynamic::Text => Kind::Text,
            Dynamic::Table(_) => Kind::Table,
            Dynamic::Function => Kind::Function,
            Dynamic::Thread => Kind::Thread,
            Dynamic::UserData => Kind::UserData,
            Dynamic::Error => Kind::Error,
            Dynamic::Other => Kind::Other,
        }
    }

    /// The kind of the value.
    pub fn kind(&self) -> (r: Kind)
        ensures
            r == self.spec_kind(),
    {
        match self {
            Dynamic::Nil => Kind::Nil,
            Dynamic::Boolean => Kind::Boolean,
            Dynamic::LightUserData => Kind::LightUserData,
            Dynamic::Integer(_) => Kind::Integer,
            Dynamic::Number(_) => Kind::Number,
            Dynamic::Text => Kind::Text,
            Dynamic::Table(_) => Kind::Table,
            Dynamic::Function => Kind::Function,
            Dynamic::Thread => Kind::Thread,
            Dynamic::UserData => Kind::UserData,
            Dynamic::Error => Kind::Error,
            Dynamic::Other => Kind::Other,
        }
    }
}

impl Field {
    /// The key under which the field is stored in the script's table.
    pub open spec fn spec_name(self) -> Seq<char> {
        match self {
            Field::Result => "result"@,
            Field::Operations => "operations"@,
            Field::MaxValue => "max_value"@,
        }
    }

    /// The key under which the field is stored in the script's table.
    pub fn name(self) -> (r: &'static str)
        ensures
            r@ == self.spec_name(),
    {
        match self {
            Field::Result => "result",
            Field::Operations => "operations",
            Field::MaxValue => "max_value",
        }
    }
}

/// The error for a lookup that gave no number, if it gave none.
pub open spec fn access_error(field: Field, fetched: Fetched) -> Option<DecodeError> {
    match fetched {
        Fetched::Failed(text) => Some(
            DecodeError::FieldAccess { field, cause: Cause::Raised(text) },
        ),
        Fetched::Absent => Some(DecodeError::FieldAccess { field, cause: Cause::Absent }),
        Fetched::Other(kind) => Some(
            DecodeError::FieldAccess { field, cause: Cause::NotNumeric(kind) },
        ),
        Fetched::Numeric { .. } => None,
    }
}

/// A lookup read as a number: a Lua float passes as it is, a Lua integer when
/// the number it was converted to is exactly that integer.
pub open spec fn number_of_fetched(field: Field, fetched: Fetched) -> Result<Number, DecodeError> {
    match fetched {
        Fetched::Numeric { integer: Some(i), number } => if number.denotes(i as int) {
            Ok(number)
        } else {
            Err(DecodeError::TypeCoercion { field, target: Target::Number })
        },
        Fetched::Numeric { integer: None, number } => Ok(number),
        _ => Err(access_error(field, fetched).unwrap()),
    }
}

/// A lookup read as an unsigned 32-bit integer: a Lua integer passes when it
/// lies in `0 ..= u32::MAX`, a Lua float when it is exactly such an integer.
pub open spec fn unsigned_of_fetched(field: Field, fetched: Fetched) -> Result<u32, DecodeError> {
    match fetched {
        Fetched::Numeric { integer: Some(i), number } => if 0 <= i <= u32::MAX {
            Ok(i as u32)
        } else {
            Err(DecodeError::TypeCoercion { field, target: Target::Unsigned })
        },
        Fetched::Numeric { integer: None, number } => match number.unsigned_value() {
            Some(n) => Ok(n),
            None => Err(DecodeError::TypeCoercion { field, target: Target::Unsigned }),
        },
        _ => Err(access_error(field, fetched).unwrap()),
    }
}

/// Reads a lookup as a number.
pub fn number_field(field: Field, fetched: Fetched) -> (r: Result<Number, DecodeError>)
    ensures
        r == number_of_fetched(field, fetched),
{
    match fetched {
        Fetched::Numeric { integer: Some(i), number } => {
            let whole = number.as_integer();
            if whole == Some(i) {
                Ok(number)
            } else {
                Err(DecodeError::TypeCoercion { field, target: Target::Number })
            }
        },
        Fetched::Numeric { integer: None, number } => Ok(number),
        Fetched::Failed(text) => Err(DecodeError::FieldAccess { field, cause: Cause::Raised(text) }),
        Fetched::Absent => Err(DecodeError::FieldAccess { field, cause: Cause::Absent }),
        Fetched::Other(kind) => Err(
            DecodeError::FieldAccess { field, cause: Cause::NotNumeric(kind) },
        ),
    }
}

/// Reads a lookup as an unsigned 32-bit integer.
pub fn unsigned_field(field: Field, fetched: Fetched) -> (r: Result<u32, DecodeError>)
    ensures
        r == unsigned_of_fetched(field, fetched),
{
    match fetched {
        Fetched::Numeric { integer: Some(i), number } => {
            if 0 <= i && i <= 0xffff_ffff {
                Ok(i as u32)
            } else {
                Err(DecodeError::TypeCoercion { field, target: Target::Unsigned })
            }
        },
        Fetched::Numeric { integer: None, number } => match number.as_unsigned() {
            Some(n) => Ok(n),
            None => Err(DecodeError::TypeCoercion { field, target: Target::Unsigned }),
        },
        Fetched::Failed(text) => Err(DecodeError::FieldAccess { field, cause: Cause::Raised(text) }),
        Fetched::Absent => Err(DecodeError::FieldAccess { field, cause: Cause::Absent }),
        Fetched::Other(kind) => Err(
            DecodeError::FieldAccess { field, cause: Cause::NotNumeric(kind) },
        ),
    }
}

/// A copy of a lookup's outcome.
fn copy_of(fetched: &Fetched) -> (r: Fetched)
    ensures
        r == *fetched,
{
    match fetched {
        Fetched::Failed(text) => Fetched::Failed(text.clone()),
        Fetched::Absent => Fetched::Absent,
        Fetched::Numeric { integer, number } => Fetched::Numeric {
            integer: *integer,
            number: *number,
        },
        Fetched::Other(kind) => Fetched::Other(*kind),
    }
}

/// What a slot reads as: its lookup read as its target, under the name of
/// the field that the lookup was made for.
pub open spec fn reading_of(slot: Slot) -> Result<Reading, DecodeError> {
    match slot.target {
        Target::Number => match number_of_fetched(slot.lookup.field, slot.lookup.fetched) {
            Ok(n) => Ok(Reading::Number(n)),
            Err(e) => Err(e),
        },
        Target::Unsigned => match unsigned_of_fetched(slot.lookup.field, slot.lookup.fetched) {
            Ok(n) => Ok(Reading::Unsigned(n)),
            Err(e) => Err(e),
        },
    }
}

/// Slot `k` is the first that does not read, and `error` is why.
pub open spec fn first_failure(slots: Seq<Slot>, k: int, error: DecodeError) -> bool {
    &&& 0 <= k < slots.len()
    &&& reading_of(slots[k]) == Err::<Reading, DecodeError>(error)
    &&& forall|j: int| 0 <= j < k ==> reading_of(#[trigger] slots[j]) is Ok
}

/// The outcome is what reading the slots in order gives: every reading in
/// the order of the slots when every slot reads, else the error of the first
/// slot that does not.
pub open spec fn reads_as(slots: Seq<Slot>, outcome: Result<Seq<Reading>, DecodeError>) -> bool {
    match outcome {
        Ok(readings) => readings.len() == slots.len() && forall|i: int|
            0 <= i < slots.len() ==> reading_of(#[trigger] slots[i]) == Ok::<Reading, DecodeError>(
                readings[i],
            ),
        Err(error) => exists|k: int| first_failure(slots, k, error),
    }
}

/// The outcome of an executable reader, with the readings as a sequence.
pub open spec fn outcome_of(r: Result<Vec<Reading>, DecodeError>) -> Result<
    Seq<Reading>,
    DecodeError,
> {
    match r {
        Ok(readings) => Ok(readings@),
        Err(error) => Err(error),
    }
}

/// The slots hold lookups made for the fields of the list, one for each and
/// in its order, each the record of some outcome and each to be read as the
/// list says.
pub open spec fn made_for(slots: Seq<Slot>, fields: Seq<FieldSpec>) -> bool {
    &&& slots.len() == fields.len()
    &&& forall|i: int|
        0 <= i < fields.len() ==> (#[trigger] slots[i]).lookup.field == fields[i].field
            && slots[i].target == fields[i].target && is_recorded(slots[i].lookup.fetched)
}

/// Reads one slot.
pub fn read_slot(slot: &Slot) -> (r: Result<Reading, DecodeError>)
    ensures
        r == reading_of(*slot),
{
    match slot.target {
        Target::Number => match number_field(slot.lookup.field, copy_of(&slot.lookup.fetched)) {
            Ok(n) => Ok(Reading::Number(n)),
            Err(e) => Err(e),
        },
        Target::Unsigned => match unsigned_field(slot.lookup.field, copy_of(&slot.lookup.fetched)) {
            Ok(n) => Ok(Reading::Unsigned(n)),
            Err(e) => Err(e),
        },
    }
}

/// Reads a list of slots in order: every record shape is decoded by this.
///
/// When every slot reads, the readings come back in the order of the slots.
/// Otherwise the error is that of the first slot that does not read.
pub fn read_fields(slots: &Vec<Slot>) -> (r: Result<Vec<Reading>, DecodeError>)
    ensures
        reads_as(slots@, outcome_of(r)),
{
    let mut readings: Vec<Reading> = Vec::new();
    let mut i: usize = 0;
    while i < slots.len()
        invariant
            i <= slots@.len(),
            readings@.len() == i,
            forall|j: int|
                0 <= j < i ==> reading_of(#[trigger] slots@[j]) == Ok::<Reading, DecodeError>(
                    readings@[j],
                ),
        decreases slots@.len() - i,
    {
        match read_slot(&slots[i]) {
            Ok(reading) => {
                readings.push(reading);
            },
            Err(error) => {
                assert(first_failure(slots@, i as int, error));
                return Err(error);
            },
        }
        i = i + 1;
    }
    Ok(readings)
}

/// Looks up and reads the fields of a list in a table: the one algorithm by
/// which every shape of record is decoded.
///
/// Each field of the list is looked up in the table under its name, and the
/// lookups are read in the order of the list as [`read_fields`] reads them.
/// What the lookups give is the interpreter's to say, so the contract is
/// that the outcome is the reading of lookups made for the fields of the
/// list. The table must live in `lua`.
pub fn read_table(table: &mlua::Table, fields: &Vec<FieldSpec>, lua: &mlua::Lua) -> (r: Result<
    Vec<Reading>,
    DecodeError,
>)
    requires
        table_within(*table, *lua),
    ensures
        exists|slots: Seq<Slot>| made_for(slots, fields@) && reads_as(slots, outcome_of(r)),
{
    let mut slots: Vec<Slot> = Vec::new();
    let mut i: usize = 0;
    while i < fields.len()
        invariant
            i <= fields@.len(),
            slots@.len() == i,
            table_within(*table, *lua),
            forall|j: int|
                0 <= j < i ==> (#[trigger] slots@[j]).lookup.field == fields@[j].field
                    && slots@[j].target == fields@[j].target && is_recorded(
                    slots@[j].lookup.fetched,
                ),
        decreases fields@.len() - i,
    {
        let lookup = fetch(table, fields[i].field, lua);
        slots.push(Slot { lookup, target: fields[i].target });
        i = i + 1;
    }
    let r = read_fields(&slots);
    assert(made_for(slots@, fields@) && reads_as(slots@, outcome_of(r)));
    r
}

/// The number that a reading holds.
fn number_in(reading: Reading) -> (n: Number)
    requires
        reading is Number,
    ensures
        reading == Reading::Number(n),
{
    match reading {
        Reading::Number(n) => n,
        Reading::Unsigned(_) => unreached(),
    }
}

/// The unsigned integer that a reading holds.
fn unsigned_in(reading: Reading) -> (n: u32)
    requires
        reading is Unsigned,
    ensures
        reading == Reading::Unsigned(n),
{
    match reading {
        Reading::Unsigned(n) => n,
        Reading::Number(_) => unreached(),
    }
}

impl BenchmarkResult {
    /// The record or error that an observation decodes to.
    ///
    /// A value that is no table is a shape mismatch. Of a table the fields are
    /// read in the order `result`, `operations`, `max_value`; the first that
    /// fails gives the error, under the name of the field that its lookup was
    /// made for, and only when all three pass is there a record.
    pub open spec fn decoded(observed: Observed<FullLookups>) -> Result<
        BenchmarkResult,
        DecodeError,
    > {
        match observed {
            Observed::NotRecord(actual) => Err(
                DecodeError::ShapeMismatch { actual, expected: Shape::Full },
            ),
            Observed::Record(lookups) => match (
                number_of_fetched(lookups.result.field, lookups.result.fetched),
                unsigned_of_fetched(lookups.operations.field, lookups.operations.fetched),
                number_of_fetched(lookups.max_value.field, lookups.max_value.fetched),
            ) {
                (Err(e), _, _) => Err(e),
                (Ok(_), Err(e), _) => Err(e),
                (Ok(_), Ok(_), Err(e)) => Err(e),
                (Ok(r), Ok(o), Ok(m)) => Ok(
                    BenchmarkResult { result: r, operations: o, max_value: m },
                ),
            },
        }
    }

    /// Decodes an observation.
    pub fn decode(observed: Observed<FullLookups>) -> (r: Result<BenchmarkResult, DecodeError>)
        ensures
            r == Self::decoded(observed),
    {
        match observed {
            Observed::NotRecord(actual) => Err(
                DecodeError::ShapeMismatch { actual, expected: Shape::Full },
            ),
            Observed::Record(lookups) => {
                let FullLookups { result, operations, max_value } = lookups;
                let mut slots: Vec<Slot> = Vec::new();
                slots.push(Slot { lookup: result, target: Target::Number });
                slots.push(Slot { lookup: operations, target: Target::Unsigned });
                slots.push(Slot { lookup: max_value, target: Target::Number });
                assert(slots@[0] == Slot { lookup: result, target: Target::Number });
                assert(slots@[1] == Slot { lookup: operations, target: Target::Unsigned });
                assert(slots@[2] == Slot { lookup: max_value, target: Target::Number });
                let read = read_fields(&slots);
                proof {
                    Self::lemma_readings_decode(slots@, outcome_of(read));
                }
                Self::assemble(read)
            },
        }
    }

    /// The lookups of three slots, in their places.
    pub open spec fn lookups_of(slots: Seq<Slot>) -> FullLookups {
        FullLookups {
            result: slots[0].lookup,
            operations: slots[1].lookup,
            max_value: slots[2].lookup,
        }
    }

    /// The record that three readings make, or the error passed on.
    pub open spec fn assembled(outcome: Result<Seq<Reading>, DecodeError>) -> Result<
        BenchmarkResult,
        DecodeError,
    > {
        match outcome {
            Ok(readings) => Ok(
                BenchmarkResult {
                    result: readings[0]->Number_0,
                    operations: readings[1]->Unsigned_0,
                    max_value: readings[2]->Number_0,
                },
            ),
            Err(error) => Err(error),
        }
    }

    /// Reading the three slots of the full shape in order and assembling the
    /// readings is decoding their lookups.
    pub proof fn lemma_readings_decode(slots: Seq<Slot>, outcome: Result<Seq<Reading>, DecodeError>)
        requires
            slots.len() == 3,
            slots[0].target == Target::Number,
            slots[1].target == Target::Unsigned,
            slots[2].target == Target::Number,
            reads_as(slots, outcome),
        ensures
            outcome matches Ok(readings) ==> readings.len() == 3 && readings[0] is Number
                && readings[1] is Unsigned && readings[2] is Number,
            Self::assembled(outcome) == Self::decoded(Observed::Record(Self::lookups_of(slots))),
    {
        match outcome {
            Ok(readings) => {
                assert(reading_of(slots[0]) == Ok::<Reading, DecodeError>(readings[0]));
                assert(reading_of(slots[1]) == Ok::<Reading, DecodeError>(readings[1]));
                assert(reading_of(slots[2]) == Ok::<Reading, DecodeError>(readings[2]));
            },
            Err(error) => {
                let k = choose|k: int| first_failure(slots, k, error);
                assert(first_failure(slots, k, error));
                if k >= 1 {
                    assert(reading_of(slots[0]) is Ok);
                }
                if k == 2 {
                    assert(reading_of(slots[1]) is Ok);
                }
            },
        }
    }

    /// Makes the record of three readings, or passes the error on.
    fn assemble(read: Result<Vec<Reading>, DecodeError>) -> (r: Result<BenchmarkResult, DecodeError>)
        requires
            read matches Ok(readings) ==> readings@.len() == 3 && readings@[0] is Number
                && readings@[1] is Unsigned && readings@[2] is Number,
        ensures
            r == Self::assembled(outcome_of(read)),
    {
        match read {
            Ok(readings) => Ok(
                BenchmarkResult {
                    result: number_in(readings[0]),
                    operations: unsigned_in(readings[1]),
                    max_value: number_in(readings[2]),
                },
            ),
            Err(error) => Err(error),
        }
    }

    /// Decodes a value of known kind.
    ///
    /// A value that is no table is a shape mismatch that names its kind, and
    /// nothing is looked up in it. A table has its three fields looked up in
    /// `lua`, the interpreter that it must live in. What the lookups give is
    /// the interpreter's to say, so of a table the contract is that the
    /// outcome is the decoding of three lookups, each made for the field of
    /// its place and each the record of some outcome.
    pub fn from_dynamic(value: Dynamic, lua: &mlua::Lua) -> (r: Result<
        BenchmarkResult,
        DecodeError,
    >)
        requires
            value.within(*lua),
        ensures
            !(value is Table) ==> r == Err::<BenchmarkResult, DecodeError>(
                DecodeError::ShapeMismatch { actual: value.spec_kind(), expected: Shape::Full },
            ),
            value is Table ==> exists|lookups: FullLookups|
                lookups.in_place() && lookups.all_recorded() && r == Self::decoded(
                    Observed::Record(lookups),
                ),
    {
        match value {
            Dynamic::Table(table) => {
                let fields = Shape::Full.fields();
                let read = read_table(&table, &fields, lua);
                proof {
                    let slots = choose|slots: Seq<Slot>|
                        made_for(slots, fields@) && reads_as(slots, outcome_of(read));
                    Self::lemma_readings_decode(slots, outcome_of(read));
                    let lookups = Self::lookups_of(slots);
                    assert(lookups.in_place() && lookups.all_recorded());
                    assert(Self::assembled(outcome_of(read)) == Self::decoded(
                        Observed::Record(lookups),
                    ));
                }
                Self::assemble(read)
            },
            other => Self::decode(Observed::NotRecord(other.kind())),
        }
    }

    /// Decodes a value that a script returned in `lua`.
    ///
    /// A value that is no table is a shape mismatch that names its kind; a
    /// table is decoded by three lookups, as [`BenchmarkResult::from_dynamic`]
    /// says. A table must live in `lua`.
    pub fn from_lua(value: mlua::Value, lua: &mlua::Lua) -> (r: Result<BenchmarkResult, DecodeError>)
        requires
            seen(value).within(*lua),
        ensures
            !(seen(value) is Table) ==> r == Err::<BenchmarkResult, DecodeError>(
                DecodeError::ShapeMismatch {
                    actual: seen(value).spec_kind(),
                    expected: Shape::Full,
                },
            ),
            seen(value) is Table ==> exists|lookups: FullLookups|
                lookups.in_place() && lookups.all_recorded() && r == Self::decoded(
                    Observed::Record(lookups),
                ),
    {
        Self::from_dynamic(inspect(value), lua)
    }
}

impl SimpleResult {
    /// The record or error that an observation decodes to: a shape mismatch
    /// for a value that is no table, else what the `result` field reads as.
    pub open spec fn decoded(observed: Observed<SimpleLookups>) -> Result<
        SimpleResult,
        DecodeError,
    > {
        match observed {
            Observed::NotRecord(actual) => Err(
                DecodeError::ShapeMismatch { actual, expected: Shape::Simple },
            ),
            Observed::Record(lookups) => match number_of_fetched(
                lookups.result.field,
                lookups.result.fetched,
            ) {
                Err(e) => Err(e),
                Ok(r) => Ok(SimpleResult { result: r }),
            },
        }
    }

    /// Decodes an observation.
    pub fn decode(observed: Observed<SimpleLookups>) -> (r: Result<SimpleResult, DecodeError>)
        ensures
            r == Self::decoded(observed),
    {
        match observed {
            Observed::NotRecord(actual) => Err(
                DecodeError::ShapeMismatch { actual, expected: Shape::Simple },
            ),
            Observed::Record(lookups) => {
                let SimpleLookups { result } = lookups;
                let mut slots: Vec<Slot> = Vec::new();
                slots.push(Slot { lookup: result, target: Target::Number });
                assert(slots@[0] == Slot { lookup: result, target: Target::Number });
                let read = read_fields(&slots);
                proof {
                    Self::lemma_reading_decodes(slots@, outcome_of(read));
                }
                Self::assemble(read)
            },
        }
    }

    /// The lookup of one slot, in its place.
    pub open spec fn lookups_of(slots: Seq<Slot>) -> SimpleLookups {
        SimpleLookups { result: slots[0].lookup }
    }

    /// The record that one reading makes, or the error passed on.
    pub open spec fn assembled(outcome: Result<Seq<Reading>, DecodeError>) -> Result<
        SimpleResult,
        DecodeError,
    > {
        match outcome {
            Ok(readings) => Ok(SimpleResult { result: readings[0]->Number_0 }),
            Err(error) => Err(error),
        }
    }

    /// Reading the one slot of the simple shape and assembling the reading is
    /// decoding its lookup.
    pub proof fn lemma_reading_decodes(slots: Seq<Slot>, outcome: Result<Seq<Reading>, DecodeError>)
        requires
            slots.len() == 1,
            slots[0].target == Target::Number,
            reads_as(slots, outcome),
        ensures
            outcome matches Ok(readings) ==> readings.len() == 1 && readings[0] is Number,
            Self::assembled(outcome) == Self::decoded(Observed::Record(Self::lookups_of(slots))),
    {
        match outcome {
            Ok(readings) => {
                assert(reading_of(slots[0]) == Ok::<Reading, DecodeError>(readings[0]));
            },
            Err(error) => {
                let k = choose|k: int| first_failure(slots, k, error);
                assert(first_failure(slots, k, error));
            },
        }
    }

    /// Makes the record of one reading, or passes the error on.
    fn assemble(read: Result<Vec<Reading>, DecodeError>) -> (r: Result<SimpleResult, DecodeError>)
        requires
            read matches Ok(readings) ==> readings@.len() == 1 && readings@[0] is Number,
        ensures
            r == Self::assembled(outcome_of(read)),
    {
        match read {
            Ok(readings) => Ok(SimpleResult { result: number_in(readings[0]) }),
            Err(error) => Err(error),
        }
    }

    /// Decodes a value of known kind: a shape mismatch for a value that is no
    /// table, the decoding of some lookup made for `result` in one that is.
    /// A table must live in `lua`.
    pub fn from_dynamic(value: Dynamic, lua: &mlua::Lua) -> (r: Result<SimpleResult, DecodeError>)
        requires
            value.within(*lua),
        ensures
            !(value is Table) ==> r == Err::<SimpleResult, DecodeError>(
                DecodeError::ShapeMismatch { actual: value.spec_kind(), expected: Shape::Simple },
            ),
            value is Table ==> exists|lookups: SimpleLookups|
                lookups.in_place() && lookups.all_recorded() && r == Self::decoded(
                    Observed::Record(lookups),
                ),
    {
        match value {
            Dynamic::Table(table) => {
                let fields = Shape::Simple.fields();
                let read = read_table(&table, &fields, lua);
                proof {
                    let slots = choose|slots: Seq<Slot>|
                        made_for(slots, fields@) && reads_as(slots, outcome_of(read));
                    Self::lemma_reading_decodes(slots, outcome_of(read));
                    let lookups = Self::lookups_of(slots);
                    assert(lookups.in_place() && lookups.all_recorded());
                    assert(Self::assembled(outcome_of(read)) == Self::decoded(
                        Observed::Record(lookups),
                    ));
                }
                Self::assemble(read)
            },
            other => Self::decode(Observed::NotRecord(other.kind())),
        }
    }

    /// Decodes a value that a script returned in `lua`, as
    /// [`SimpleResult::from_dynamic`] decodes what the value is.
    pub fn from_lua(value: mlua::Value, lua: &mlua::Lua) -> (r: Result<SimpleResult, DecodeError>)
        requires
            seen(value).within(*lua),
        ensures
            !(seen(value) is Table) ==> r == Err::<SimpleResult, DecodeError>(
                DecodeError::ShapeMismatch {
                    actual: seen(value).spec_kind(),
                    expected: Shape::Simple,
                },
            ),
            seen(value) is Table ==> exists|lookups: SimpleLookups|
                lookups.in_place() && lookups.all_recorded() && r == Self::decoded(
                    Observed::Record(lookups),
                ),
    {
        Self::from_dynamic(inspect(value), lua)
    }
}

/// How converting an integer to a number went.
pub enum Conversion {
    /// Lua gave the number.
    Done,
    /// Lua gave no number.
    Declined,
    /// The conversion raised an error; the text describes it.
    Raised(String),
}

/// What a lookup that gave `value` is recorded as. Nil is an absent field, a
/// float is recorded with its value, an integer with the number that Lua
/// converts it to, anything else by its kind. `conversion` tells how
/// converting went, where the value is an integer: an error there is recorded
/// as a failed lookup.
pub open spec fn fetched_of(value: Dynamic, conversion: Conversion) -> Fetched {
    match value {
        Dynamic::Nil => Fetched::Absent,
        Dynamic::Number(n) => Fetched::Numeric { integer: None, number: n },
        Dynamic::Integer(i) => match conversion {
            Conversion::Done => Fetched::Numeric {
                integer: Some(i),
                number: Number { bits: converted(i) },
            },
            Conversion::Declined => Fetched::Other(Kind::Integer),
            Conversion::Raised(text) => Fetched::Failed(text),
        },
        _ => Fetched::Other(value.spec_kind()),
    }
}

/// What a lookup is recorded as: one that raised an error by the error's
/// text, one that gave a value by what that value is classified as.
pub open spec fn recorded(outcome: Result<Dynamic, String>, conversion: Conversion) -> Fetched {
    match outcome {
        Ok(value) => fetched_of(value, conversion),
        Err(text) => Fetched::Failed(text),
    }
}

/// The value records some outcome of looking a field up.
pub open spec fn is_recorded(fetched: Fetched) -> bool {
    exists|outcome: Result<Dynamic, String>, conversion: Conversion|
        fetched == recorded(outcome, conversion)
}

/// Classifies a value that a lookup gave.
fn classify(value: Dynamic, lua: &mlua::Lua) -> (r: Fetched)
    ensures
        exists|conversion: Conversion| r == fetched_of(value, conversion),
{
    match value {
        Dynamic::Nil => {
            assert(Fetched::Absent == fetched_of(value, Conversion::Done));
            Fetched::Absent
        },
        Dynamic::Integer(i) => match integer_as_number(lua, i) {
            Ok(Some(bits)) => {
                let r = Fetched::Numeric { integer: Some(i), number: Number { bits } };
                assert(r == fetched_of(value, Conversion::Done));
                r
            },
            Ok(None) => {
                assert(Fetched::Other(Kind::Integer) == fetched_of(value, Conversion::Declined));
                Fetched::Other(Kind::Integer)
            },
            Err(error) => {
                let text = error_text(&error);
                assert(Fetched::Failed(text) == fetched_of(value, Conversion::Raised(text)));
                Fetched::Failed(text)
            },
        },
        Dynamic::Number(n) => {
            assert(Fetched::Numeric { integer: None, number: n } == fetched_of(
                value,
                Conversion::Done,
            ));
            Fetched::Numeric { integer: None, number: n }
        },
        other => {
            let r = Fetched::Other(other.kind());
            assert(r == fetched_of(value, Conversion::Done));
            r
        },
    }
}

/// Looks one field up in a table and records the outcome under the field:
/// the text of the error if the lookup raised one, else the classification
/// of the value it gave. What the lookup gives is the interpreter's to say,
/// so the contract is that the result records some outcome.
fn fetch(table: &mlua::Table, field: Field, lua: &mlua::Lua) -> (r: Lookup)
    requires
        table_within(*table, *lua),
    ensures
        r.field == field,
        is_recorded(r.fetched),
{
    match lookup(table, field.name(), lua) {
        Ok(value) => {
            let value = inspect(value);
            let ghost seen_value = value;
            let fetched = classify(value, lua);
            proof {
                let conversion = choose|conversion: Conversion|
                    fetched == fetched_of(seen_value, conversion);
                assert(fetched == recorded(Ok(seen_value), conversion));
            }
            Lookup { field, fetched }
        },
        Err(error) => {
            let text = error_text(&error);
            let fetched = Fetched::Failed(text);
            assert(fetched == recorded(Err(text), Conversion::Done));
            Lookup { field, fetched }
        },
    }
}

/// A value that is no table decodes to a shape mismatch that names its kind
/// and the shape that was expected, never to a field-access error; a table
/// never decodes to a shape mismatch. This holds of both shapes.
pub proof fn shape_mismatch_only_without_record(kind: Kind, full: FullLookups, simple: SimpleLookups)
    ensures
        BenchmarkResult::decoded(Observed::NotRecord(kind)) == Err::<BenchmarkResult, DecodeError>(
            DecodeError::ShapeMismatch { actual: kind, expected: Shape::Full },
        ),
        SimpleResult::decoded(Observed::NotRecord(kind)) == Err::<SimpleResult, DecodeError>(
            DecodeError::ShapeMismatch { actual: kind, expected: Shape::Simple },
        ),
        !(BenchmarkResult::decoded(Observed::Record(full)) matches Err(
            DecodeError::ShapeMismatch { .. },
        )),
        !(SimpleResult::decoded(Observed::Record(simple)) matches Err(
            DecodeError::ShapeMismatch { .. },
        )),
{
}

/// Decoding is all or nothing: there is a record exactly when the value is a
/// table and each of its three fields reads, and the record then holds what
/// the three fields read as.
pub proof fn record_needs_every_field(result: Fetched, operations: Fetched, max_value: Fetched)
    ensures
        BenchmarkResult::decoded(
            Observed::Record(FullLookups::placed(result, operations, max_value)),
        ) is Ok <==> (number_of_fetched(Field::Result, result) is Ok && unsigned_of_fetched(
            Field::Operations,
            operations,
        ) is Ok && number_of_fetched(Field::MaxValue, max_value) is Ok),
        BenchmarkResult::decoded(
            Observed::Record(FullLookups::placed(result, operations, max_value)),
        ) matches Ok(record) ==> Ok::<Number, DecodeError>(record.result) == number_of_fetched(
            Field::Result,
            result,
        ) && Ok::<u32, DecodeError>(record.operations) == unsigned_of_fetched(
            Field::Operations,
            operations,
        ) && Ok::<Number, DecodeError>(record.max_value) == number_of_fetched(
            Field::MaxValue,
            max_value,
        ),
{
}

/// An error is that of the first field, in the order `result`, `operations`,
/// `max_value`, that does not read.
pub proof fn error_is_of_first_failing_field(
    result: Fetched,
    operations: Fetched,
    max_value: Fetched,
)
    ensures
        number_of_fetched(Field::Result, result) matches Err(e) ==> BenchmarkResult::decoded(
            Observed::Record(FullLookups::placed(result, operations, max_value)),
        ) == Err::<BenchmarkResult, DecodeError>(e),
        number_of_fetched(Field::Result, result) is Ok ==> (unsigned_of_fetched(
            Field::Operations,
            operations,
        ) matches Err(e) ==> BenchmarkResult::decoded(
            Observed::Record(FullLookups::placed(result, operations, max_value)),
        ) == Err::<BenchmarkResult, DecodeError>(e)),
        number_of_fetched(Field::Result, result) is Ok && unsigned_of_fetched(
            Field::Operations,
            operations,
        ) is Ok ==> (number_of_fetched(Field::MaxValue, max_value) matches Err(e)
            ==> BenchmarkResult::decoded(
            Observed::Record(FullLookups::placed(result, operations, max_value)),
        ) == Err::<BenchmarkResult, DecodeError>(e)),
{
}

/// A field reader fails with an error that names the field it was given:
/// a field-access error when the lookup gave no number, a type-coercion
/// error when it gave a number that the target cannot hold.
pub proof fn field_error_names_its_field(field: Field, fetched: Fetched)
    ensures
        match number_of_fetched(field, fetched) {
            Ok(_) => fetched is Numeric,
            Err(DecodeError::FieldAccess { field: named, .. }) => named == field && !(fetched
                is Numeric),
            Err(DecodeError::TypeCoercion { field: named, target }) => named == field && target
                == Target::Number && fetched is Numeric,
            Err(_) => false,
        },
        match unsigned_of_fetched(field, fetched) {
            Ok(_) => fetched is Numeric,
            Err(DecodeError::FieldAccess { field: named, .. }) => named == field && !(fetched
                is Numeric),
            Err(DecodeError::TypeCoercion { field: named, target }) => named == field && target
                == Target::Unsigned && fetched is Numeric,
            Err(_) => false,
        },
{
}

/// What the field readers make of a number can be read off its bits: a
/// float reads as unsigned exactly when its bits give an unsigned value, and
/// an integer reads as a number exactly when the bits of its converted form
/// give that integer back.
pub proof fn readings_follow_the_bits(field: Field, integer: i64, number: Number)
    ensures
        unsigned_of_fetched(field, Fetched::Numeric { integer: None, number })
            == match number.unsigned_by_bits() {
            Some(n) => Ok::<u32, DecodeError>(n),
            None => Err::<u32, DecodeError>(
                DecodeError::TypeCoercion { field, target: Target::Unsigned },
            ),
        },
        number_of_fetched(field, Fetched::Numeric { integer: Some(integer), number })
            == if number.integer_by_bits() == Some(integer) {
            Ok::<Number, DecodeError>(number)
        } else {
            Err::<Number, DecodeError>(DecodeError::TypeCoercion { field, target: Target::Number })
        },
{
    number.lemma_unsigned_by_bits_is_exact();
    number.lemma_integer_by_bits_is_exact();
}

/// A count that the script kept as an integer decodes to that integer
/// exactly, whatever it is in `0 ..= u32::MAX`, and a float field decodes to
/// the number that was looked up, bit for bit.
pub proof fn counts_and_floats_decode_exactly(
    result: Number,
    count: u32,
    count_as_number: Number,
    max_value: Number,
)
    ensures
        BenchmarkResult::decoded(
            Observed::Record(
                FullLookups::placed(
                    Fetched::Numeric { integer: None, number: result },
                    Fetched::Numeric { integer: Some(count as i64), number: count_as_number },
                    Fetched::Numeric { integer: None, number: max_value },
                ),
            ),
        ) == Ok::<BenchmarkResult, DecodeError>(
            BenchmarkResult { result, operations: count, max_value },
        ),
{
}

/// A table whose `result` reads and whose `operations` is absent decodes to a
/// field-access error that names `operations`.
pub proof fn missing_operations_is_field_access(result: Fetched, max_value: Fetched)
    requires
        number_of_fetched(Field::Result, result) is Ok,
    ensures
        BenchmarkResult::decoded(
            Observed::Record(FullLookups::placed(result, Fetched::Absent, max_value)),
        ) == Err::<BenchmarkResult, DecodeError>(
            DecodeError::FieldAccess { field: Field::Operations, cause: Cause::Absent },
        ),
{
}

/// A table whose `result` reads and whose `operations` is a number that is
/// negative or has a fractional part decodes to a type-coercion error that
/// names `operations` and the unsigned target.
pub proof fn lossy_operations_is_type_coercion(
    result: Fetched,
    integer: Option<i64>,
    number: Number,
    max_value: Fetched,
)
    requires
        number_of_fetched(Field::Result, result) is Ok,
        match integer {
            Some(i) => i < 0,
            None => !number.is_zero() && (number.negative() || number.has_fraction()),
        },
    ensures
        BenchmarkResult::decoded(
            Observed::Record(
                FullLookups::placed(result, Fetched::Numeric { integer, number }, max_value),
            ),
        ) == Err::<BenchmarkResult, DecodeError>(
            DecodeError::TypeCoercion { field: Field::Operations, target: Target::Unsigned },
        ),
{
    if integer is None {
        number.lemma_lossy_is_no_unsigned_integer();
    }
}

} // verus!
