//! Reading typed values out of a JSON document, with a diagnostic that says where a
//! document departs from what was expected.
//!
//! A diagnostic is a path from the root of the document, written with `.name` for a member
//! and `[index]` for an element, followed by a colon and what is wrong at that place.

use crate::interval::Interval;
use crate::json::{Float, Json};
use crate::text::{decimal, push_decimal_i64, push_decimal_u64, same_text};
use crate::time::{calendar_time, utc_calendar_time, NaiveDateTime};
use vstd::prelude::*;

verus! {

/// The diagnostic `rest`, seen from the object that holds the member `name`.
pub open spec fn at_field(name: Seq<char>, rest: Seq<char>) -> Seq<char> {
    seq!['.'] + name + rest
}

/// The diagnostic `rest`, seen from the array that holds the element `index`.
pub open spec fn at_index(index: int, rest: Seq<char>) -> Seq<char> {
    seq!['['] + decimal(index) + seq![']'] + rest
}

/// Whether the outcome `r` of a decoder is the outcome `model` that its description gives.
pub open spec fn agrees<T: DeepView>(r: Result<T, String>, model: Result<T::V, Seq<char>>) -> bool {
    match r {
        Ok(value) => model == Ok::<T::V, Seq<char>>(value.deep_view()),
        Err(diagnostic) => model == Err::<T::V, Seq<char>>(diagnostic@),
    }
}

/// The value of the first member called `name`.
pub open spec fn lookup(entries: Seq<(String, Json)>, name: Seq<char>) -> Option<Json>
    decreases entries.len(),
{
    if entries.len() == 0 {
        None
    } else if entries[0].0@ == name {
        Some(entries[0].1)
    } else {
        lookup(entries.drop_first(), name)
    }
}

/// A member with another name, wherever it stands in front, does not change what is found.
pub proof fn lemma_lookup_passes_over(entries: Seq<(String, Json)>, other: (String, Json), name: Seq<char>)
    requires
        other.0@ != name,
    ensures
        lookup(seq![other] + entries, name) == lookup(entries, name),
{
    assert((seq![other] + entries).drop_first() =~= entries);
}

/// What a required member holds: it has to be there and to decode.
pub open spec fn required_of<T>(
    entries: Seq<(String, Json)>,
    name: Seq<char>,
    model: spec_fn(Json) -> Result<T, Seq<char>>,
) -> Result<T, Seq<char>> {
    match lookup(entries, name) {
        None => Err(at_field(name, ": missing"@)),
        Some(json) => match model(json) {
            Ok(value) => Ok(value),
            Err(rest) => Err(at_field(name, rest)),
        },
    }
}

/// What a value that may be null holds: nothing where it is null; else it has to decode.
pub open spec fn nullable_of<T>(json: Json, model: spec_fn(Json) -> Result<T, Seq<char>>) -> Result<
    Option<T>,
    Seq<char>,
> {
    match json {
        Json::Null => Ok(None),
        _ => match model(json) {
            Ok(value) => Ok(Some(value)),
            Err(diagnostic) => Err(diagnostic),
        },
    }
}

/// What a member that may be missing holds: nothing where it is missing; else it has to decode.
pub open spec fn defaulted_of<T>(
    entries: Seq<(String, Json)>,
    name: Seq<char>,
    model: spec_fn(Json) -> Result<Option<T>, Seq<char>>,
) -> Result<Option<T>, Seq<char>> {
    match lookup(entries, name) {
        None => Ok(None),
        Some(json) => match model(json) {
            Ok(value) => Ok(value),
            Err(rest) => Err(at_field(name, rest)),
        },
    }
}

/// What an optional member holds: nothing where it is missing or null; else it has to decode.
pub open spec fn optional_of<T>(
    entries: Seq<(String, Json)>,
    name: Seq<char>,
    model: spec_fn(Json) -> Result<T, Seq<char>>,
) -> Result<Option<T>, Seq<char>> {
    defaulted_of(entries, name, |json: Json| nullable_of(json, model))
}

/// What the first `count` elements hold: each has to decode, and the first that does not
/// gives the diagnostic.
pub open spec fn elements_upto<T>(
    items: Seq<Json>,
    model: spec_fn(Json) -> Result<T, Seq<char>>,
    count: nat,
) -> Result<Seq<T>, Seq<char>>
    decreases count,
{
    if count == 0 {
        Ok(Seq::empty())
    } else {
        match elements_upto(items, model, (count - 1) as nat) {
            Err(diagnostic) => Err(diagnostic),
            Ok(values) => match model(items[count - 1]) {
                Ok(value) => Ok(values.push(value)),
                Err(rest) => Err(at_index(count - 1, rest)),
            },
        }
    }
}

/// What an array holds, element by element.
pub open spec fn elements_of<T>(json: Json, model: spec_fn(Json) -> Result<T, Seq<char>>) -> Result<
    Seq<T>,
    Seq<char>,
> {
    match json {
        Json::Array(items) => elements_upto(items@, model, items@.len()),
        _ => Err(": expected an array"@),
    }
}

/// An integer that fits in 64 bits. A number with a fraction or an exponent is none.
pub open spec fn integer_of(json: Json) -> Result<i64, Seq<char>> {
    match json {
        Json::Number(number) if number.integer is Some => Ok(number.integer->0),
        _ => Err(": expected an integer"@),
    }
}

/// A number, as the nearest binary64 value.
pub open spec fn float_of(json: Json) -> Result<Float, Seq<char>> {
    match json {
        Json::Number(number) => Ok(number.float),
        _ => Err(": expected a number"@),
    }
}

/// A sample of a series: null where there was no trade.
pub open spec fn sample_of(json: Json) -> Result<Option<Float>, Seq<char>> {
    match json {
        Json::Null => Ok(None),
        Json::Number(number) => Ok(Some(number.float)),
        _ => Err(": expected a number or null"@),
    }
}

/// A boolean.
pub open spec fn bool_of(json: Json) -> Result<bool, Seq<char>> {
    match json {
        Json::Bool(value) => Ok(value),
        _ => Err(": expected a boolean"@),
    }
}

/// A string.
pub open spec fn string_of(json: Json) -> Result<Seq<char>, Seq<char>> {
    match json {
        Json::String(value) => Ok(value@),
        _ => Err(": expected a string"@),
    }
}

/// A range, given as its token.
pub open spec fn interval_of(json: Json) -> Result<Interval, Seq<char>> {
    match json {
        Json::String(token) => match Interval::parse_spec(token@) {
            Some(interval) => Ok(interval),
            None => Err(": unknown interval '"@ + token@ + "'"@),
        },
        _ => Err(": expected a string"@),
    }
}

/// A calendar time, given as epoch seconds, or nothing, given as null.
pub open spec fn opt_timestamp_of(json: Json) -> Result<Option<NaiveDateTime>, Seq<char>> {
    nullable_of(json, |value: Json| timestamp_of(value))
}

/// The calendar times of an array of epoch seconds, in its order.
pub open spec fn vector_timestamp_of(json: Json) -> Result<Seq<NaiveDateTime>, Seq<char>> {
    elements_of(json, |value: Json| timestamp_of(value))
}

/// The calendar times of an array of epoch seconds, or nothing, given as null.
pub open spec fn opt_vector_timestamp_of(json: Json) -> Result<Option<Seq<NaiveDateTime>>, Seq<char>> {
    nullable_of(json, |value: Json| vector_timestamp_of(value))
}

/// A calendar time, given as epoch seconds.
pub open spec fn timestamp_of(json: Json) -> Result<NaiveDateTime, Seq<char>> {
    match integer_of(json) {
        Err(diagnostic) => Err(diagnostic),
        Ok(seconds) => match utc_calendar_time(seconds as int) {
            Some(time) => Ok(time),
            None => Err(": invalid timestamp '"@ + decimal(seconds as int) + "'"@),
        },
    }
}

/// Puts the member `name` in front of a diagnostic.
pub fn in_field(name: &str, rest: String) -> (r: String)
    ensures
        r@ == at_field(name@, rest@),
{
    let mut out = String::new();
    out.push('.');
    out.append(name);
    out.append(rest.as_str());
    proof {
        assert(out@ =~= at_field(name@, rest@));
    }
    out
}

/// Puts the element `index` in front of a diagnostic.
pub fn in_index(index: usize, rest: String) -> (r: String)
    ensures
        r@ == at_index(index as int, rest@),
{
    let mut out = String::new();
    out.push('[');
    push_decimal_u64(&mut out, index as u64);
    out.push(']');
    out.append(rest.as_str());
    proof {
        assert(out@ =~= at_index(index as int, rest@));
    }
    out
}

/// Finds the first member called `name`.
pub fn find<'a>(entries: &'a Vec<(String, Json)>, name: &str) -> (r: Option<&'a Json>)
    ensures
        match r {
            Some(json) => lookup(entries@, name@) == Some(*json),
            None => lookup(entries@, name@) is None,
        },
{
    let mut i: usize = 0;
    assert(entries@.skip(0) =~= entries@);
    while i < entries.len()
        invariant
            i <= entries@.len(),
            lookup(entries@, name@) == lookup(entries@.skip(i as int), name@),
        decreases entries@.len() - i,
    {
        let ghost rest = entries@.skip(i as int);
        assert(rest[0] == entries@[i as int]);
        assert(rest.drop_first() =~= entries@.skip(i + 1));
        if same_text(entries[i].0.as_str(), name) {
            return Some(&entries[i].1);
        }
        i += 1;
    }
    assert(entries@.skip(i as int).len() == 0);
    None
}

/// Decodes a member that has to be there.
pub(crate) fn required<T: DeepView, F: Fn(&Json) -> Result<T, String>>(
    entries: &Vec<(String, Json)>,
    name: &str,
    decode: F,
    Ghost(model): Ghost<spec_fn(Json) -> Result<T::V, Seq<char>>>,
) -> (r: Result<T, String>)
    requires
        forall|json: &Json| #[trigger] call_requires(decode, (json,)),
        forall|json: &Json, out: Result<T, String>| #[trigger]
            call_ensures(decode, (json,), out) ==> agrees(out, model(*json)),
    ensures
        agrees(r, required_of(entries@, name@, model)),
{
    match find(entries, name) {
        None => Err(in_field(name, String::from_str(": missing"))),
        Some(json) => match decode(json) {
            Ok(value) => Ok(value),
            Err(rest) => Err(in_field(name, rest)),
        },
    }
}

/// Decodes a value that may be null.
pub(crate) fn nullable<T: DeepView, F: Fn(&Json) -> Result<T, String>>(
    json: &Json,
    decode: F,
    Ghost(model): Ghost<spec_fn(Json) -> Result<T::V, Seq<char>>>,
) -> (r: Result<Option<T>, String>)
    requires
        forall|json: &Json| #[trigger] call_requires(decode, (json,)),
        forall|json: &Json, out: Result<T, String>| #[trigger]
            call_ensures(decode, (json,), out) ==> agrees(out, model(*json)),
    ensures
        agrees(r, nullable_of(*json, model)),
{
    match json {
        Json::Null => Ok(None),
        _ => match decode(json) {
            Ok(value) => Ok(Some(value)),
            Err(diagnostic) => Err(diagnostic),
        },
    }
}

/// Decodes a member that may be missing.
pub(crate) fn defaulted<T: DeepView, F: Fn(&Json) -> Result<Option<T>, String>>(
    entries: &Vec<(String, Json)>,
    name: &str,
    decode: F,
    Ghost(model): Ghost<spec_fn(Json) -> Result<Option<T::V>, Seq<char>>>,
) -> (r: Result<Option<T>, String>)
    requires
        forall|json: &Json| #[trigger] call_requires(decode, (json,)),
        forall|json: &Json, out: Result<Option<T>, String>| #[trigger]
            call_ensures(decode, (json,), out) ==> agrees(out, model(*json)),
    ensures
        agrees(r, defaulted_of(entries@, name@, model)),
{
    match find(entries, name) {
        None => Ok(None),
        Some(json) => match decode(json) {
            Ok(value) => Ok(value),
            Err(rest) => Err(in_field(name, rest)),
        },
    }
}

/// Decodes a member that may be missing or null.
pub(crate) fn optional<T: DeepView, F: Fn(&Json) -> Result<T, String>>(
    entries: &Vec<(String, Json)>,
    name: &str,
    decode: F,
    Ghost(model): Ghost<spec_fn(Json) -> Result<T::V, Seq<char>>>,
) -> (r: Result<Option<T>, String>)
    requires
        forall|json: &Json| #[trigger] call_requires(decode, (json,)),
        forall|json: &Json, out: Result<T, String>| #[trigger]
            call_ensures(decode, (json,), out) ==> agrees(out, model(*json)),
    ensures
        agrees(r, optional_of(entries@, name@, model)),
{
    match find(entries, name) {
        None => Ok(None),
        Some(Json::Null) => Ok(None),
        Some(json) => match decode(json) {
            Ok(value) => Ok(Some(value)),
            Err(rest) => Err(in_field(name, rest)),
        },
    }
}

/// Decodes the elements of an array, in their order.
pub(crate) fn elements<T: DeepView, F: Fn(&Json) -> Result<T, String>>(
    json: &Json,
    decode: F,
    Ghost(model): Ghost<spec_fn(Json) -> Result<T::V, Seq<char>>>,
) -> (r: Result<Vec<T>, String>)
    requires
        forall|json: &Json| #[trigger] call_requires(decode, (json,)),
        forall|json: &Json, out: Result<T, String>| #[trigger]
            call_ensures(decode, (json,), out) ==> agrees(out, model(*json)),
    ensures
        agrees(r, elements_of(*json, model)),
{
    match json {
        Json::Array(items) => {
            let mut values: Vec<T> = Vec::new();
            let mut i: usize = 0;
            assert(values.deep_view() =~= Seq::<T::V>::empty());
            while i < items.len()
                invariant
                    i <= items@.len(),
                    *json == Json::Array(*items),
                    forall|json: &Json| #[trigger] call_requires(decode, (json,)),
                    forall|json: &Json, out: Result<T, String>| #[trigger]
                        call_ensures(decode, (json,), out) ==> agrees(out, model(*json)),
                    elements_upto(items@, model, i as nat) == Ok::<Seq<T::V>, Seq<char>>(
                        values.deep_view(),
                    ),
                decreases items@.len() - i,
            {
                let ghost before = values.deep_view();
                let decoded = decode(&items[i]);
                assert(agrees(decoded, model(items@[i as int])));
                match decoded {
                    Ok(value) => {
                        values.push(value);
                        proof {
                            assert(values.deep_view() =~= before.push(value.deep_view()));
                        }
                    },
                    Err(rest) => {
                        proof {
                            assert(elements_upto(items@, model, (i + 1) as nat) == Err::<
                                Seq<T::V>,
                                Seq<char>,
                            >(at_index(i as int, rest@)));
                            lemma_elements_fail(items@, model, (i + 1) as nat, items@.len());
                        }
                        return Err(in_index(i, rest));
                    },
                }
                i += 1;
            }
            Ok(values)
        },
        _ => Err(String::from_str(": expected an array")),
    }
}

/// The elements of an array decode together exactly when each of them decodes; what comes
/// out then has one value for each element, at its place.
pub proof fn lemma_elements_pointwise<T>(
    items: Seq<Json>,
    model: spec_fn(Json) -> Result<T, Seq<char>>,
    count: nat,
)
    requires
        count <= items.len(),
    ensures
        elements_upto(items, model, count) is Ok <==> forall|i: int|
            0 <= i < count ==> (#[trigger] model(items[i])) is Ok,
        elements_upto(items, model, count) matches Ok(values) ==> values.len() == count && forall|
            i: int,
        |
            0 <= i < count ==> model(items[i]) == Ok::<T, Seq<char>>(#[trigger] values[i]),
    decreases count,
{
    if count > 0 {
        lemma_elements_pointwise(items, model, (count - 1) as nat);
        if elements_upto(items, model, (count - 1) as nat) is Err {
            let i = choose|i: int| 0 <= i < count - 1 && !((#[trigger] model(items[i])) is Ok);
            assert(!(model(items[i]) is Ok));
        }
    }
}

/// Once an element has not decoded, the elements after it change nothing.
pub proof fn lemma_elements_fail<T>(
    items: Seq<Json>,
    model: spec_fn(Json) -> Result<T, Seq<char>>,
    failed: nat,
    count: nat,
)
    requires
        failed <= count,
        elements_upto(items, model, failed) is Err,
    ensures
        elements_upto(items, model, count) == elements_upto(items, model, failed),
    decreases count,
{
    if failed < count {
        lemma_elements_fail(items, model, failed, (count - 1) as nat);
    }
}

/// Decodes what [`integer_of`] describes.
pub fn decode_integer(json: &Json) -> (r: Result<i64, String>)
    ensures
        agrees(r, integer_of(*json)),
{
    match json {
        Json::Number(number) => match number.integer {
            Some(value) => Ok(value),
            None => Err(String::from_str(": expected an integer")),
        },
        _ => Err(String::from_str(": expected an integer")),
    }
}

/// Decodes what [`float_of`] describes.
pub fn decode_float(json: &Json) -> (r: Result<Float, String>)
    ensures
        agrees(r, float_of(*json)),
{
    match json {
        Json::Number(number) => Ok(number.float),
        _ => Err(String::from_str(": expected a number")),
    }
}

/// Decodes what [`sample_of`] describes.
pub fn decode_sample(json: &Json) -> (r: Result<Option<Float>, String>)
    ensures
        agrees(r, sample_of(*json)),
{
    match json {
        Json::Null => Ok(None),
        Json::Number(number) => Ok(Some(number.float)),
        _ => Err(String::from_str(": expected a number or null")),
    }
}

/// Decodes what [`bool_of`] describes.
pub fn decode_bool(json: &Json) -> (r: Result<bool, String>)
    ensures
        agrees(r, bool_of(*json)),
{
    match json {
        Json::Bool(value) => Ok(*value),
        _ => Err(String::from_str(": expected a boolean")),
    }
}

/// Decodes what [`string_of`] describes.
pub fn decode_string(json: &Json) -> (r: Result<String, String>)
    ensures
        agrees(r, string_of(*json)),
{
    match json {
        Json::String(value) => Ok(value.clone()),
        _ => Err(String::from_str(": expected a string")),
    }
}

/// Decodes what [`interval_of`] describes.
pub fn decode_interval(json: &Json) -> (r: Result<Interval, String>)
    ensures
        agrees(r, interval_of(*json)),
{
    match json {
        Json::String(token) => match Interval::parse(token.as_str()) {
            Ok(interval) => Ok(interval),
            Err(refused) => {
                let mut out = String::from_str(": unknown interval '");
                out.append(refused.input.as_str());
                out.append("'");
                Err(out)
            },
        },
        _ => Err(String::from_str(": expected a string")),
    }
}

/// Decodes a calendar time that is given as epoch seconds.
pub fn from_timestamp(json: &Json) -> (r: Result<NaiveDateTime, String>)
    ensures
        agrees(r, timestamp_of(*json)),
{
    match decode_integer(json) {
        Err(diagnostic) => Err(diagnostic),
        Ok(seconds) => match calendar_time(seconds) {
            Some(time) => Ok(time),
            None => {
                let mut out = String::from_str(": invalid timestamp '");
                push_decimal_i64(&mut out, seconds);
                out.append("'");
                Err(out)
            },
        },
    }
}

/// Decodes a calendar time that is given as epoch seconds, where there is one: null is
/// no time.
pub fn from_opt_timestamp(json: &Json) -> (r: Result<Option<NaiveDateTime>, String>)
    ensures
        agrees(r, opt_timestamp_of(*json)),
{
    nullable(json, from_timestamp, Ghost(|value: Json| timestamp_of(value)))
}

/// Decodes an array of epoch seconds into calendar times, in its order. One element that
/// is no time fails the whole array.
pub fn from_vector_timestamp(json: &Json) -> (r: Result<Vec<NaiveDateTime>, String>)
    ensures
        agrees(r, vector_timestamp_of(*json)),
{
    elements(json, from_timestamp, Ghost(|value: Json| timestamp_of(value)))
}

/// Decodes an array of epoch seconds, where there is one: null is no array.
pub fn from_opt_vector_timestamp(json: &Json) -> (r: Result<Option<Vec<NaiveDateTime>>, String>)
    ensures
        agrees(r, opt_vector_timestamp_of(*json)),
{
    nullable(json, from_vector_timestamp, Ghost(|value: Json| vector_timestamp_of(value)))
}

} // verus!
