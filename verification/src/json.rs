//! Looking things up in a JSON value.

use vstd::prelude::*;

verus! {

/// What stands in a JSON value at a JSON pointer, if anything does. The empty
/// pointer leads to the value itself.
pub uninterp spec fn pointed(value: serde_json::Value, pointer: Seq<char>) -> Option<
    serde_json::Value,
>;

/// The text of a JSON value, where it is a string.
pub uninterp spec fn string_in(value: serde_json::Value) -> Option<Seq<char>>;

/// The elements that decoding a JSON value as a list gives, where it is an
/// array.
pub uninterp spec fn list_in(value: serde_json::Value) -> Option<Seq<serde_json::Value>>;

/// The elements of a JSON value, where it is an array.
pub uninterp spec fn array_in(value: serde_json::Value) -> Option<Seq<serde_json::Value>>;

/// `serde_json::Value::pointer`: a copy of the value that the JSON pointer
/// addresses, or `None` if there is no such value. The contract only gives
/// the result its name.
#[verifier::external_body]
fn pointer(value: &serde_json::Value, ptr: &str) -> (found: Option<serde_json::Value>)
    ensures
        found == pointed(*value, ptr@),
{
    value.pointer(ptr).cloned()
}

/// `serde_json::from_value::<String>`: the text of the value, or `None` where
/// the value is no string. The contract only gives the result its name.
#[verifier::external_body]
fn decode_string(value: serde_json::Value) -> (text: Option<String>)
    ensures
        match text {
            Some(t) => string_in(value) == Some(t@),
            None => string_in(value) is None,
        },
{
    serde_json::from_value::<String>(value).ok()
}

/// `serde_json::from_value::<Vec<serde_json::Value>>`: the elements of the
/// value, or `None` where the value is no array. The contract only gives the
/// result its name.
#[verifier::external_body]
fn decode_list(value: serde_json::Value) -> (list: Option<Vec<serde_json::Value>>)
    ensures
        match list {
            Some(l) => list_in(value) == Some(l@),
            None => list_in(value) is None,
        },
{
    serde_json::from_value::<Vec<serde_json::Value>>(value).ok()
}

/// `serde_json::Value::as_array_mut`, with the elements taken out of the
/// vector that it gives: the elements of the value, or `None` where the value
/// is no array. The contract only gives the result its name.
#[verifier::external_body]
pub(crate) fn array_items(value: serde_json::Value) -> (items: Option<Vec<serde_json::Value>>)
    ensures
        match items {
            Some(i) => array_in(value) == Some(i@),
            None => array_in(value) is None,
        },
{
    let mut value = value;
    value.as_array_mut().map(std::mem::take)
}

/// Why a lookup gave nothing.
#[derive(Debug, Clone, Copy, PartialEq, Eq)]
pub enum LookupError {
    /// The pointer leads nowhere.
    Missing,
    /// What stands there is of another kind than was asked for.
    Mismatch,
}

/// The text that stands in `value` at `ptr`.
pub open spec fn text_at(value: serde_json::Value, ptr: Seq<char>) -> Result<
    Seq<char>,
    LookupError,
> {
    match pointed(value, ptr) {
        None => Err(LookupError::Missing),
        Some(found) => match string_in(found) {
            None => Err(LookupError::Mismatch),
            Some(text) => Ok(text),
        },
    }
}

/// The list that stands in `value` at `ptr`.
pub open spec fn list_at(value: serde_json::Value, ptr: Seq<char>) -> Result<
    Seq<serde_json::Value>,
    LookupError,
> {
    match pointed(value, ptr) {
        None => Err(LookupError::Missing),
        Some(found) => match list_in(found) {
            None => Err(LookupError::Mismatch),
            Some(list) => Ok(list),
        },
    }
}

/// The texts that stand at `ptr` in each value of `list`, in order; the error
/// of the first value that has none.
pub open spec fn texts_of(list: Seq<serde_json::Value>, ptr: Seq<char>) -> Result<
    Seq<Seq<char>>,
    LookupError,
>
    decreases list.len(),
{
    if list.len() == 0 {
        Ok(seq![])
    } else {
        match texts_of(list.drop_last(), ptr) {
            Err(e) => Err(e),
            Ok(before) => match text_at(list.last(), ptr) {
                Err(e) => Err(e),
                Ok(text) => Ok(before.push(text)),
            },
        }
    }
}

/// The texts that stand at `sub_ptr` in each value of the list that stands in
/// `value` at `ptr`.
pub open spec fn texts_at(value: serde_json::Value, ptr: Seq<char>, sub_ptr: Seq<char>) -> Result<
    Seq<Seq<char>>,
    LookupError,
> {
    match list_at(value, ptr) {
        Err(e) => Err(e),
        Ok(list) => texts_of(list, sub_ptr),
    }
}

/// The views of the texts in `texts`.
pub open spec fn text_views(texts: Seq<String>) -> Seq<Seq<char>> {
    texts.map_values(|t: String| t@)
}

/// The text in `found`, which a lookup gave.
pub fn text_in(found: Option<serde_json::Value>) -> (r: Result<String, LookupError>)
    ensures
        match r {
            Ok(text) => found matches Some(v) && string_in(v) == Some(text@),
            Err(LookupError::Missing) => found is None,
            Err(LookupError::Mismatch) => found matches Some(v) && string_in(v) is None,
        },
{
    match found {
        None => Err(LookupError::Missing),
        Some(value) => match decode_string(value) {
            None => Err(LookupError::Mismatch),
            Some(text) => Ok(text),
        },
    }
}

/// The list in `found`, which a lookup gave.
pub fn list_of(found: Option<serde_json::Value>) -> (r: Result<Vec<serde_json::Value>, LookupError>)
    ensures
        match r {
            Ok(list) => found matches Some(v) && list_in(v) == Some(list@),
            Err(LookupError::Missing) => found is None,
            Err(LookupError::Mismatch) => found matches Some(v) && list_in(v) is None,
        },
{
    match found {
        None => Err(LookupError::Missing),
        Some(value) => match decode_list(value) {
            None => Err(LookupError::Mismatch),
            Some(list) => Ok(list),
        },
    }
}

/// Looks up the text that stands in `value` at `ptr`.
pub fn lookup_text(value: &serde_json::Value, ptr: &str) -> (r: Result<String, LookupError>)
    ensures
        match r {
            Ok(text) => text_at(*value, ptr@) == Ok::<Seq<char>, LookupError>(text@),
            Err(e) => text_at(*value, ptr@) == Err::<Seq<char>, LookupError>(e),
        },
{
    text_in(pointer(value, ptr))
}

/// Looks up the list that stands in `value` at `ptr`.
pub fn lookup_list(value: &serde_json::Value, ptr: &str) -> (r: Result<
    Vec<serde_json::Value>,
    LookupError,
>)
    ensures
        match r {
            Ok(list) => list_at(*value, ptr@) == Ok::<Seq<serde_json::Value>, LookupError>(list@),
            Err(e) => list_at(*value, ptr@) == Err::<Seq<serde_json::Value>, LookupError>(e),
        },
{
    list_of(pointer(value, ptr))
}

/// Looks up the text that stands at `ptr` in each value of `list`.
pub fn lookup_each(list: &Vec<serde_json::Value>, ptr: &str) -> (r: Result<
    Vec<String>,
    LookupError,
>)
    ensures
        match r {
            Ok(texts) => texts_of(list@, ptr@) == Ok::<Seq<Seq<char>>, LookupError>(
                text_views(texts@),
            ),
            Err(e) => texts_of(list@, ptr@) == Err::<Seq<Seq<char>>, LookupError>(e),
        },
{
    let mut texts: Vec<String> = Vec::new();
    let mut i: usize = 0;
    assert(text_views(texts@) =~= Seq::<Seq<char>>::empty());
    while i < list.len()
        invariant
            i <= list.len(),
            texts_of(list@.take(i as int), ptr@) == Ok::<Seq<Seq<char>>, LookupError>(
                text_views(texts@),
            ),
        decreases list.len() - i,
    {
        proof {
            let seen = list@.take(i as int + 1);
            assert(seen.drop_last() =~= list@.take(i as int));
        }
        match lookup_text(&list[i], ptr) {
            Ok(text) => {
                let ghost before = text_views(texts@);
                texts.push(text);
                assert(text_views(texts@) =~= before.push(text@));
            },
            Err(e) => {
                proof {
                    lemma_first_error_stays(list@, ptr@, i as int + 1);
                }
                return Err(e);
            },
        }
        i += 1;
    }
    assert(list@.take(i as int) =~= list@);
    Ok(texts)
}

/// An error among the first `n` values is the error of the whole list.
proof fn lemma_first_error_stays(list: Seq<serde_json::Value>, ptr: Seq<char>, n: int)
    requires
        0 <= n <= list.len(),
        texts_of(list.take(n), ptr) is Err,
    ensures
        texts_of(list, ptr) == texts_of(list.take(n), ptr),
    decreases list.len() - n,
{
    if n < list.len() {
        let more = list.take(n + 1);
        assert(more.drop_last() =~= list.take(n));
        lemma_first_error_stays(list, ptr, n + 1);
    } else {
        assert(list.take(n) =~= list);
    }
}

/// Looks up the texts that stand at `sub_ptr` in each value of the list that
/// stands in `value` at `ptr`.
pub fn lookup_texts(value: &serde_json::Value, ptr: &str, sub_ptr: &str) -> (r: Result<
    Vec<String>,
    LookupError,
>)
    ensures
        match r {
            Ok(texts) => texts_at(*value, ptr@, sub_ptr@) == Ok::<Seq<Seq<char>>, LookupError>(
                text_views(texts@),
            ),
            Err(e) => texts_at(*value, ptr@, sub_ptr@) == Err::<Seq<Seq<char>>, LookupError>(e),
        },
{
    match lookup_list(value, ptr) {
        Err(e) => Err(e),
        Ok(list) => lookup_each(&list, sub_ptr),
    }
}

} // verus!
