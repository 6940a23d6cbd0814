//! Reading single attributes out of a record's fields, tolerating the two
//! shapes that the remote store uses for a single-select attribute.
use vstd::prelude::*;
use crate::json::{Json, member, find_member, is_str};

verus! {

/// An attribute of a record that has a shape the library does not accept.
#[derive(Debug, PartialEq, Eq, Structural)]
pub enum FieldError {
    Malformed,
}

/// A file hosted by the remote store, known by its URL.
#[derive(Debug, PartialEq)]
pub struct Attachment {
    pub url: String,
}

/// A single-select value in its object form.
#[derive(Debug, PartialEq)]
pub struct SingleSelectField {
    pub id: String,
    pub name: String,
}

/// The canonical form of a single-select value: absent and null give `None`,
/// a string gives itself, an object with a string `id` and a string `name`
/// gives its `name`; any other shape is an error.
pub open spec fn single_select(v: Option<Json>) -> Result<Option<Seq<char>>, ()> {
    match v {
        None => Ok(None),
        Some(Json::Null) => Ok(None),
        Some(Json::Str(s)) => Ok(Some(s@)),
        Some(Json::Object(e)) => match (member(e@, "id"@), member(e@, "name"@)) {
            (Some(Json::Str(_)), Some(Json::Str(n))) => Ok(Some(n@)),
            _ => Err(()),
        },
        _ => Err(()),
    }
}

/// A single-select value sent as a bare string normalizes to that string,
/// unchanged.
pub proof fn lemma_single_select_string(s: String)
    ensures
        single_select(Some(Json::Str(s))) == Ok::<_, ()>(Some(s@)),
{
}

/// A single-select value sent as an object `{id, name}` normalizes to its
/// `name`; the `id` is dropped.
pub proof fn lemma_single_select_object(e: Vec<(String, Json)>, id: String, name: String)
    requires
        e@.len() == 2,
        e@[0].0@ == "id"@,
        e@[0].1 == Json::Str(id),
        e@[1].0@ == "name"@,
        e@[1].1 == Json::Str(name),
    ensures
        single_select(Some(Json::Object(e))) == Ok::<_, ()>(Some(name@)),
{
    reveal_strlit("id");
    reveal_strlit("name");
    assert("id"@.len() != "name"@.len());
    assert(member(e@, "id"@) == Some(Json::Str(id)));
    assert(crate::json::member_from(e@, "name"@, 1) == Some(Json::Str(name)));
}

/// An absent or null single-select value normalizes to nothing.
pub proof fn lemma_single_select_absent()
    ensures
        single_select(None) == Ok::<Option<Seq<char>>, ()>(None),
        single_select(Some(Json::Null)) == Ok::<Option<Seq<char>>, ()>(None),
{
}

/// An optional string attribute: absent and null give `None`.
pub open spec fn opt_str(v: Option<Json>) -> Result<Option<Seq<char>>, ()> {
    match v {
        None => Ok(None),
        Some(Json::Null) => Ok(None),
        Some(Json::Str(s)) => Ok(Some(s@)),
        _ => Err(()),
    }
}

/// An optional boolean attribute.
pub open spec fn opt_bool(v: Option<Json>) -> Result<Option<bool>, ()> {
    match v {
        None => Ok(None),
        Some(Json::Null) => Ok(None),
        Some(Json::Bool(b)) => Ok(Some(b)),
        _ => Err(()),
    }
}

/// Every item is a string.
pub open spec fn all_str(items: Seq<Json>) -> bool {
    forall|i: int| 0 <= i < items.len() ==> (#[trigger] items[i]) is Str
}

/// The strings of a list of string items.
pub open spec fn strs(items: Seq<Json>) -> Seq<Seq<char>> {
    Seq::new(items.len(), |i: int| items[i]->Str_0@)
}

/// An optional list of identifiers.
pub open spec fn opt_str_list(v: Option<Json>) -> Result<Option<Seq<Seq<char>>>, ()> {
    match v {
        None => Ok(None),
        Some(Json::Null) => Ok(None),
        Some(Json::Array(items)) => if all_str(items@) {
            Ok(Some(strs(items@)))
        } else {
            Err(())
        },
        _ => Err(()),
    }
}

/// A single-valued link sent as a list: more than one element is a fault.
pub open spec fn opt_link(v: Option<Json>) -> Result<Option<Seq<Seq<char>>>, ()> {
    match opt_str_list(v) {
        Ok(Some(l)) => if l.len() <= 1 {
            Ok(Some(l))
        } else {
            Err(())
        },
        r => r,
    }
}

/// The URL of an attachment object.
pub open spec fn attachment_url(j: Json) -> Option<Seq<char>> {
    match j {
        Json::Object(e) => match member(e@, "url"@) {
            Some(Json::Str(u)) => Some(u@),
            _ => None,
        },
        _ => None,
    }
}

/// An optional list of attachments, read as their URLs.
pub open spec fn opt_attachments(v: Option<Json>) -> Result<Option<Seq<Seq<char>>>, ()> {
    match v {
        None => Ok(None),
        Some(Json::Null) => Ok(None),
        Some(Json::Array(items)) => if forall|i: int|
            0 <= i < items@.len() ==> (#[trigger] attachment_url(items@[i])) is Some {
            Ok(Some(Seq::new(items@.len(), |i: int| attachment_url(items@[i])->Some_0)))
        } else {
            Err(())
        },
        _ => Err(()),
    }
}

pub open spec fn view_opt_str(o: Option<String>) -> Option<Seq<char>> {
    match o {
        Some(s) => Some(s@),
        None => None,
    }
}

pub open spec fn view_strs(v: Vec<String>) -> Seq<Seq<char>> {
    v@.map_values(|s: String| s@)
}

pub open spec fn view_opt_strs(o: Option<Vec<String>>) -> Option<Seq<Seq<char>>> {
    match o {
        Some(v) => Some(view_strs(v)),
        None => None,
    }
}

/// Reads the object form `{id, name}` of a single-select value.
pub fn single_select_object(e: &Vec<(String, Json)>) -> (r: Option<SingleSelectField>)
    ensures
        match r {
            Some(field) => member(e@, "id"@) is Some && is_str(member(e@, "id"@)->Some_0, field.id@)
                && member(e@, "name"@) is Some && is_str(member(e@, "name"@)->Some_0, field.name@),
            None => !(member(e@, "id"@) matches Some(Json::Str(_)) && member(e@, "name"@) matches Some(
                Json::Str(_),
            )),
        },
{
    match (find_member(e, "id"), find_member(e, "name")) {
        (Some(i), Some(n)) => match (&e[i].1, &e[n].1) {
            (Json::Str(id), Json::Str(name)) => Some(SingleSelectField { id: id.clone(), name: name.clone() }),
            _ => None,
        },
        _ => None,
    }
}

/// Brings a single-select value to its canonical form.
pub fn normalize_single_select(v: &Json) -> (r: Result<Option<String>, FieldError>)
    ensures
        r is Ok <==> single_select(Some(*v)) is Ok,
        r is Ok ==> view_opt_str(r->Ok_0) == single_select(Some(*v))->Ok_0,
{
    match v {
        Json::Null => Ok(None),
        Json::Str(s) => Ok(Some(s.clone())),
        Json::Object(e) => match single_select_object(e) {
            Some(field) => Ok(Some(field.name)),
            None => Err(FieldError::Malformed),
        },
        _ => Err(FieldError::Malformed),
    }
}

/// Reads the single-select attribute `key`.
pub fn read_single_select(fields: &Vec<(String, Json)>, key: &str) -> (r: Result<
    Option<String>,
    FieldError,
>)
    ensures
        r is Ok <==> single_select(member(fields@, key@)) is Ok,
        r is Ok ==> view_opt_str(r->Ok_0) == single_select(member(fields@, key@))->Ok_0,
{
    match find_member(fields, key) {
        None => Ok(None),
        Some(i) => normalize_single_select(&fields[i].1),
    }
}

/// Reads the optional string attribute `key`.
pub fn read_opt_str(fields: &Vec<(String, Json)>, key: &str) -> (r: Result<Option<String>, FieldError>)
    ensures
        r is Ok <==> opt_str(member(fields@, key@)) is Ok,
        r is Ok ==> view_opt_str(r->Ok_0) == opt_str(member(fields@, key@))->Ok_0,
{
    match find_member(fields, key) {
        None => Ok(None),
        Some(i) => match &fields[i].1 {
            Json::Null => Ok(None),
            Json::Str(s) => Ok(Some(s.clone())),
            _ => Err(FieldError::Malformed),
        },
    }
}

/// Reads the optional boolean attribute `key`.
pub fn read_opt_bool(fields: &Vec<(String, Json)>, key: &str) -> (r: Result<Option<bool>, FieldError>)
    ensures
        r is Ok <==> opt_bool(member(fields@, key@)) is Ok,
        r is Ok ==> r->Ok_0 == opt_bool(member(fields@, key@))->Ok_0,
{
    match find_member(fields, key) {
        None => Ok(None),
        Some(i) => match &fields[i].1 {
            Json::Null => Ok(None),
            Json::Bool(b) => Ok(Some(*b)),
            _ => Err(FieldError::Malformed),
        },
    }
}

/// The strings of a list whose items are all strings.
pub fn read_strs(items: &Vec<Json>) -> (r: Result<Vec<String>, FieldError>)
    ensures
        r is Ok <==> all_str(items@),
        r is Ok ==> view_strs(r->Ok_0) == strs(items@),
{
    let mut out: Vec<String> = Vec::new();
    let mut i: usize = 0;
    while i < items.len()
        invariant
            i <= items@.len(),
            out@.len() == i,
            forall|j: int| 0 <= j < i ==> (#[trigger] items@[j]) is Str,
            forall|j: int| 0 <= j < i ==> #[trigger] out@[j]@ == items@[j]->Str_0@,
        decreases items@.len() - i,
    {
        match &items[i] {
            Json::Str(s) => out.push(s.clone()),
            _ => return Err(FieldError::Malformed),
        }
        i = i + 1;
    }
    assert(view_strs(out) =~= strs(items@));
    Ok(out)
}

/// Reads the optional list attribute `key`.
pub fn read_opt_str_list(fields: &Vec<(String, Json)>, key: &str) -> (r: Result<
    Option<Vec<String>>,
    FieldError,
>)
    ensures
        r is Ok <==> opt_str_list(member(fields@, key@)) is Ok,
        r is Ok ==> view_opt_strs(r->Ok_0) == opt_str_list(member(fields@, key@))->Ok_0,
{
    match find_member(fields, key) {
        None => Ok(None),
        Some(i) => match &fields[i].1 {
            Json::Null => Ok(None),
            Json::Array(items) => match read_strs(items) {
                Ok(v) => Ok(Some(v)),
                Err(e) => Err(e),
            },
            _ => Err(FieldError::Malformed),
        },
    }
}

/// Reads the single-valued link `key`, refusing more than one element.
pub fn read_opt_link(fields: &Vec<(String, Json)>, key: &str) -> (r: Result<
    Option<Vec<String>>,
    FieldError,
>)
    ensures
        r is Ok <==> opt_link(member(fields@, key@)) is Ok,
        r is Ok ==> view_opt_strs(r->Ok_0) == opt_link(member(fields@, key@))->Ok_0,
{
    match read_opt_str_list(fields, key) {
        Ok(Some(v)) => if v.len() <= 1 {
            Ok(Some(v))
        } else {
            Err(FieldError::Malformed)
        },
        r => r,
    }
}

/// The URL of one attachment object.
pub fn read_attachment(j: &Json) -> (r: Result<Attachment, FieldError>)
    ensures
        r is Ok <==> attachment_url(*j) is Some,
        r is Ok ==> r->Ok_0.url@ == attachment_url(*j)->Some_0,
{
    match j {
        Json::Object(e) => match read_opt_str(e, "url") {
            Ok(Some(u)) => Ok(Attachment { url: u }),
            _ => Err(FieldError::Malformed),
        },
        _ => Err(FieldError::Malformed),
    }
}

pub open spec fn view_attachments(v: Vec<Attachment>) -> Seq<Seq<char>> {
    v@.map_values(|a: Attachment| a.url@)
}

pub open spec fn view_opt_attachments(o: Option<Vec<Attachment>>) -> Option<Seq<Seq<char>>> {
    match o {
        Some(v) => Some(view_attachments(v)),
        None => None,
    }
}

/// Reads the optional attachment list `key`.
pub fn read_opt_attachments(fields: &Vec<(String, Json)>, key: &str) -> (r: Result<
    Option<Vec<Attachment>>,
    FieldError,
>)
    ensures
        r is Ok <==> opt_attachments(member(fields@, key@)) is Ok,
        r is Ok ==> view_opt_attachments(r->Ok_0) == opt_attachments(member(fields@, key@))->Ok_0,
{
    match find_member(fields, key) {
        None => Ok(None),
        Some(k) => match &fields[k].1 {
            Json::Null => Ok(None),
            Json::Array(items) => {
                let mut out: Vec<Attachment> = Vec::new();
                let mut i: usize = 0;
                while i < items.len()
                    invariant
                        member(fields@, key@) == Some(Json::Array(*items)),
                        i <= items@.len(),
                        out@.len() == i,
                        forall|j: int| 0 <= j < i ==> (#[trigger] attachment_url(items@[j])) is Some,
                        forall|j: int|
                            0 <= j < i ==> #[trigger] out@[j].url@ == attachment_url(items@[j])->Some_0,
                    decreases items@.len() - i,
                {
                    let a = read_attachment(&items[i]);
                    match a {
                        Ok(a) => out.push(a),
                        Err(e) => {
                            assert(attachment_url(items@[i as int]) is None);
                            return Err(e);
                        },
                    }
                    i = i + 1;
                }
                assert(view_attachments(out) =~= Seq::new(
                    items@.len(),
                    |i: int| attachment_url(items@[i])->Some_0,
                ));
                Ok(Some(out))
            },
            _ => Err(FieldError::Malformed),
        },
    }
}

} // verus!
