//! The form in which the App collection is kept in the local cache: a JSON
//! array with one object per App, its members in a fixed order.
use vstd::prelude::*;
use crate::json::{Json, member, member_from, is_str, entry};
use crate::fields::{
    Attachment, FieldError, opt_str_list, opt_attachments, attachment_url, all_str, strs,
    view_opt_str,
};
use crate::records::{AppRecord, AppRecordView, decode_app, app_from_fields};

verus! {

pub open spec fn json_opt_str(j: Json, o: Option<Seq<char>>) -> bool {
    match o {
        None => j is Null,
        Some(s) => is_str(j, s),
    }
}

pub open spec fn json_opt_bool(j: Json, o: Option<bool>) -> bool {
    match o {
        None => j is Null,
        Some(b) => j == Json::Bool(b),
    }
}

/// `j` is an array of the strings `l`.
pub open spec fn json_strs(j: Json, l: Seq<Seq<char>>) -> bool {
    match j {
        Json::Array(items) => items@.len() == l.len() && forall|i: int|
            0 <= i < l.len() ==> is_str(#[trigger] items@[i], l[i]),
        _ => false,
    }
}

pub open spec fn json_opt_strs(j: Json, o: Option<Seq<Seq<char>>>) -> bool {
    match o {
        None => j is Null,
        Some(l) => json_strs(j, l),
    }
}

/// `j` is the attachment object `{"url": u}`.
pub open spec fn json_attachment(j: Json, u: Seq<char>) -> bool {
    match j {
        Json::Object(e) => e@.len() == 1 && e@[0].0@ == "url"@ && is_str(e@[0].1, u),
        _ => false,
    }
}

pub open spec fn json_opt_attachments(j: Json, o: Option<Seq<Seq<char>>>) -> bool {
    match o {
        None => j is Null,
        Some(l) => match j {
            Json::Array(items) => items@.len() == l.len() && forall|i: int|
                0 <= i < l.len() ==> json_attachment(#[trigger] items@[i], l[i]),
            _ => false,
        },
    }
}

/// The member names of a cached App, in order.
pub open spec fn cache_keys() -> Seq<Seq<char>> {
    seq![
        "id"@, "Name"@, "Enabled"@, "type_field"@, "Target"@, "Icon"@, "owner"@,
        "ownership"@, "IconB64"@, "HideFrom"@, "PublicUsers"@, "Parent"@, "Children"@,
    ]
}

/// `j` is the cached form of the App `a`: an object with the members of
/// `cache_keys` in order, an absent attribute written as null.
pub open spec fn encodes_app(j: Json, a: AppRecordView) -> bool {
    match j {
        Json::Object(e) => {
            &&& e@.len() == 13
            &&& forall|k: int| 0 <= k < 13 ==> #[trigger] e@[k].0@ == cache_keys()[k]
            &&& json_opt_str(e@[0].1, a.id)
            &&& json_opt_str(e@[1].1, a.name)
            &&& json_opt_bool(e@[2].1, a.enabled)
            &&& json_opt_str(e@[3].1, a.type_field)
            &&& json_opt_str(e@[4].1, a.target)
            &&& json_opt_attachments(e@[5].1, a.icon)
            &&& json_opt_strs(e@[6].1, a.owner)
            &&& json_opt_str(e@[7].1, a.ownership)
            &&& json_opt_str(e@[8].1, a.icon_b64)
            &&& json_opt_strs(e@[9].1, a.hide_from)
            &&& json_opt_strs(e@[10].1, a.public_users)
            &&& json_opt_strs(e@[11].1, a.parent)
            &&& json_opt_strs(e@[12].1, a.children)
        },
        _ => false,
    }
}

/// `j` is the cache document of the collection `apps`, in order.
pub open spec fn encodes_apps(j: Json, apps: Seq<AppRecordView>) -> bool {
    match j {
        Json::Array(items) => items@.len() == apps.len() && forall|i: int|
            0 <= i < apps.len() ==> encodes_app(#[trigger] items@[i], apps[i]),
        _ => false,
    }
}

/// The App that one item of the cache document holds.
pub open spec fn decode_cache_item(j: Json) -> Option<AppRecordView> {
    match j {
        Json::Object(e) => decode_app(e@, true),
        _ => None,
    }
}

/// The collection that a cache document holds, or `None` if one of its items
/// is not an App.
pub open spec fn decode_cache(doc: Json) -> Option<Seq<AppRecordView>> {
    match doc {
        Json::Array(items) => if forall|i: int|
            0 <= i < items@.len() ==> (#[trigger] decode_cache_item(items@[i])) is Some {
            Some(Seq::new(items@.len(), |i: int| decode_cache_item(items@[i])->Some_0))
        } else {
            None
        },
        _ => None,
    }
}

pub open spec fn view_apps(v: Seq<AppRecord>) -> Seq<AppRecordView> {
    v.map_values(|a: AppRecord| a@)
}

fn opt_str_json(o: &Option<String>) -> (r: Json)
    ensures
        json_opt_str(r, view_opt_str(*o)),
{
    match o {
        Some(s) => Json::Str(s.clone()),
        None => Json::Null,
    }
}

fn opt_bool_json(o: Option<bool>) -> (r: Json)
    ensures
        json_opt_bool(r, o),
{
    match o {
        Some(b) => Json::Bool(b),
        None => Json::Null,
    }
}

fn strs_json(v: &Vec<String>) -> (r: Json)
    ensures
        json_strs(r, v@.map_values(|s: String| s@)),
{
    let mut items: Vec<Json> = Vec::new();
    let mut i: usize = 0;
    while i < v.len()
        invariant
            i <= v@.len(),
            items@.len() == i,
            forall|j: int| 0 <= j < i ==> is_str(#[trigger] items@[j], v@[j]@),
        decreases v@.len() - i,
    {
        items.push(Json::Str(v[i].clone()));
        i = i + 1;
    }
    Json::Array(items)
}

fn opt_strs_json(o: &Option<Vec<String>>) -> (r: Json)
    ensures
        json_opt_strs(r, crate::fields::view_opt_strs(*o)),
{
    match o {
        Some(v) => strs_json(v),
        None => Json::Null,
    }
}

fn opt_attachments_json(o: &Option<Vec<Attachment>>) -> (r: Json)
    ensures
        json_opt_attachments(r, crate::fields::view_opt_attachments(*o)),
{
    match o {
        None => Json::Null,
        Some(v) => {
            let mut items: Vec<Json> = Vec::new();
            let mut i: usize = 0;
            while i < v.len()
                invariant
                    i <= v@.len(),
                    items@.len() == i,
                    forall|j: int| 0 <= j < i ==> json_attachment(#[trigger] items@[j], v@[j].url@),
                decreases v@.len() - i,
            {
                let mut e: Vec<(String, Json)> = Vec::new();
                e.push(entry("url", Json::Str(v[i].url.clone())));
                items.push(Json::Object(e));
                i = i + 1;
            }
            Json::Array(items)
        },
    }
}

/// The cached form of one App.
pub fn app_to_cache_json(a: &AppRecord) -> (r: Json)
    ensures
        encodes_app(r, a@),
{
    let mut e: Vec<(String, Json)> = Vec::new();
    e.push(entry("id", opt_str_json(&a.id)));
    e.push(entry("Name", opt_str_json(&a.name)));
    e.push(entry("Enabled", opt_bool_json(a.enabled)));
    e.push(entry("type_field", opt_str_json(&a.type_field)));
    e.push(entry("Target", opt_str_json(&a.target)));
    e.push(entry("Icon", opt_attachments_json(&a.icon)));
    e.push(entry("owner", opt_strs_json(&a.owner)));
    e.push(entry("ownership", opt_str_json(&a.ownership)));
    e.push(entry("IconB64", opt_str_json(&a.icon_b64)));
    e.push(entry("HideFrom", opt_strs_json(&a.hide_from)));
    e.push(entry("PublicUsers", opt_strs_json(&a.public_users)));
    e.push(entry("Parent", opt_strs_json(&a.parent)));
    e.push(entry("Children", opt_strs_json(&a.children)));
    assert(forall|k: int| 0 <= k < 13 ==> #[trigger] e@[k].0@ == cache_keys()[k]);
    Json::Object(e)
}

/// The cache document of a collection, one item per App, in order.
pub fn cache_document(apps: &Vec<AppRecord>) -> (r: Json)
    ensures
        encodes_apps(r, view_apps(apps@)),
{
    let mut items: Vec<Json> = Vec::new();
    let mut i: usize = 0;
    while i < apps.len()
        invariant
            i <= apps@.len(),
            items@.len() == i,
            forall|j: int| 0 <= j < i ==> encodes_app(#[trigger] items@[j], apps@[j]@),
        decreases apps@.len() - i,
    {
        items.push(app_to_cache_json(&apps[i]));
        i = i + 1;
    }
    Json::Array(items)
}

/// Reads the collection back out of a cache document.
pub fn apps_from_cache(doc: &Json) -> (r: Result<Vec<AppRecord>, FieldError>)
    ensures
        r is Ok <==> decode_cache(*doc) is Some,
        r is Ok ==> view_apps(r->Ok_0@) == decode_cache(*doc)->Some_0,
{
    match doc {
        Json::Array(items) => {
            let mut out: Vec<AppRecord> = Vec::new();
            let mut i: usize = 0;
            while i < items.len()
                invariant
                    *doc == Json::Array(*items),
                    i <= items@.len(),
                    out@.len() == i,
                    forall|j: int| 0 <= j < i ==> (#[trigger] decode_cache_item(items@[j])) is Some,
                    forall|j: int|
                        0 <= j < i ==> #[trigger] out@[j]@ == decode_cache_item(items@[j])->Some_0,
                decreases items@.len() - i,
            {
                match &items[i] {
                    Json::Object(e) => {
                        let a = app_from_fields(e, true);
                        match a {
                            Ok(a) => out.push(a),
                            Err(err) => {
                                assert(decode_cache_item(items@[i as int]) is None);
                                return Err(err);
                            },
                        }
                    },
                    _ => {
                        assert(decode_cache_item(items@[i as int]) is None);
                        return Err(FieldError::Malformed);
                    },
                }
                i = i + 1;
            }
            assert(view_apps(out@) =~= Seq::new(
                items@.len(),
                |i: int| decode_cache_item(items@[i])->Some_0,
            ));
            Ok(out)
        },
        _ => Err(FieldError::Malformed),
    }
}

proof fn lemma_member_at(e: Seq<(String, Json)>, key: Seq<char>, i: int, k: int)
    requires
        0 <= i <= k < e.len(),
        e[k].0@ == key,
        forall|j: int| 0 <= j < k ==> #[trigger] e[j].0@ != key,
    ensures
        member_from(e, key, i) == Some(e[k].1),
    decreases k - i,
{
    if i < k {
        lemma_member_at(e, key, i + 1, k);
    }
}

proof fn lemma_cache_keys_distinct()
    ensures
        forall|j: int, k: int|
            0 <= j < 13 && 0 <= k < 13 && j != k ==> #[trigger] cache_keys()[j] != #[trigger] cache_keys()[k],
{
    reveal_strlit("id");
    reveal_strlit("Name");
    reveal_strlit("Enabled");
    reveal_strlit("type_field");
    reveal_strlit("Target");
    reveal_strlit("Icon");
    reveal_strlit("owner");
    reveal_strlit("ownership");
    reveal_strlit("IconB64");
    reveal_strlit("HideFrom");
    reveal_strlit("PublicUsers");
    reveal_strlit("Parent");
    reveal_strlit("Children");
    assert forall|j: int, k: int|
        0 <= j < 13 && 0 <= k < 13 && j != k implies #[trigger] cache_keys()[j]
        != #[trigger] cache_keys()[k] by {
        if cache_keys()[j] == cache_keys()[k] {
            assert(cache_keys()[j].len() == cache_keys()[k].len());
            assert(cache_keys()[j][0] == cache_keys()[k][0]);
        }
    }
}

proof fn lemma_read_strs(j: Json, o: Option<Seq<Seq<char>>>)
    requires
        json_opt_strs(j, o),
    ensures
        opt_str_list(Some(j)) == Ok::<_, ()>(o),
{
    if let Some(l) = o {
        let items = j->Array_0@;
        assert(all_str(items));
        assert(strs(items) =~= l);
    }
}

proof fn lemma_read_attachments(j: Json, o: Option<Seq<Seq<char>>>)
    requires
        json_opt_attachments(j, o),
    ensures
        opt_attachments(Some(j)) == Ok::<_, ()>(o),
{
    if let Some(l) = o {
        let items = j->Array_0@;
        assert forall|i: int| 0 <= i < items.len() implies #[trigger] attachment_url(items[i])
            == Some(l[i]) by {
            assert(json_attachment(items[i], l[i]));
        }
        assert(Seq::new(items.len(), |i: int| attachment_url(items[i])->Some_0) =~= l);
    }
}

proof fn lemma_decode_app(j: Json, a: AppRecordView)
    requires
        encodes_app(j, a),
        a.wf(),
    ensures
        decode_cache_item(j) == Some(a),
{
    let e = j->Object_0@;
    lemma_cache_keys_distinct();
    assert forall|k: int| 0 <= k < 13 implies #[trigger] member(e, cache_keys()[k]) == Some(e[k].1) by {
        assert forall|i: int| 0 <= i < k implies #[trigger] e[i].0@ != cache_keys()[k] by {
            assert(e[i].0@ == cache_keys()[i]);
        }
        lemma_member_at(e, cache_keys()[k], 0, k);
    }
    assert(member(e, "id"@) == Some(e[0].1));
    assert(member(e, "Name"@) == Some(e[1].1));
    assert(member(e, "Enabled"@) == Some(e[2].1));
    assert(member(e, "type_field"@) == Some(e[3].1));
    assert(member(e, "Target"@) == Some(e[4].1));
    assert(member(e, "Icon"@) == Some(e[5].1));
    assert(member(e, "owner"@) == Some(e[6].1));
    assert(member(e, "ownership"@) == Some(e[7].1));
    assert(member(e, "IconB64"@) == Some(e[8].1));
    assert(member(e, "HideFrom"@) == Some(e[9].1));
    assert(member(e, "PublicUsers"@) == Some(e[10].1));
    assert(member(e, "Parent"@) == Some(e[11].1));
    assert(member(e, "Children"@) == Some(e[12].1));
    lemma_read_attachments(e[5].1, a.icon);
    lemma_read_strs(e[6].1, a.owner);
    lemma_read_strs(e[9].1, a.hide_from);
    lemma_read_strs(e[10].1, a.public_users);
    lemma_read_strs(e[11].1, a.parent);
    lemma_read_strs(e[12].1, a.children);
}

/// Writing a collection of well-formed Apps to the cache and reading it back
/// gives the same collection, in the same order.
pub proof fn lemma_cache_round_trip(doc: Json, apps: Seq<AppRecordView>)
    requires
        encodes_apps(doc, apps),
        forall|i: int| 0 <= i < apps.len() ==> (#[trigger] apps[i]).wf(),
    ensures
        decode_cache(doc) == Some(apps),
{
    let items = doc->Array_0@;
    assert forall|i: int| 0 <= i < items.len() implies #[trigger] decode_cache_item(items[i])
        == Some(apps[i]) by {
        lemma_decode_app(items[i], apps[i]);
    }
    assert(Seq::new(items.len(), |i: int| decode_cache_item(items[i])->Some_0) =~= apps);
}

} // verus!
