//! The decisions of the synchronisation with the remote store: what a
//! response means, what a request holds, and where it goes.
use vstd::prelude::*;
use crate::json::{Json, member, is_str, entry, find_member};
use crate::fields::{opt_str, opt_str_list, read_opt_str, read_opt_str_list, view_opt_str};
use crate::records::{AppRecord, AppRecordView, UserRecord, UserRecordView, decode_app, app_from_fields};
use crate::cache::{view_apps, encodes_apps, cache_document};

verus! {

/// The identifier of the remote store's base that holds the two collections.
pub const AIRTABLE_BASE: &'static str = "appL7Lq4VPcHgAewL";

/// Why an exchange with the remote store failed.
#[derive(Debug, PartialEq, Eq, Structural)]
pub enum SyncError {
    /// The store answered with a status that is not a success.
    Transport { status: u16 },
    /// The answer does not have the shape of the expected records.
    Schema,
    /// The record to update does not exist.
    NotFound,
}

pub open spec fn is_success(status: u16) -> bool {
    200 <= status <= 299
}

/// The status of an HTTP answer is a success.
pub fn status_is_success(status: u16) -> (r: bool)
    ensures
        r == is_success(status),
{
    200 <= status && status <= 299
}

/// The records of a list answer: an object with an array `records`, and no
/// `offset`, which would announce a further page.
pub open spec fn records_of(body: Json) -> Option<Seq<Json>> {
    match body {
        Json::Object(e) => match (member(e@, "records"@), member(e@, "offset"@)) {
            (Some(Json::Array(items)), None) => Some(items@),
            (Some(Json::Array(items)), Some(Json::Null)) => Some(items@),
            _ => None,
        },
        _ => None,
    }
}

/// The id of a record: its member `id` when that is a string.
pub open spec fn record_id(e: Seq<(String, Json)>) -> Option<Seq<char>> {
    match member(e, "id"@) {
        Some(Json::Str(s)) => Some(s@),
        _ => None,
    }
}

/// The App that one raw record describes, with the record's id.
pub open spec fn wire_app(r: Json) -> Option<AppRecordView> {
    match r {
        Json::Object(e) => match member(e@, "fields"@) {
            Some(Json::Object(f)) => match decode_app(f@, false) {
                Some(a) => Some(AppRecordView { id: record_id(e@), ..a }),
                None => None,
            },
            _ => None,
        },
        _ => None,
    }
}

/// The Apps of the raw records that can be read, in order; the others are
/// left out.
pub open spec fn wire_apps(items: Seq<Json>) -> Seq<AppRecordView>
    decreases items.len(),
{
    if items.len() == 0 {
        Seq::empty()
    } else {
        let rest = wire_apps(items.drop_last());
        match wire_app(items.last()) {
            Some(a) => rest.push(a),
            None => rest,
        }
    }
}

/// What a list answer for the Apps collection gives.
pub open spec fn apps_response(status: u16, body: Json) -> Result<Seq<AppRecordView>, SyncError> {
    if !is_success(status) {
        Err(SyncError::Transport { status })
    } else {
        match records_of(body) {
            Some(items) => Ok(wire_apps(items)),
            None => Err(SyncError::Schema),
        }
    }
}

/// Finds the array of records of a list answer.
fn records_in(body: &Json) -> (r: Option<&Vec<Json>>)
    ensures
        match r {
            Some(items) => records_of(*body) == Some(items@),
            None => records_of(*body) is None,
        },
{
    match body {
        Json::Object(e) => {
            let more = match find_member(e, "offset") {
                None => false,
                Some(k) => match &e[k].1 {
                    Json::Null => false,
                    _ => true,
                },
            };
            match find_member(e, "records") {
                Some(k) => match &e[k].1 {
                    Json::Array(items) => if more {
                        None
                    } else {
                        Some(items)
                    },
                    _ => None,
                },
                None => None,
            }
        },
        _ => None,
    }
}

fn read_record_id(e: &Vec<(String, Json)>) -> (r: Option<String>)
    ensures
        view_opt_str(r) == record_id(e@),
{
    match find_member(e, "id") {
        Some(k) => match &e[k].1 {
            Json::Str(s) => Some(s.clone()),
            _ => None,
        },
        None => None,
    }
}

/// Reads one raw App record; `None` where a field has a shape that is not
/// accepted.
pub fn app_from_record(r: &Json) -> (res: Option<AppRecord>)
    ensures
        match res {
            Some(a) => wire_app(*r) == Some(a@),
            None => wire_app(*r) is None,
        },
{
    match r {
        Json::Object(e) => match find_member(e, "fields") {
            Some(k) => match &e[k].1 {
                Json::Object(f) => match app_from_fields(f, false) {
                    Ok(a) => {
                        let mut a = a;
                        a.id = read_record_id(e);
                        Some(a)
                    },
                    Err(_) => None,
                },
                _ => None,
            },
            None => None,
        },
        _ => None,
    }
}

/// The Apps of a list of raw records: those that can be read, in order.
pub fn apps_from_records(items: &Vec<Json>) -> (r: Vec<AppRecord>)
    ensures
        view_apps(r@) == wire_apps(items@),
{
    let mut out: Vec<AppRecord> = Vec::new();
    let mut i: usize = 0;
    while i < items.len()
        invariant
            i <= items@.len(),
            view_apps(out@) == wire_apps(items@.subrange(0, i as int)),
        decreases items@.len() - i,
    {
        let ghost before = out@;
        let a = app_from_record(&items[i]);
        assert(items@.subrange(0, i + 1).drop_last() =~= items@.subrange(0, i as int));
        match a {
            Some(a) => {
                out.push(a);
                assert(view_apps(out@) =~= view_apps(before).push(out@.last()@));
            },
            None => {},
        }
        i = i + 1;
    }
    assert(items@.subrange(0, items@.len() as int) =~= items@);
    out
}

/// The Apps that a list answer of the remote store gives. A status that is
/// not a success is a transport error and a body without the records is a
/// schema error; a record that cannot be read is left out.
pub fn apps_from_response(status: u16, body: &Json) -> (r: Result<Vec<AppRecord>, SyncError>)
    ensures
        match r {
            Ok(v) => apps_response(status, *body) == Ok::<_, SyncError>(view_apps(v@)),
            Err(e) => apps_response(status, *body) == Err::<Seq<AppRecordView>, _>(e),
        },
{
    if !status_is_success(status) {
        return Err(SyncError::Transport { status });
    }
    match records_in(body) {
        Some(items) => Ok(apps_from_records(items)),
        None => Err(SyncError::Schema),
    }
}

/// How many of the raw records can be read as Apps.
pub open spec fn readable_count(items: Seq<Json>) -> nat
    decreases items.len(),
{
    if items.len() == 0 {
        0
    } else {
        readable_count(items.drop_last()) + if wire_app(items.last()) is Some {
            1nat
        } else {
            0nat
        }
    }
}

/// A fetch keeps exactly the records that can be read: as many Apps come out
/// as there are readable records, whatever the others hold.
pub proof fn lemma_fetch_keeps_readable(items: Seq<Json>)
    ensures
        wire_apps(items).len() == readable_count(items),
        wire_apps(items).len() <= items.len(),
    decreases items.len(),
{
    if items.len() > 0 {
        lemma_fetch_keeps_readable(items.drop_last());
    }
}

/// Every fetched App has at most one owner and at most one parent, so a
/// fetched collection comes back whole from the cache.
pub proof fn lemma_fetched_apps_are_wf(items: Seq<Json>)
    ensures
        forall|i: int| 0 <= i < wire_apps(items).len() ==> (#[trigger] wire_apps(items)[i]).wf(),
    decreases items.len(),
{
    if items.len() > 0 {
        lemma_fetched_apps_are_wf(items.drop_last());
        let rest = wire_apps(items.drop_last());
        if let Some(a) = wire_app(items.last()) {
            let f = member(items.last()->Object_0@, "fields"@)->Some_0->Object_0@;
            assert(decode_app(f, false) is Some);
            assert(a.wf());
            assert forall|i: int| 0 <= i < rest.push(a).len() implies (#[trigger] rest.push(a)[i]).wf() by {
                if i < rest.len() {
                    assert(rest.push(a)[i] == rest[i]);
                }
            }
        }
    }
}

/// An answer with a status that is not a success is a transport error,
/// whatever its body, and a refresh then has no cache document to write.
pub proof fn lemma_failed_status_is_transport(status: u16, body: Json)
    requires
        !is_success(status),
    ensures
        apps_response(status, body) == Err::<Seq<AppRecordView>, _>(SyncError::Transport { status }),
        users_response(status, body) == Err::<Seq<UserRecordView>, _>(SyncError::Transport { status }),
{
}

/// The outcome of a successful refresh: the Apps, the positions of the
/// records left out, and the document that replaces the local cache.
pub struct Refreshed {
    pub apps: Vec<AppRecord>,
    pub rejected: Vec<usize>,
    pub cache_document: Json,
}

/// `r` lists, in increasing order, the positions of exactly the raw records
/// that cannot be read as Apps.
pub open spec fn lists_rejected(items: Seq<Json>, r: Seq<usize>) -> bool {
    &&& forall|j: int|
        0 <= j < r.len() ==> (#[trigger] r[j]) < items.len() && wire_app(items[r[j] as int]) is None
    &&& forall|j: int, k: int| 0 <= j < k < r.len() ==> r[j] < r[k]
    &&& forall|i: int|
        0 <= i < items.len() && (#[trigger] wire_app(items[i])) is None ==> exists|j: int|
            0 <= j < r.len() && r[j] == i
}

/// The positions of the raw records that a fetch leaves out because they
/// cannot be read as Apps.
pub fn rejected_records(items: &Vec<Json>) -> (r: Vec<usize>)
    ensures
        lists_rejected(items@, r@),
{
    let mut out: Vec<usize> = Vec::new();
    let mut i: usize = 0;
    while i < items.len()
        invariant
            i <= items@.len(),
            forall|j: int| 0 <= j < out@.len() ==> (#[trigger] out@[j]) < i && wire_app(items@[out@[j] as int]) is None,
            forall|j: int, k: int| 0 <= j < k < out@.len() ==> out@[j] < out@[k],
            forall|m: int| 0 <= m < i && (#[trigger] wire_app(items@[m])) is None ==> exists|j: int|
                0 <= j < out@.len() && out@[j] == m,
        decreases items@.len() - i,
    {
        let ghost before = out@;
        if app_from_record(&items[i]).is_none() {
            out.push(i);
            assert forall|m: int| 0 <= m < i + 1 && (#[trigger] wire_app(items@[m])) is None implies exists|j: int|
                0 <= j < out@.len() && out@[j] == m by {
                if m < i {
                    let j = choose|j: int| 0 <= j < before.len() && before[j] == m;
                    assert(out@[j] == m);
                } else {
                    assert(out@[before.len() as int] == m);
                }
            }
        }
        i = i + 1;
    }
    out
}

/// Decides a refresh of the Apps from the store's answer. On success it gives
/// the Apps and the cache document that holds them; on failure it gives the
/// error and nothing to write, so the cache stays as it was.
pub fn refresh_from_response(status: u16, body: &Json) -> (r: Result<Refreshed, SyncError>)
    ensures
        match r {
            Ok(done) => apps_response(status, *body) == Ok::<_, SyncError>(view_apps(done.apps@))
                && lists_rejected(records_of(*body)->Some_0, done.rejected@)
                && encodes_apps(done.cache_document, view_apps(done.apps@)),
            Err(e) => apps_response(status, *body) == Err::<Seq<AppRecordView>, _>(e),
        },
{
    if !status_is_success(status) {
        return Err(SyncError::Transport { status });
    }
    match records_in(body) {
        Some(items) => {
            let apps = apps_from_records(items);
            let rejected = rejected_records(items);
            let cache_document = cache_document(&apps);
            Ok(Refreshed { apps, rejected, cache_document })
        },
        None => Err(SyncError::Schema),
    }
}

/// The User that one raw record describes: its `id` is a string and its
/// `fields` an object whose attributes have the accepted shapes.
pub open spec fn wire_user(r: Json) -> Option<UserRecordView> {
    match r {
        Json::Object(e) => match (member(e@, "id"@), member(e@, "fields"@)) {
            (Some(Json::Str(id)), Some(Json::Object(f))) => {
                let name = opt_str(member(f@, "Name"@));
                let owned_apps = opt_str_list(member(f@, "OwnedApps"@));
                let public_apps = opt_str_list(member(f@, "PublicApps"@));
                let user_settings = opt_str(member(f@, "UserSettings"@));
                let hide_global = opt_str_list(member(f@, "HideGlobal"@));
                if name is Ok && owned_apps is Ok && public_apps is Ok
                    && user_settings is Ok && hide_global is Ok {
                    Some(
                        UserRecordView {
                            id: id@,
                            name: name->Ok_0,
                            owned_apps: owned_apps->Ok_0,
                            public_apps: public_apps->Ok_0,
                            user_settings: user_settings->Ok_0,
                            hide_global: hide_global->Ok_0,
                        },
                    )
                } else {
                    None
                }
            },
            _ => None,
        },
        _ => None,
    }
}

/// The Users of a list of raw records, when every one of them can be read.
pub open spec fn wire_users(items: Seq<Json>) -> Option<Seq<UserRecordView>> {
    if forall|i: int| 0 <= i < items.len() ==> (#[trigger] wire_user(items[i])) is Some {
        Some(Seq::new(items.len(), |i: int| wire_user(items[i])->Some_0))
    } else {
        None
    }
}

pub open spec fn view_users(v: Seq<UserRecord>) -> Seq<UserRecordView> {
    v.map_values(|u: UserRecord| u@)
}

/// What a list answer for the Users collection gives: unlike Apps, one record
/// that cannot be read makes the whole answer a schema error.
pub open spec fn users_response(status: u16, body: Json) -> Result<Seq<UserRecordView>, SyncError> {
    if !is_success(status) {
        Err(SyncError::Transport { status })
    } else {
        match records_of(body) {
            Some(items) => match wire_users(items) {
                Some(users) => Ok(users),
                None => Err(SyncError::Schema),
            },
            None => Err(SyncError::Schema),
        }
    }
}

/// What the answer to the creation of a User gives: the store assigns the
/// new record its id, so an answer with an empty id is a schema error.
pub open spec fn created_user_response(status: u16, body: Json) -> Result<UserRecordView, SyncError> {
    if !is_success(status) {
        Err(SyncError::Transport { status })
    } else {
        match wire_user(body) {
            Some(u) => if u.id.len() > 0 {
                Ok(u)
            } else {
                Err(SyncError::Schema)
            },
            None => Err(SyncError::Schema),
        }
    }
}

/// A created User always has a non-empty id, and carries the name that the
/// store sent back.
pub proof fn lemma_created_user_has_id(status: u16, body: Json)
    requires
        created_user_response(status, body) is Ok,
    ensures
        created_user_response(status, body)->Ok_0.id.len() > 0,
        created_user_response(status, body)->Ok_0.name == opt_str(
            member(member(body->Object_0@, "fields"@)->Some_0->Object_0@, "Name"@),
        )->Ok_0,
{
}

/// Creating a User named `name`: when the store answers with a non-empty id
/// and echoes the name sent, as `create_user_request` asks, the User
/// read back has that id and that name, and no app lists yet.
pub proof fn lemma_created_user_echo(
    status: u16,
    body: Json,
    id: String,
    name: String,
    members: Vec<(String, Json)>,
    fields: Vec<(String, Json)>,
)
    requires
        is_success(status),
        id@.len() > 0,
        body == Json::Object(members),
        members@.len() == 2,
        members@[0].0@ == "id"@,
        members@[0].1 == Json::Str(id),
        members@[1].0@ == "fields"@,
        members@[1].1 == Json::Object(fields),
        fields@.len() == 1,
        fields@[0].0@ == "Name"@,
        fields@[0].1 == Json::Str(name),
    ensures
        created_user_response(status, body) == Ok::<_, SyncError>(
            UserRecordView {
                id: id@,
                name: Some(name@),
                owned_apps: None,
                public_apps: None,
                user_settings: None,
                hide_global: None,
            },
        ),
{
    reveal_strlit("id");
    reveal_strlit("fields");
    reveal_strlit("Name");
    reveal_strlit("OwnedApps");
    reveal_strlit("PublicApps");
    reveal_strlit("UserSettings");
    reveal_strlit("HideGlobal");
    assert("id"@.len() != "fields"@.len());
    assert(crate::json::member_from(members@, "fields"@, 1) == Some(members@[1].1));
    assert(member(members@, "fields"@) == Some(members@[1].1));
    assert(member(fields@, "Name"@) == Some(fields@[0].1));
    assert(crate::json::member_from(fields@, "OwnedApps"@, 1) is None);
    assert(crate::json::member_from(fields@, "PublicApps"@, 1) is None);
    assert(crate::json::member_from(fields@, "UserSettings"@, 1) is None);
    assert(crate::json::member_from(fields@, "HideGlobal"@, 1) is None);
    assert("Name"@.len() != "OwnedApps"@.len() && "Name"@.len() != "PublicApps"@.len());
    assert("Name"@.len() != "UserSettings"@.len() && "Name"@.len() != "HideGlobal"@.len());
    assert(member(fields@, "OwnedApps"@) is None);
    assert(member(fields@, "PublicApps"@) is None);
    assert(member(fields@, "UserSettings"@) is None);
    assert(member(fields@, "HideGlobal"@) is None);
}

/// What the answer to a settings update gives: 404 says that the User does
/// not exist.
pub open spec fn update_response(status: u16) -> Result<(), SyncError> {
    if is_success(status) {
        Ok(())
    } else if status == 404 {
        Err(SyncError::NotFound)
    } else {
        Err(SyncError::Transport { status })
    }
}

/// Reads one raw User record.
pub fn user_from_record(r: &Json) -> (res: Option<UserRecord>)
    ensures
        match res {
            Some(u) => wire_user(*r) == Some(u@),
            None => wire_user(*r) is None,
        },
{
    let e = match r {
        Json::Object(e) => e,
        _ => return None,
    };
    let id = match find_member(e, "id") {
        Some(k) => match &e[k].1 {
            Json::Str(s) => s,
            _ => return None,
        },
        None => return None,
    };
    let f = match find_member(e, "fields") {
        Some(k) => match &e[k].1 {
            Json::Object(f) => f,
            _ => return None,
        },
        None => return None,
    };
    let name = match read_opt_str(f, "Name") {
        Ok(v) => v,
        Err(_) => return None,
    };
    let owned_apps = match read_opt_str_list(f, "OwnedApps") {
        Ok(v) => v,
        Err(_) => return None,
    };
    let public_apps = match read_opt_str_list(f, "PublicApps") {
        Ok(v) => v,
        Err(_) => return None,
    };
    let user_settings = match read_opt_str(f, "UserSettings") {
        Ok(v) => v,
        Err(_) => return None,
    };
    let hide_global = match read_opt_str_list(f, "HideGlobal") {
        Ok(v) => v,
        Err(_) => return None,
    };
    Some(UserRecord { id: id.clone(), name, owned_apps, public_apps, user_settings, hide_global })
}

/// The Users of a list of raw records, or `None` if one cannot be read.
pub fn users_from_records(items: &Vec<Json>) -> (r: Option<Vec<UserRecord>>)
    ensures
        match r {
            Some(v) => wire_users(items@) == Some(view_users(v@)),
            None => wire_users(items@) is None,
        },
{
    let mut out: Vec<UserRecord> = Vec::new();
    let mut i: usize = 0;
    while i < items.len()
        invariant
            i <= items@.len(),
            out@.len() == i,
            forall|j: int| 0 <= j < i ==> (#[trigger] wire_user(items@[j])) is Some,
            forall|j: int| 0 <= j < i ==> #[trigger] out@[j]@ == wire_user(items@[j])->Some_0,
        decreases items@.len() - i,
    {
        match user_from_record(&items[i]) {
            Some(u) => out.push(u),
            None => return None,
        }
        i = i + 1;
    }
    assert(view_users(out@) =~= Seq::new(items@.len(), |i: int| wire_user(items@[i])->Some_0));
    Some(out)
}

/// The Users that a list answer of the remote store gives.
pub fn users_from_response(status: u16, body: &Json) -> (r: Result<Vec<UserRecord>, SyncError>)
    ensures
        match r {
            Ok(v) => users_response(status, *body) == Ok::<_, SyncError>(view_users(v@)),
            Err(e) => users_response(status, *body) == Err::<Seq<UserRecordView>, _>(e),
        },
{
    if !status_is_success(status) {
        return Err(SyncError::Transport { status });
    }
    match records_in(body) {
        Some(items) => match users_from_records(items) {
            Some(users) => Ok(users),
            None => Err(SyncError::Schema),
        },
        None => Err(SyncError::Schema),
    }
}

/// The User that the answer to its creation gives.
pub fn created_user_from_response(status: u16, body: &Json) -> (r: Result<UserRecord, SyncError>)
    ensures
        match r {
            Ok(u) => created_user_response(status, *body) == Ok::<_, SyncError>(u@),
            Err(e) => created_user_response(status, *body) == Err::<UserRecordView, _>(e),
        },
{
    if !status_is_success(status) {
        return Err(SyncError::Transport { status });
    }
    match user_from_record(body) {
        Some(u) => if u.id.as_str().unicode_len() == 0 {
            Err(SyncError::Schema)
        } else {
            Ok(u)
        },
        None => Err(SyncError::Schema),
    }
}

/// What the answer to a settings update gives.
pub fn update_outcome(status: u16) -> (r: Result<(), SyncError>)
    ensures
        r == update_response(status),
{
    if status_is_success(status) {
        Ok(())
    } else if status == 404 {
        Err(SyncError::NotFound)
    } else {
        Err(SyncError::Transport { status })
    }
}

/// `j` is `{"fields": {key: value}}`: a request that sets one attribute and
/// names no other.
pub open spec fn sets_one_field(j: Json, key: Seq<char>, value: Seq<char>) -> bool {
    match j {
        Json::Object(e) => e@.len() == 1 && e@[0].0@ == "fields"@ && match e@[0].1 {
            Json::Object(f) => f@.len() == 1 && f@[0].0@ == key && is_str(f@[0].1, value),
            _ => false,
        },
        _ => false,
    }
}

fn one_field_request(key: &str, value: &String) -> (r: Json)
    ensures
        sets_one_field(r, key@, value@),
{
    let mut f: Vec<(String, Json)> = Vec::new();
    f.push(entry(key, Json::Str(value.clone())));
    let mut e: Vec<(String, Json)> = Vec::new();
    e.push(entry("fields", Json::Object(f)));
    Json::Object(e)
}

/// The body of the request that creates a User: its name and nothing else.
pub fn create_user_request(name: &String) -> (r: Json)
    ensures
        sets_one_field(r, "Name"@, name@),
{
    one_field_request("Name", name)
}

/// The body of the request that replaces a User's settings. It names the
/// settings attribute alone, so the store leaves the other attributes as
/// they are, and carries the settings text as it was given.
pub fn settings_update_request(settings_json: &String) -> (r: Json)
    ensures
        sets_one_field(r, "UserSettings"@, settings_json@),
{
    one_field_request("UserSettings", settings_json)
}

/// The address of a collection of the remote store.
pub fn collection_url(collection: &str) -> (r: String)
    ensures
        r@ == "https://api.airtable.com/v0/"@ + AIRTABLE_BASE@ + "/"@ + collection@,
{
    let mut url = String::from_str("https://api.airtable.com/v0/");
    url.append(AIRTABLE_BASE);
    url.append("/");
    url.append(collection);
    url
}

/// The address of one record of a collection.
pub fn record_url(collection: &str, id: &str) -> (r: String)
    ensures
        r@ == "https://api.airtable.com/v0/"@ + AIRTABLE_BASE@ + "/"@ + collection@ + "/"@ + id@,
{
    let mut url = collection_url(collection);
    url.append("/");
    url.append(id);
    url
}

} // verus!
