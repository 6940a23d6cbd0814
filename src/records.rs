//! The App and User records, how they are read from the remote store's
//! fields, and the form in which Apps are kept in the local cache.
use vstd::prelude::*;
use crate::json::{Json, member};
use crate::fields::{
    Attachment, FieldError, single_select, opt_str, opt_bool, opt_str_list, opt_link, opt_attachments,
    view_opt_str, view_opt_strs, view_opt_attachments, read_opt_str, read_opt_bool, read_single_select,
    read_opt_str_list, read_opt_link, read_opt_attachments,
};

verus! {

/// A launchable item of the catalog.
#[derive(Debug, PartialEq)]
pub struct AppRecord {
    pub id: Option<String>,
    pub name: Option<String>,
    pub enabled: Option<bool>,
    pub type_field: Option<String>,
    pub target: Option<String>,
    pub icon: Option<Vec<Attachment>>,
    pub owner: Option<Vec<String>>,
    pub ownership: Option<String>,
    pub icon_b64: Option<String>,
    pub hide_from: Option<Vec<String>>,
    pub public_users: Option<Vec<String>>,
    pub parent: Option<Vec<String>>,
    pub children: Option<Vec<String>>,
}

/// What an App record holds; attachments are known by their URLs.
pub struct AppRecordView {
    pub id: Option<Seq<char>>,
    pub name: Option<Seq<char>>,
    pub enabled: Option<bool>,
    pub type_field: Option<Seq<char>>,
    pub target: Option<Seq<char>>,
    pub icon: Option<Seq<Seq<char>>>,
    pub owner: Option<Seq<Seq<char>>>,
    pub ownership: Option<Seq<char>>,
    pub icon_b64: Option<Seq<char>>,
    pub hide_from: Option<Seq<Seq<char>>>,
    pub public_users: Option<Seq<Seq<char>>>,
    pub parent: Option<Seq<Seq<char>>>,
    pub children: Option<Seq<Seq<char>>>,
}

impl AppRecordView {
    /// The owner and the parent are single-valued.
    pub open spec fn wf(self) -> bool {
        (self.owner is Some ==> self.owner->Some_0.len() <= 1)
        && (self.parent is Some ==> self.parent->Some_0.len() <= 1)
    }
}

impl View for AppRecord {
    type V = AppRecordView;

    open spec fn view(&self) -> AppRecordView {
        AppRecordView {
            id: view_opt_str(self.id),
            name: view_opt_str(self.name),
            enabled: self.enabled,
            type_field: view_opt_str(self.type_field),
            target: view_opt_str(self.target),
            icon: view_opt_attachments(self.icon),
            owner: view_opt_strs(self.owner),
            ownership: view_opt_str(self.ownership),
            icon_b64: view_opt_str(self.icon_b64),
            hide_from: view_opt_strs(self.hide_from),
            public_users: view_opt_strs(self.public_users),
            parent: view_opt_strs(self.parent),
            children: view_opt_strs(self.children),
        }
    }
}

/// A user of the catalog. `settings` is an opaque serialized document.
#[derive(Debug, PartialEq)]
pub struct UserRecord {
    pub id: String,
    pub name: Option<String>,
    pub owned_apps: Option<Vec<String>>,
    pub public_apps: Option<Vec<String>>,
    pub user_settings: Option<String>,
    pub hide_global: Option<Vec<String>>,
}

pub struct UserRecordView {
    pub id: Seq<char>,
    pub name: Option<Seq<char>>,
    pub owned_apps: Option<Seq<Seq<char>>>,
    pub public_apps: Option<Seq<Seq<char>>>,
    pub user_settings: Option<Seq<char>>,
    pub hide_global: Option<Seq<Seq<char>>>,
}

impl View for UserRecord {
    type V = UserRecordView;

    open spec fn view(&self) -> UserRecordView {
        UserRecordView {
            id: self.id@,
            name: view_opt_str(self.name),
            owned_apps: view_opt_strs(self.owned_apps),
            public_apps: view_opt_strs(self.public_apps),
            user_settings: view_opt_str(self.user_settings),
            hide_global: view_opt_strs(self.hide_global),
        }
    }
}

/// The key of the type attribute: `Type` on the wire, `type_field` in the cache.
pub open spec fn key_type(cache: bool) -> Seq<char> {
    if cache { "type_field"@ } else { "Type"@ }
}

pub open spec fn key_owner(cache: bool) -> Seq<char> {
    if cache { "owner"@ } else { "Owner"@ }
}

pub open spec fn key_ownership(cache: bool) -> Seq<char> {
    if cache { "ownership"@ } else { "Ownership"@ }
}

/// The App that a record's fields describe, or `None` when one of them has a
/// shape that is not accepted. `cache` selects the key names of the cache.
pub open spec fn decode_app(e: Seq<(String, Json)>, cache: bool) -> Option<AppRecordView> {
    let id = opt_str(member(e, "id"@));
    let name = opt_str(member(e, "Name"@));
    let enabled = opt_bool(member(e, "Enabled"@));
    let type_field = single_select(member(e, key_type(cache)));
    let target = opt_str(member(e, "Target"@));
    let icon = opt_attachments(member(e, "Icon"@));
    let owner = opt_link(member(e, key_owner(cache)));
    let ownership = single_select(member(e, key_ownership(cache)));
    let icon_b64 = opt_str(member(e, "IconB64"@));
    let hide_from = opt_str_list(member(e, "HideFrom"@));
    let public_users = opt_str_list(member(e, "PublicUsers"@));
    let parent = opt_link(member(e, "Parent"@));
    let children = opt_str_list(member(e, "Children"@));
    if id is Ok && name is Ok && enabled is Ok && type_field is Ok && target is Ok && icon is Ok
        && owner is Ok && ownership is Ok && icon_b64 is Ok && hide_from is Ok && public_users is Ok
        && parent is Ok && children is Ok {
        Some(
            AppRecordView {
                id: id->Ok_0,
                name: name->Ok_0,
                enabled: enabled->Ok_0,
                type_field: type_field->Ok_0,
                target: target->Ok_0,
                icon: icon->Ok_0,
                owner: owner->Ok_0,
                ownership: ownership->Ok_0,
                icon_b64: icon_b64->Ok_0,
                hide_from: hide_from->Ok_0,
                public_users: public_users->Ok_0,
                parent: parent->Ok_0,
                children: children->Ok_0,
            },
        )
    } else {
        None
    }
}

/// Reads an App out of a record's fields; `cache` selects the key names of
/// the cache.
pub fn app_from_fields(fields: &Vec<(String, Json)>, cache: bool) -> (r: Result<AppRecord, FieldError>)
    ensures
        r is Ok <==> decode_app(fields@, cache) is Some,
        r is Ok ==> r->Ok_0@ == decode_app(fields@, cache)->Some_0,
{
    let id = read_opt_str(fields, "id")?;
    let name = read_opt_str(fields, "Name")?;
    let enabled = read_opt_bool(fields, "Enabled")?;
    let type_field = read_single_select(fields, if cache { "type_field" } else { "Type" })?;
    let target = read_opt_str(fields, "Target")?;
    let icon = read_opt_attachments(fields, "Icon")?;
    let owner = read_opt_link(fields, if cache { "owner" } else { "Owner" })?;
    let ownership = read_single_select(fields, if cache { "ownership" } else { "Ownership" })?;
    let icon_b64 = read_opt_str(fields, "IconB64")?;
    let hide_from = read_opt_str_list(fields, "HideFrom")?;
    let public_users = read_opt_str_list(fields, "PublicUsers")?;
    let parent = read_opt_link(fields, "Parent")?;
    let children = read_opt_str_list(fields, "Children")?;
    Ok(
        AppRecord {
            id,
            name,
            enabled,
            type_field,
            target,
            icon,
            owner,
            ownership,
            icon_b64,
            hide_from,
            public_users,
            parent,
            children,
        },
    )
}

} // verus!
