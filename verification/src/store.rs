//! The history codec: between the store's JSON document and the ordered
//! list of recent items.
//!
//! The document is an object with one `entries` array. Each element is
//! decoded independently, by trying the three variant shapes in turn on its
//! fields; an element that matches none of them is dropped, never fatal —
//! the store's format evolves outside this library's control. Encoding is
//! the exact reverse: optional fields are omitted when absent, and the
//! array keeps the list's order.
//!
//! The codec targets the store revision that holds URLs as strings.

use vstd::prelude::*;

use crate::errors::RecentError;
use crate::json::{
    dump_json, fields_model, items_model, json_dump, json_model, json_parse, parse_json, Json,
    JsonModel,
};
use crate::location::{decode_location, Location};
use crate::strutil::str_eq;
use crate::workspaces::{Recent, RecentModel, WorkspaceIdModel, WorkspaceIdentifier};

verus! {

/// The value of the first field named `key`, if any.
pub open spec fn obj_lookup(fields: Seq<(Seq<char>, JsonModel)>, key: Seq<char>) -> Option<
    JsonModel,
>
    decreases fields.len(),
{
    if fields.len() == 0 {
        None
    } else if fields[0].0 == key {
        Some(fields[0].1)
    } else {
        obj_lookup(fields.drop_first(), key)
    }
}

/// An optional string field: `Some(Some(s))` when present as a string,
/// `Some(None)` when absent or null, `None` when present as any other value
/// (the entry does not match the shape then).
pub open spec fn opt_str_field(fields: Seq<(Seq<char>, JsonModel)>, key: Seq<char>) -> Option<
    Option<Seq<char>>,
> {
    match obj_lookup(fields, key) {
        None => Some(None),
        Some(JsonModel::Str(s)) => Some(Some(s)),
        Some(JsonModel::Null) => Some(None),
        Some(_) => None,
    }
}

/// The workspace entry that `v` decodes to, if it matches that shape: an
/// object holding a `workspace` object with string `id` and a well-formed
/// `configPath` URL, plus the optional string fields.
pub open spec fn try_workspace_spec(v: JsonModel) -> Option<RecentModel> {
    match v {
        JsonModel::Object(fs) => match obj_lookup(fs, "workspace"@) {
            Some(JsonModel::Object(wfs)) => match (
                obj_lookup(wfs, "id"@),
                obj_lookup(wfs, "configPath"@),
            ) {
                (Some(JsonModel::Str(id)), Some(JsonModel::Str(cp))) => match decode_location(cp) {
                    Some(loc) => match (
                        opt_str_field(fs, "label"@),
                        opt_str_field(fs, "remoteAuthority"@),
                    ) {
                        (Some(label), Some(ra)) => Some(
                            RecentModel::Workspace {
                                workspace: WorkspaceIdModel { id: id, config_path: loc },
                                label: label,
                                remote_authority: ra,
                            },
                        ),
                        _ => None,
                    },
                    None => None,
                },
                _ => None,
            },
            _ => None,
        },
        _ => None,
    }
}

/// The folder or file entry that `v` decodes to, if it matches the shape
/// keyed by `key` (a string holding a well-formed URL, plus the optional
/// string fields).
pub open spec fn try_uri_spec(v: JsonModel, key: Seq<char>, is_folder: bool) -> Option<
    RecentModel,
> {
    match v {
        JsonModel::Object(fs) => match obj_lookup(fs, key) {
            Some(JsonModel::Str(u)) => match decode_location(u) {
                Some(loc) => match (
                    opt_str_field(fs, "label"@),
                    opt_str_field(fs, "remoteAuthority"@),
                ) {
                    (Some(label), Some(ra)) => Some(
                        if is_folder {
                            RecentModel::Folder {
                                folder_uri: loc,
                                label: label,
                                remote_authority: ra,
                            }
                        } else {
                            RecentModel::File {
                                file_uri: loc,
                                label: label,
                                remote_authority: ra,
                            }
                        },
                    ),
                    _ => None,
                },
                None => None,
            },
            _ => None,
        },
        _ => None,
    }
}

/// The recent item that one array element decodes to, trying the three
/// variant shapes in turn; `None` when it matches none of them.
pub open spec fn decode_entry_spec(v: JsonModel) -> Option<RecentModel> {
    match try_workspace_spec(v) {
        Some(r) => Some(r),
        None => match try_uri_spec(v, "folderUri"@, true) {
            Some(r) => Some(r),
            None => try_uri_spec(v, "fileUri"@, false),
        },
    }
}

/// The list that an `entries` array decodes to: each element decoded
/// independently, undecodable ones dropped, source order kept; with
/// `local_only`, only items on the local filesystem.
pub open spec fn decode_entries_spec(items: Seq<JsonModel>, local_only: bool) -> Seq<RecentModel>
    decreases items.len(),
{
    if items.len() == 0 {
        Seq::empty()
    } else {
        let init = decode_entries_spec(items.drop_last(), local_only);
        match decode_entry_spec(items.last()) {
            Some(r) => if !local_only || r.is_local() {
                init.push(r)
            } else {
                init
            },
            None => init,
        }
    }
}

/// The list that a history document decodes to, or `SchemaError` when the
/// document is no object with an `entries` array.
pub open spec fn decode_history_spec(v: JsonModel, local_only: bool) -> Result<
    Seq<RecentModel>,
    RecentError,
> {
    match v {
        JsonModel::Object(fs) => match obj_lookup(fs, "entries"@) {
            Some(JsonModel::Array(items)) => Ok(decode_entries_spec(items, local_only)),
            Some(_) => Err(RecentError::SchemaError),
            None => Err(RecentError::SchemaError),
        },
        _ => Err(RecentError::SchemaError),
    }
}

/// One optional string field of an encoded entry: present when the value is.
pub open spec fn opt_field_enc(key: Seq<char>, v: Option<Seq<char>>) -> Seq<
    (Seq<char>, JsonModel),
> {
    match v {
        Some(s) => seq![(key, JsonModel::Str(s))],
        None => Seq::empty(),
    }
}

/// The JSON object that one recent item encodes to: the variant's
/// discriminating field first, then `label` and `remoteAuthority` when
/// present.
pub open spec fn encode_entry_spec(r: RecentModel) -> JsonModel {
    match r {
        RecentModel::Workspace { workspace, label, remote_authority } => JsonModel::Object(
            seq![
                (
                    "workspace"@,
                    JsonModel::Object(
                        seq![
                            ("id"@, JsonModel::Str(workspace.id)),
                            ("configPath"@, JsonModel::Str(workspace.config_path.text)),
                        ],
                    ),
                ),
            ] + opt_field_enc("label"@, label) + opt_field_enc("remoteAuthority"@, remote_authority),
        ),
        RecentModel::Folder { folder_uri, label, remote_authority } => JsonModel::Object(
            seq![("folderUri"@, JsonModel::Str(folder_uri.text))] + opt_field_enc("label"@, label)
                + opt_field_enc("remoteAuthority"@, remote_authority),
        ),
        RecentModel::File { file_uri, label, remote_authority } => JsonModel::Object(
            seq![("fileUri"@, JsonModel::Str(file_uri.text))] + opt_field_enc("label"@, label)
                + opt_field_enc("remoteAuthority"@, remote_authority),
        ),
    }
}

/// The JSON document that a list of recent items encodes to.
pub open spec fn encode_history_spec(rs: Seq<RecentModel>) -> JsonModel {
    JsonModel::Object(
        seq![
            ("entries"@, JsonModel::Array(rs.map_values(|r: RecentModel| encode_entry_spec(r)))),
        ],
    )
}

proof fn lemma_obj_lookup_skip(fs: Seq<(Seq<char>, JsonModel)>, key: Seq<char>, i: int)
    requires
        0 <= i <= fs.len(),
        forall|j: int| 0 <= j < i ==> fs[j].0 != key,
    ensures
        obj_lookup(fs, key) == obj_lookup(fs.skip(i), key),
    decreases i,
{
    if i > 0 {
        lemma_obj_lookup_skip(fs.drop_first(), key, i - 1);
        assert(fs.drop_first().skip(i - 1) =~= fs.skip(i));
    } else {
        assert(fs.skip(0) =~= fs);
    }
}

/// A reference to the value of the first field named `key`, if any.
fn lookup_field<'a>(fields: &'a Vec<(String, Json)>, key: &str) -> (r: Option<&'a Json>)
    ensures
        match obj_lookup(fields_model(fields@), key@) {
            Some(m) => r is Some && r->0@ == m,
            None => r is None,
        },
{
    let n = fields.len();
    let mut i: usize = 0;
    while i < n
        invariant
            i <= n,
            n == fields@.len(),
            forall|j: int| 0 <= j < i ==> fields@[j].0@ != key@,
        decreases n - i,
    {
        if str_eq(fields[i].0.as_str(), key) {
            proof {
                lemma_obj_lookup_skip(fields_model(fields@), key@, i as int);
                assert(fields_model(fields@).skip(i as int)[0] == fields_model(fields@)[i as int]);
            }
            return Some(&fields[i].1);
        }
        i += 1;
    }
    proof {
        lemma_obj_lookup_skip(fields_model(fields@), key@, n as int);
        assert(fields_model(fields@).skip(n as int).len() == 0);
    }
    None
}

/// An optional string field, cloned out of the object.
fn opt_str_get(fields: &Vec<(String, Json)>, key: &str) -> (r: Option<Option<String>>)
    ensures
        match opt_str_field(fields_model(fields@), key@) {
            Some(opt) => r is Some && r->0.deep_view() == opt,
            None => r is None,
        },
{
    match lookup_field(fields, key) {
        None => Some(None),
        Some(j) => match j {
            Json::Str(s) => Some(Some(s.clone())),
            Json::Null => Some(None),
            _ => None,
        },
    }
}

/// Decodes the workspace shape.
fn try_workspace(v: &Json) -> (r: Option<Recent>)
    ensures
        match try_workspace_spec(v@) {
            Some(m) => r is Some && r->0.deep_view() == m,
            None => r is None,
        },
{
    let fields = match v {
        Json::Object(fs) => fs,
        _ => {
            return None;
        },
    };
    let w = match lookup_field(fields, "workspace") {
        Some(w) => w,
        None => {
            return None;
        },
    };
    let wfields = match w {
        Json::Object(wfs) => wfs,
        _ => {
            return None;
        },
    };
    let id = match lookup_field(wfields, "id") {
        Some(j) => match j {
            Json::Str(s) => s,
            _ => {
                return None;
            },
        },
        None => {
            return None;
        },
    };
    let cp = match lookup_field(wfields, "configPath") {
        Some(j) => match j {
            Json::Str(s) => s,
            _ => {
                return None;
            },
        },
        None => {
            return None;
        },
    };
    let loc = match Location::new(cp.as_str()) {
        Some(l) => l,
        None => {
            return None;
        },
    };
    let label = match opt_str_get(fields, "label") {
        Some(l) => l,
        None => {
            return None;
        },
    };
    let ra = match opt_str_get(fields, "remoteAuthority") {
        Some(x) => x,
        None => {
            return None;
        },
    };
    Some(
        Recent::Workspace {
            workspace: WorkspaceIdentifier { id: id.clone(), config_path: loc },
            label,
            remote_authority: ra,
        },
    )
}

/// Decodes the folder or file shape keyed by `key`.
fn try_uri(v: &Json, key: &str, is_folder: bool) -> (r: Option<Recent>)
    ensures
        match try_uri_spec(v@, key@, is_folder) {
            Some(m) => r is Some && r->0.deep_view() == m,
            None => r is None,
        },
{
    let fields = match v {
        Json::Object(fs) => fs,
        _ => {
            return None;
        },
    };
    let u = match lookup_field(fields, key) {
        Some(j) => match j {
            Json::Str(s) => s,
            _ => {
                return None;
            },
        },
        None => {
            return None;
        },
    };
    let loc = match Location::new(u.as_str()) {
        Some(l) => l,
        None => {
            return None;
        },
    };
    let label = match opt_str_get(fields, "label") {
        Some(l) => l,
        None => {
            return None;
        },
    };
    let ra = match opt_str_get(fields, "remoteAuthority") {
        Some(x) => x,
        None => {
            return None;
        },
    };
    if is_folder {
        Some(Recent::Folder { folder_uri: loc, label, remote_authority: ra })
    } else {
        Some(Recent::File { file_uri: loc, label, remote_authority: ra })
    }
}

/// Decodes one array element into a recent item, or `None` when it matches
/// none of the three variant shapes.
pub fn decode_entry(v: &Json) -> (r: Option<Recent>)
    ensures
        match decode_entry_spec(v@) {
            Some(m) => r is Some && r->0.deep_view() == m,
            None => r is None,
        },
{
    match try_workspace(v) {
        Some(r) => Some(r),
        None => match try_uri(v, "folderUri", true) {
            Some(r) => Some(r),
            None => try_uri(v, "fileUri", false),
        },
    }
}

/// Decodes a history document into the ordered list of recent items.
///
/// Fails with `SchemaError` when the document is no object with an
/// `entries` array; an element that matches no variant shape is dropped,
/// and with `local_only` so is every item not on the local filesystem.
pub fn decode_history(v: &Json, local_only: bool) -> (r: Result<Vec<Recent>, RecentError>)
    ensures
        match decode_history_spec(v@, local_only) {
            Ok(ms) => r is Ok && r->Ok_0.deep_view() == ms,
            Err(e) => r == Err::<Vec<Recent>, RecentError>(e),
        },
{
    let fields = match v {
        Json::Object(fs) => fs,
        _ => {
            return Err(RecentError::SchemaError);
        },
    };
    let entries_json = match lookup_field(fields, "entries") {
        Some(j) => j,
        None => {
            return Err(RecentError::SchemaError);
        },
    };
    let items = match entries_json {
        Json::Array(a) => a,
        _ => {
            return Err(RecentError::SchemaError);
        },
    };
    let ghost ims = items_model(items@);
    let n = items.len();
    let mut out: Vec<Recent> = Vec::new();
    let mut i: usize = 0;
    while i < n
        invariant
            i <= n,
            n == items@.len(),
            ims == items_model(items@),
            ims.len() == n,
            out.deep_view() == decode_entries_spec(ims.take(i as int), local_only),
        decreases n - i,
    {
        proof {
            assert(ims.take(i as int + 1).drop_last() =~= ims.take(i as int));
            assert(ims.take(i as int + 1).last() == items@[i as int]@);
        }
        match decode_entry(&items[i]) {
            Some(rec) => {
                let keep = !local_only || rec.is_local();
                let ghost m = rec.deep_view();
                if keep {
                    out.push(rec);
                }
                proof {
                    if keep {
                        assert(out.deep_view() =~= decode_entries_spec(ims.take(i as int), local_only).push(m));
                    }
                }
            },
            None => {},
        }
        i += 1;
    }
    proof {
        assert(ims.take(n as int) =~= ims);
    }
    Ok(out)
}

/// Decodes the history JSON text into the ordered list of recent items.
///
/// Fails with `Corrupt` when the text is not valid JSON, and with
/// `SchemaError` when the document has no `entries` array at its top level.
pub fn read_history(text: &str, local_only: bool) -> (r: Result<Vec<Recent>, RecentError>)
    ensures
        match json_parse(text@) {
            None => r == Err::<Vec<Recent>, RecentError>(RecentError::Corrupt),
            Some(v) => match decode_history_spec(v, local_only) {
                Ok(ms) => r is Ok && r->Ok_0.deep_view() == ms,
                Err(e) => r == Err::<Vec<Recent>, RecentError>(e),
            },
        },
{
    match parse_json(text) {
        None => Err(RecentError::Corrupt),
        Some(j) => decode_history(&j, local_only),
    }
}

/// Encodes one recent item as its JSON object.
pub fn encode_entry(r: &Recent) -> (j: Json)
    ensures
        j@ == encode_entry_spec(r.deep_view()),
{
    let mut fields: Vec<(String, Json)> = Vec::new();
    match r {
        Recent::Workspace { workspace, label, remote_authority } => {
            let mut wf: Vec<(String, Json)> = Vec::new();
            wf.push(("id".to_owned(), Json::Str(workspace.id.clone())));
            wf.push(("configPath".to_owned(), Json::Str(workspace.config_path.as_str().to_owned())));
            proof {
                assert(fields_model(wf@) =~= seq![
                    ("id"@, JsonModel::Str(workspace.id@)),
                    ("configPath"@, JsonModel::Str(workspace.config_path@.text)),
                ]);
            }
            fields.push(("workspace".to_owned(), Json::Object(wf)));
            push_opt(&mut fields, "label", label);
            push_opt(&mut fields, "remoteAuthority", remote_authority);
            let j = Json::Object(fields);
            proof {
                assert(j@ == encode_entry_spec(r.deep_view())) by {
                    assert(fields_model(fields@) =~= seq![
                        (
                            "workspace"@,
                            JsonModel::Object(seq![
                                ("id"@, JsonModel::Str(workspace.id@)),
                                ("configPath"@, JsonModel::Str(workspace.config_path@.text)),
                            ]),
                        ),
                    ] + opt_field_enc("label"@, label.deep_view()) + opt_field_enc(
                        "remoteAuthority"@,
                        remote_authority.deep_view(),
                    ));
                }
            }
            j
        },
        Recent::Folder { folder_uri, label, remote_authority } => {
            fields.push(("folderUri".to_owned(), Json::Str(folder_uri.as_str().to_owned())));
            push_opt(&mut fields, "label", label);
            push_opt(&mut fields, "remoteAuthority", remote_authority);
            let j = Json::Object(fields);
            proof {
                assert(j@ == encode_entry_spec(r.deep_view())) by {
                    assert(fields_model(fields@) =~= seq![
                        ("folderUri"@, JsonModel::Str(folder_uri@.text)),
                    ] + opt_field_enc("label"@, label.deep_view()) + opt_field_enc(
                        "remoteAuthority"@,
                        remote_authority.deep_view(),
                    ));
                }
            }
            j
        },
        Recent::File { file_uri, label, remote_authority } => {
            fields.push(("fileUri".to_owned(), Json::Str(file_uri.as_str().to_owned())));
            push_opt(&mut fields, "label", label);
            push_opt(&mut fields, "remoteAuthority", remote_authority);
            let j = Json::Object(fields);
            proof {
                assert(j@ == encode_entry_spec(r.deep_view())) by {
                    assert(fields_model(fields@) =~= seq![
                        ("fileUri"@, JsonModel::Str(file_uri@.text)),
                    ] + opt_field_enc("label"@, label.deep_view()) + opt_field_enc(
                        "remoteAuthority"@,
                        remote_authority.deep_view(),
                    ));
                }
            }
            j
        },
    }
}

/// Appends one optional string field.
fn push_opt(fields: &mut Vec<(String, Json)>, key: &str, v: &Option<String>)
    ensures
        fields_model(final(fields)@) == fields_model(old(fields)@) + opt_field_enc(
            key@,
            v.deep_view(),
        ),
{
    match v {
        Some(s) => {
            fields.push((key.to_owned(), Json::Str(s.clone())));
            proof {
                assert(fields_model(final(fields)@) =~= fields_model(old(fields)@) + opt_field_enc(
                    key@,
                    v.deep_view(),
                ));
            }
        },
        None => {
            proof {
                assert(fields_model(final(fields)@) =~= fields_model(old(fields)@) + opt_field_enc(
                    key@,
                    v.deep_view(),
                ));
            }
        },
    }
}

/// Encodes a list of recent items as the history document.
pub fn encode_history(entries: &Vec<Recent>) -> (j: Json)
    ensures
        j@ == encode_history_spec(entries.deep_view()),
{
    let n = entries.len();
    let mut items: Vec<Json> = Vec::new();
    let mut i: usize = 0;
    while i < n
        invariant
            i <= n,
            n == entries@.len(),
            items@.len() == i,
            forall|k: int|
                0 <= k < i ==> items_model(items@)[k] == encode_entry_spec(
                    entries.deep_view()[k],
                ),
        decreases n - i,
    {
        let j = encode_entry(&entries[i]);
        let ghost prev = items@;
        items.push(j);
        i += 1;
        proof {
            assert forall|k: int|
                0 <= k < i implies items_model(items@)[k] == encode_entry_spec(
                entries.deep_view()[k],
            ) by {
                if k < i - 1 {
                    assert(items@[k] == prev[k]);
                    assert(items_model(items@)[k] == json_model(items@[k]));
                    assert(items_model(prev)[k] == json_model(prev[k]));
                } else {
                    assert(items_model(items@)[k] == json_model(items@[k]));
                }
            }
        }
    }
    let mut fields: Vec<(String, Json)> = Vec::new();
    fields.push(("entries".to_owned(), Json::Array(items)));
    let j = Json::Object(fields);
    proof {
        let ghost spec_items = entries.deep_view().map_values(
            |r: RecentModel| encode_entry_spec(r),
        );
        assert(items_model(items@) =~= spec_items);
        assert(fields_model(fields@) =~= seq![("entries"@, JsonModel::Array(spec_items))]);
    }
    j
}

/// Encodes a list of recent items as the history JSON text, ready to be
/// written back to the store.
pub fn dump_history(entries: &Vec<Recent>) -> (r: String)
    ensures
        r@ == json_dump(encode_history_spec(entries.deep_view())),
{
    let j = encode_history(entries);
    dump_json(&j)
}

proof fn lemma_distinct_keys()
    ensures
        "workspace"@ != "folderUri"@,
        "workspace"@ != "fileUri"@,
        "workspace"@ != "label"@,
        "workspace"@ != "remoteAuthority"@,
        "folderUri"@ != "fileUri"@,
        "folderUri"@ != "label"@,
        "folderUri"@ != "remoteAuthority"@,
        "fileUri"@ != "label"@,
        "fileUri"@ != "remoteAuthority"@,
        "label"@ != "remoteAuthority"@,
        "id"@ != "configPath"@,
{
    reveal_strlit("workspace");
    reveal_strlit("folderUri");
    reveal_strlit("fileUri");
    reveal_strlit("label");
    reveal_strlit("remoteAuthority");
    reveal_strlit("id");
    reveal_strlit("configPath");
    assert("workspace"@.len() == 9);
    assert("folderUri"@.len() == 9);
    assert("fileUri"@.len() == 7);
    assert("label"@.len() == 5);
    assert("remoteAuthority"@.len() == 15);
    assert("id"@.len() == 2);
    assert("configPath"@.len() == 10);
    assert("workspace"@[0] != "folderUri"@[0]);
}

/// Lookups over one encoded entry's field list: the discriminating field is
/// found, the optional fields come back exactly as encoded, and a key that
/// names none of them is not found.
proof fn lemma_lookup_enc(
    first: (Seq<char>, JsonModel),
    label: Option<Seq<char>>,
    ra: Option<Seq<char>>,
    other: Seq<char>,
)
    requires
        first.0 != "label"@,
        first.0 != "remoteAuthority"@,
        other != first.0,
        other != "label"@,
        other != "remoteAuthority"@,
    ensures
        ({
            let fs = seq![first] + opt_field_enc("label"@, label) + opt_field_enc(
                "remoteAuthority"@,
                ra,
            );
            obj_lookup(fs, first.0) == Some(first.1) && opt_str_field(fs, "label"@) == Some(label)
                && opt_str_field(fs, "remoteAuthority"@) == Some(ra) && obj_lookup(fs, other)
                == None::<JsonModel>
        }),
{
    lemma_distinct_keys();
    reveal_with_fuel(obj_lookup, 5);
    let fs = seq![first] + opt_field_enc("label"@, label) + opt_field_enc("remoteAuthority"@, ra);
    assert(fs[0] == first);
    let tail1 = opt_field_enc("label"@, label) + opt_field_enc("remoteAuthority"@, ra);
    assert(fs.drop_first() =~= tail1);
    match label {
        Some(l) => {
            assert(tail1[0] == ("label"@, JsonModel::Str(l)));
            assert(tail1.drop_first() =~= opt_field_enc("remoteAuthority"@, ra));
        },
        None => {
            assert(tail1 =~= opt_field_enc("remoteAuthority"@, ra));
        },
    }
    match ra {
        Some(s) => {
            assert(opt_field_enc("remoteAuthority"@, ra) == seq![
                ("remoteAuthority"@, JsonModel::Str(s)),
            ]);
            assert(opt_field_enc("remoteAuthority"@, ra).drop_first() =~= Seq::<
                (Seq<char>, JsonModel),
            >::empty());
        },
        None => {},
    }
}

/// Law: decoding one encoded entry gives the entry back, for every recent
/// item whose locator is well formed.
pub proof fn lemma_entry_round_trip(r: RecentModel)
    requires
        r.wf(),
    ensures
        decode_entry_spec(encode_entry_spec(r)) == Some(r),
{
    lemma_distinct_keys();
    reveal_with_fuel(obj_lookup, 5);
    match r {
        RecentModel::Workspace { workspace, label, remote_authority } => {
            let wfs = seq![
                ("id"@, JsonModel::Str(workspace.id)),
                ("configPath"@, JsonModel::Str(workspace.config_path.text)),
            ];
            let first = ("workspace"@, JsonModel::Object(wfs));
            lemma_lookup_enc(first, label, remote_authority, "folderUri"@);
            lemma_lookup_enc(first, label, remote_authority, "fileUri"@);
            assert(obj_lookup(wfs, "id"@) == Some(JsonModel::Str(workspace.id)));
            assert(wfs.drop_first() =~= seq![
                ("configPath"@, JsonModel::Str(workspace.config_path.text)),
            ]);
            assert(obj_lookup(wfs, "configPath"@) == Some(
                JsonModel::Str(workspace.config_path.text),
            ));
            assert(decode_location(workspace.config_path.text) == Some(workspace.config_path));
        },
        RecentModel::Folder { folder_uri, label, remote_authority } => {
            let first = ("folderUri"@, JsonModel::Str(folder_uri.text));
            lemma_lookup_enc(first, label, remote_authority, "workspace"@);
            assert(decode_location(folder_uri.text) == Some(folder_uri));
            assert(try_workspace_spec(encode_entry_spec(r)) is None);
        },
        RecentModel::File { file_uri, label, remote_authority } => {
            let first = ("fileUri"@, JsonModel::Str(file_uri.text));
            lemma_lookup_enc(first, label, remote_authority, "workspace"@);
            lemma_lookup_enc(first, label, remote_authority, "folderUri"@);
            assert(decode_location(file_uri.text) == Some(file_uri));
            assert(try_workspace_spec(encode_entry_spec(r)) is None);
            assert(try_uri_spec(encode_entry_spec(r), "folderUri"@, true) is None);
        },
    }
}

proof fn lemma_entries_round_trip(entries: Seq<RecentModel>)
    requires
        forall|i: int| 0 <= i < entries.len() ==> entries[i].wf(),
    ensures
        decode_entries_spec(
            entries.map_values(|r: RecentModel| encode_entry_spec(r)),
            false,
        ) == entries,
    decreases entries.len(),
{
    let m = entries.map_values(|r: RecentModel| encode_entry_spec(r));
    if entries.len() == 0 {
        assert(m.len() == 0);
        assert(decode_entries_spec(m, false) =~= entries);
    } else {
        lemma_entries_round_trip(entries.drop_last());
        assert(m.drop_last() =~= entries.drop_last().map_values(
            |r: RecentModel| encode_entry_spec(r),
        ));
        lemma_entry_round_trip(entries.last());
        assert(m.last() == encode_entry_spec(entries.last()));
        assert(decode_entries_spec(m, false) == decode_entries_spec(m.drop_last(), false).push(
            entries.last(),
        ));
        assert(entries.drop_last().push(entries.last()) =~= entries);
    }
}

/// Law: decoding an encoded history list gives the list back — same order,
/// same variants, same fields, optional fields included — for every list of
/// recent items whose locators are well formed.
pub proof fn lemma_round_trip(entries: Seq<RecentModel>)
    requires
        forall|i: int| 0 <= i < entries.len() ==> entries[i].wf(),
    ensures
        decode_history_spec(encode_history_spec(entries), false) == Ok::<
            Seq<RecentModel>,
            RecentError,
        >(entries),
{
    reveal_with_fuel(obj_lookup, 2);
    let enc_items = entries.map_values(|r: RecentModel| encode_entry_spec(r));
    let fs = seq![("entries"@, JsonModel::Array(enc_items))];
    assert(obj_lookup(fs, "entries"@) == Some(JsonModel::Array(enc_items)));
    lemma_entries_round_trip(entries);
}

/// Law: an element that matches no variant shape never aborts nor changes
/// the decoding — a list with such an element appended decodes to the same
/// items as the list without it.
pub proof fn lemma_bad_entry_dropped(items: Seq<JsonModel>, bad: JsonModel, local_only: bool)
    requires
        decode_entry_spec(bad) is None,
    ensures
        decode_entries_spec(items.push(bad), local_only) == decode_entries_spec(
            items,
            local_only,
        ),
{
    assert(items.push(bad).drop_last() =~= items);
    assert(items.push(bad).last() == bad);
}

/// Law: decoding a history document with the local-only filter succeeds
/// exactly when the unfiltered decoding does, and then keeps exactly its
/// locally openable items, in their order.
pub proof fn lemma_history_local_filter(v: JsonModel)
    ensures
        (decode_history_spec(v, true) is Ok) == (decode_history_spec(v, false) is Ok),
        decode_history_spec(v, true) is Ok ==> decode_history_spec(v, true)->Ok_0
            == decode_history_spec(v, false)->Ok_0.filter(|r: RecentModel| r.is_local()),
        decode_history_spec(v, true) is Err ==> decode_history_spec(v, true)
            == decode_history_spec(v, false),
{
    match v {
        JsonModel::Object(fs) => match obj_lookup(fs, "entries"@) {
            Some(JsonModel::Array(items)) => lemma_local_filter(items),
            _ => {},
        },
        _ => {},
    }
}

/// Law: decoding with the local-only filter keeps exactly the locally
/// openable items of the unfiltered decoding, in their order.
pub proof fn lemma_local_filter(items: Seq<JsonModel>)
    ensures
        decode_entries_spec(items, true) == decode_entries_spec(items, false).filter(
            |r: RecentModel| r.is_local(),
        ),
    decreases items.len(),
{
    reveal(Seq::filter);
    let pred = |r: RecentModel| r.is_local();
    if items.len() == 0 {
        assert(decode_entries_spec(items, false).filter(pred) =~= decode_entries_spec(
            items,
            true,
        ));
    } else {
        lemma_local_filter(items.drop_last());
        let init_all = decode_entries_spec(items.drop_last(), false);
        match decode_entry_spec(items.last()) {
            Some(r) => {
                assert(decode_entries_spec(items, false) == init_all.push(r));
                assert(init_all.push(r).drop_last() =~= init_all);
                assert(init_all.push(r).last() == r);
            },
            None => {},
        }
    }
}

} // verus!
