//! The app-key export: the listing request, the keys as exported, and the
//! JSON body that is posted to the admin endpoint.
use vstd::prelude::*;
use vstd::string::StringExecFns;
use crate::admin_url::{import_key_url, url_text, url_text_with_path, ADMIN_IMPORT_PATH};
use crate::error::ExportError;

verus! {

/// The page of app-keys that is exported. Only this first page ever is.
pub const EXPORT_PAGE: u32 = 1;

/// The number of app-keys asked for on that page.
pub const EXPORT_PAGE_SIZE: u32 = 10;

/// A request to list app-keys: an optional identity filter and a page.
pub struct KeyListRequest {
    pub identity: Option<String>,
    pub page: u32,
    pub per_page: u32,
}

/// The app-key listing that the export sends: no identity filter, first page,
/// ten keys per page.
pub fn export_key_request() -> (r: KeyListRequest)
    ensures
        r.identity is None,
        r.page == 1,
        r.per_page == 10,
{
    KeyListRequest { identity: None, page: EXPORT_PAGE, per_page: EXPORT_PAGE_SIZE }
}

/// What the export reads of an app-key record: the key and its owner's node id.
pub struct AppKeyEntry {
    pub key: String,
    pub identity: String,
}

/// One exported key: the object `{"key": .., "nodeId": ..}`.
pub struct ExportedKey {
    pub key: String,
    pub node_id: String,
}

/// The exported key that stands for `k`.
pub open spec fn exports_as(k: AppKeyEntry, e: ExportedKey) -> bool {
    e.key@ == k.key@ && e.node_id@ == k.identity@
}

/// The keys as exported: one for each app-key, in the same order.
pub fn export_keys(keys: &Vec<AppKeyEntry>) -> (r: Vec<ExportedKey>)
    ensures
        r@.len() == keys@.len(),
        forall|i: int| 0 <= i < keys@.len() ==> exports_as(#[trigger] keys@[i], r@[i]),
{
    let mut r: Vec<ExportedKey> = Vec::new();
    let mut i: usize = 0;
    while i < keys.len()
        invariant
            i <= keys@.len(),
            r@.len() == i,
            forall|j: int| 0 <= j < i ==> exports_as(#[trigger] keys@[j], r@[j]),
        decreases keys@.len() - i,
    {
        let k = &keys[i];
        r.push(ExportedKey { key: k.key.clone(), node_id: k.identity.clone() });
        i = i + 1;
    }
    r
}

/// The lower-case hexadecimal digit for `n`, below 16.
pub open spec fn hex_digit(n: int) -> char {
    seq!['0', '1', '2', '3', '4', '5', '6', '7', '8', '9', 'a', 'b', 'c', 'd', 'e', 'f'][n]
}

/// How one character stands inside a JSON string literal: `"` and `\` are
/// escaped with a backslash, backspace, tab, line feed, form feed and carriage
/// return are written `\b \t \n \f \r`, any other control character below
/// 0x20 as `\u00` and two hexadecimal digits, and every other character as it is.
pub open spec fn escaped_char(c: char) -> Seq<char> {
    if c == '"' {
        seq!['\\', '"']
    } else if c == '\\' {
        seq!['\\', '\\']
    } else if c == '\x08' {
        seq!['\\', 'b']
    } else if c == '\t' {
        seq!['\\', 't']
    } else if c == '\n' {
        seq!['\\', 'n']
    } else if c == '\x0c' {
        seq!['\\', 'f']
    } else if c == '\r' {
        seq!['\\', 'r']
    } else if (c as u32) < 0x20 {
        seq!['\\', 'u', '0', '0', hex_digit((c as u32) as int / 16), hex_digit((c as u32) as int % 16)]
    } else {
        seq![c]
    }
}

/// The characters of `s`, each escaped as inside a JSON string literal.
pub open spec fn escaped_text(s: Seq<char>) -> Seq<char>
    decreases s.len(),
{
    if s.len() == 0 {
        Seq::empty()
    } else {
        escaped_text(s.drop_last()) + escaped_char(s.last())
    }
}

/// The JSON string literal for `s`: its characters escaped, between quotes.
pub open spec fn json_string_literal(s: Seq<char>) -> Seq<char> {
    seq!['"'] + escaped_text(s) + seq!['"']
}

/// Relies on serde_json::to_string: a `str` is written as one JSON string
/// literal, escaped as serde_json's escape table says, and writing into the
/// in-memory buffer does not fail.
#[verifier::external_body]
fn json_string(s: &str) -> (r: Result<String, serde_json::Error>)
    ensures
        r is Ok,
        r matches Ok(t) ==> t@ == json_string_literal(s@),
{
    serde_json::to_string(s)
}

/// The object for one key, from the two values already written as JSON
/// string literals.
pub open spec fn key_object_text(key_json: Seq<char>, node_json: Seq<char>) -> Seq<char> {
    "{\"key\":"@ + key_json + ",\"nodeId\":"@ + node_json + "}"@
}

/// The objects for `items`, in order, separated by commas.
pub open spec fn objects_text(items: Seq<(Seq<char>, Seq<char>)>) -> Seq<char>
    decreases items.len(),
{
    if items.len() == 0 {
        Seq::empty()
    } else {
        let last = key_object_text(items.last().0, items.last().1);
        if items.len() == 1 {
            last
        } else {
            objects_text(items.drop_last()) + ","@ + last
        }
    }
}

/// The JSON array of the objects for `items`, without whitespace.
pub open spec fn array_text(items: Seq<(Seq<char>, Seq<char>)>) -> Seq<char> {
    "["@ + objects_text(items) + "]"@
}

/// The key and node id of each exported key, written as JSON string literals.
pub open spec fn encoded_keys(keys: Seq<ExportedKey>) -> Seq<(Seq<char>, Seq<char>)> {
    keys.map_values(|k: ExportedKey| (json_string_literal(k.key@), json_string_literal(k.node_id@)))
}

/// The body that posts `keys`: the JSON array `[{"key":..,"nodeId":..},..]`.
pub open spec fn export_body_text(keys: Seq<ExportedKey>) -> Seq<char> {
    array_text(encoded_keys(keys))
}

/// With no keys to export, the body is still posted, as the empty array `[]`.
pub proof fn lemma_empty_export_body()
    ensures
        export_body_text(Seq::<ExportedKey>::empty()) == "[]"@,
        entries_body_text(Seq::<AppKeyEntry>::empty()) == "[]"@,
{
    reveal_strlit("[");
    reveal_strlit("]");
    reveal_strlit("[]");
    assert(encoded_keys(Seq::<ExportedKey>::empty()) =~= Seq::empty());
    assert(export_body_text(Seq::<ExportedKey>::empty()) =~= "[]"@);
    let none = Seq::<AppKeyEntry>::empty().map_values(
        |k: AppKeyEntry| (json_string_literal(k.key@), json_string_literal(k.identity@)),
    );
    assert(none =~= Seq::empty());
    assert(entries_body_text(Seq::<AppKeyEntry>::empty()) =~= "[]"@);
}

/// The JSON array of key objects, from each key's two values already written
/// as JSON string literals.
pub fn frame_key_array(items: &Vec<(String, String)>) -> (r: String)
    ensures
        r@ == array_text(items@.map_values(|p: (String, String)| (p.0@, p.1@))),
{
    let ghost views = items@.map_values(|p: (String, String)| (p.0@, p.1@));
    let mut r = String::from_str("[");
    let mut i: usize = 0;
    while i < items.len()
        invariant
            i <= items@.len(),
            views == items@.map_values(|p: (String, String)| (p.0@, p.1@)),
            r@ == "["@ + objects_text(views.subrange(0, i as int)),
        decreases items@.len() - i,
    {
        let ghost before = r@;
        if i > 0 {
            r.append(",");
        }
        r.append("{\"key\":");
        r.append(items[i].0.as_str());
        r.append(",\"nodeId\":");
        r.append(items[i].1.as_str());
        r.append("}");
        proof {
            let s = views.subrange(0, i + 1);
            assert(s.drop_last() =~= views.subrange(0, i as int));
            assert(s.last() == (items@[i as int].0@, items@[i as int].1@));
            if i == 0 {
                assert(views.subrange(0, 0) =~= Seq::<(Seq<char>, Seq<char>)>::empty());
                assert(objects_text(views.subrange(0, 0)) =~= Seq::<char>::empty());
            }
            assert(r@ =~= "["@ + objects_text(s));
        }
        i = i + 1;
    }
    r.append("]");
    proof {
        assert(views.subrange(0, items@.len() as int) =~= views);
    }
    r
}

/// The body that posts `keys`, with each value written by serde_json.
pub fn export_body(keys: &Vec<ExportedKey>) -> (r: String)
    ensures
        r@ == export_body_text(keys@),
{
    let mut items: Vec<(String, String)> = Vec::new();
    let mut i: usize = 0;
    while i < keys.len()
        invariant
            i <= keys@.len(),
            items@.len() == i,
            forall|j: int| 0 <= j < i ==> (#[trigger] items@[j]).0@ == json_string_literal(keys@[j].key@)
                && items@[j].1@ == json_string_literal(keys@[j].node_id@),
        decreases keys@.len() - i,
    {
        let key = json_string(keys[i].key.as_str()).unwrap();
        let node = json_string(keys[i].node_id.as_str()).unwrap();
        items.push((key, node));
        i = i + 1;
    }
    let body = frame_key_array(&items);
    proof {
        assert(items@.map_values(|p: (String, String)| (p.0@, p.1@)) =~= encoded_keys(keys@));
    }
    body
}

/// The outcome of the app-key listing with its two layers of error, the bus
/// transport's and the app-key service's, made one: each becomes `KeyList`
/// with its message.
pub fn key_list_result<T>(reply: Result<Result<T, String>, String>) -> (r: Result<T, ExportError>)
    ensures
        match reply {
            Ok(Ok(v)) => r == Ok::<T, ExportError>(v),
            Ok(Err(m)) => r matches Err(ExportError::KeyList(n)) && n@ == m@,
            Err(m) => r matches Err(ExportError::KeyList(n)) && n@ == m@,
        },
{
    match reply {
        Ok(Ok(v)) => Ok(v),
        Ok(Err(m)) => Err(ExportError::KeyList(m)),
        Err(m) => Err(ExportError::KeyList(m)),
    }
}

/// The body that exports `keys`: each app-key as `{"key":..,"nodeId":..}`,
/// in order.
pub open spec fn entries_body_text(keys: Seq<AppKeyEntry>) -> Seq<char> {
    array_text(keys.map_values(|k: AppKeyEntry| (json_string_literal(k.key@), json_string_literal(k.identity@))))
}

/// The POST of an app-key export, ready to send: the target URL and the JSON
/// body. The body is built first, then the URL, and the first error stops it.
pub fn prepare_export(keys: &Vec<AppKeyEntry>) -> (r: Result<(String, String), ExportError>)
    ensures
        r matches Ok((target, body)) ==> body@ == entries_body_text(keys@)
            && exists|rebased: url::Url| target@ == url_text_with_path(#[trigger] url_text(rebased), ADMIN_IMPORT_PATH@),
        r matches Err(e) ==> e is Url || e is Rebase,
{
    let exported = export_keys(keys);
    let body = export_body(&exported);
    proof {
        assert(encoded_keys(exported@) =~= keys@.map_values(
            |k: AppKeyEntry| (json_string_literal(k.key@), json_string_literal(k.identity@)),
        ));
    }
    let target = match import_key_url() {
        Ok(t) => t,
        Err(e) => return Err(e),
    };
    Ok((target, body))
}

} // verus!
