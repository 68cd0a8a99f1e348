//! Entities of the domain: content types, clip metadata, clipboard entries
//! and workspaces.

use vstd::prelude::*;
use crate::domain::ids::{new_id, uuid_variant, uuid_version, Uuid};
use crate::text::chars_of;

verus! {

/// Content types that the classifier detects. They persist (and travel to
/// the frontend) as plain text: `"text"`, `"code:rust"`, ...
#[derive(Debug, Clone, PartialEq, Eq)]
pub enum ContentType {
    Text,
    Url,
    Email,
    Json,
    PhoneNumber,
    Color,
    Code { language: Option<String> },
    FilePath,
    Command,
    Other,
}

/// A content type with its language as a character sequence.
pub enum ContentTypeView {
    Text,
    Url,
    Email,
    Json,
    PhoneNumber,
    Color,
    Code { language: Option<Seq<char>> },
    FilePath,
    Command,
    Other,
}

impl View for ContentType {
    type V = ContentTypeView;

    open spec fn view(&self) -> ContentTypeView {
        match self {
            ContentType::Text => ContentTypeView::Text,
            ContentType::Url => ContentTypeView::Url,
            ContentType::Email => ContentTypeView::Email,
            ContentType::Json => ContentTypeView::Json,
            ContentType::PhoneNumber => ContentTypeView::PhoneNumber,
            ContentType::Color => ContentTypeView::Color,
            ContentType::Code { language } => ContentTypeView::Code {
                language: match language {
                    Some(l) => Some(l@),
                    None => None,
                },
            },
            ContentType::FilePath => ContentTypeView::FilePath,
            ContentType::Command => ContentTypeView::Command,
            ContentType::Other => ContentTypeView::Other,
        }
    }
}

/// The persisted tags of the content types.
pub open spec fn tag_text() -> Seq<char> { seq!['t', 'e', 'x', 't'] }
pub open spec fn tag_url() -> Seq<char> { seq!['u', 'r', 'l'] }
pub open spec fn tag_email() -> Seq<char> { seq!['e', 'm', 'a', 'i', 'l'] }
pub open spec fn tag_json() -> Seq<char> { seq!['j', 's', 'o', 'n'] }
pub open spec fn tag_phone() -> Seq<char> { seq!['p', 'h', 'o', 'n', 'e'] }
pub open spec fn tag_color() -> Seq<char> { seq!['c', 'o', 'l', 'o', 'r'] }
pub open spec fn tag_code() -> Seq<char> { seq!['c', 'o', 'd', 'e'] }
pub open spec fn tag_file_path() -> Seq<char> { seq!['f', 'i', 'l', 'e', '_', 'p', 'a', 't', 'h'] }
pub open spec fn tag_command() -> Seq<char> { seq!['c', 'o', 'm', 'm', 'a', 'n', 'd'] }
pub open spec fn tag_other() -> Seq<char> { seq!['o', 't', 'h', 'e', 'r'] }

/// The tag of a content type without its language (`Code` gives `"code"`).
pub open spec fn type_tag(ct: ContentTypeView) -> Seq<char> {
    match ct {
        ContentTypeView::Text => tag_text(),
        ContentTypeView::Url => tag_url(),
        ContentTypeView::Email => tag_email(),
        ContentTypeView::Json => tag_json(),
        ContentTypeView::PhoneNumber => tag_phone(),
        ContentTypeView::Color => tag_color(),
        ContentTypeView::FilePath => tag_file_path(),
        ContentTypeView::Command => tag_command(),
        ContentTypeView::Other => tag_other(),
        ContentTypeView::Code { .. } => tag_code(),
    }
}

/// The persisted form of a content type: its tag, and for code with a known
/// language `"code:<language>"`.
pub open spec fn type_text(ct: ContentTypeView) -> Seq<char> {
    match ct {
        ContentTypeView::Code { language: Some(lang) } => tag_code() + seq![':'] + lang,
        _ => type_tag(ct),
    }
}

/// `i` is the position of the first `':'` in `s`.
pub open spec fn is_first_colon(s: Seq<char>, i: int) -> bool {
    &&& 0 <= i < s.len()
    &&& s[i] == ':'
    &&& forall|j: int| 0 <= j < i ==> s[j] != ':'
}

/// The content type that a tag names (`"code"` alone: code of no known
/// language); unknown tags give `Other`.
pub open spec fn type_of_tag(raw: Seq<char>) -> ContentTypeView {
    if raw == tag_text() {
        ContentTypeView::Text
    } else if raw == tag_url() {
        ContentTypeView::Url
    } else if raw == tag_email() {
        ContentTypeView::Email
    } else if raw == tag_json() {
        ContentTypeView::Json
    } else if raw == tag_phone() {
        ContentTypeView::PhoneNumber
    } else if raw == tag_color() {
        ContentTypeView::Color
    } else if raw == tag_file_path() {
        ContentTypeView::FilePath
    } else if raw == tag_command() {
        ContentTypeView::Command
    } else if raw == tag_code() {
        ContentTypeView::Code { language: None }
    } else {
        ContentTypeView::Other
    }
}

/// The content type that a persisted form denotes: text that splits at its
/// first `':'` into `"code"` and a language is code in that language; any
/// other text is looked up as a tag.
pub open spec fn parsed_type(raw: Seq<char>) -> ContentTypeView {
    if exists|i: int| is_first_colon(raw, i) {
        let i = choose|i: int| is_first_colon(raw, i);
        if raw.take(i) == tag_code() {
            ContentTypeView::Code { language: Some(raw.skip(i + 1)) }
        } else {
            type_of_tag(raw)
        }
    } else {
        type_of_tag(raw)
    }
}

/// Does `v` hold exactly the characters of `lit`?
fn chars_equal(v: &Vec<char>, lit: &str) -> (b: bool)
    ensures
        b == (v@ == lit@),
{
    let n = lit.unicode_len();
    if v.len() != n {
        return false;
    }
    let mut i: usize = 0;
    while i < n
        invariant
            n == lit@.len(),
            v@.len() == n,
            i <= n,
            forall|j: int| 0 <= j < i ==> v@[j] == lit@[j],
        decreases n - i,
    {
        if v[i] != lit.get_char(i) {
            return false;
        }
        i = i + 1;
    }
    proof {
        assert(v@ =~= lit@);
    }
    true
}

fn tag_string(lit: &str) -> (s: String)
    ensures
        s@ == lit@,
{
    String::from_str(lit)
}

/// The tag of a content type (`to_str` in the persisted vocabulary).
fn to_str(ct: &ContentType) -> (s: String)
    ensures
        s@ == type_tag(ct@),
{
    proof {
        reveal_strlit("text");
        reveal_strlit("url");
        reveal_strlit("email");
        reveal_strlit("json");
        reveal_strlit("phone");
        reveal_strlit("color");
        reveal_strlit("file_path");
        reveal_strlit("command");
        reveal_strlit("other");
        reveal_strlit("code");
    }
    let s = match ct {
        ContentType::Text => tag_string("text"),
        ContentType::Url => tag_string("url"),
        ContentType::Email => tag_string("email"),
        ContentType::Json => tag_string("json"),
        ContentType::PhoneNumber => tag_string("phone"),
        ContentType::Color => tag_string("color"),
        ContentType::FilePath => tag_string("file_path"),
        ContentType::Command => tag_string("command"),
        ContentType::Other => tag_string("other"),
        ContentType::Code { .. } => tag_string("code"),
    };
    proof {
        assert(s@ =~= type_tag(ct@));
    }
    s
}

fn lookup_tag(v: &Vec<char>) -> (ct: ContentType)
    ensures
        ct@ == type_of_tag(v@),
{
    proof {
        reveal_strlit("text");
        reveal_strlit("url");
        reveal_strlit("email");
        reveal_strlit("json");
        reveal_strlit("phone");
        reveal_strlit("color");
        reveal_strlit("file_path");
        reveal_strlit("command");
        reveal_strlit("code");
        assert("code"@ =~= tag_code());
        assert("text"@ =~= tag_text());
        assert("url"@ =~= tag_url());
        assert("email"@ =~= tag_email());
        assert("json"@ =~= tag_json());
        assert("phone"@ =~= tag_phone());
        assert("color"@ =~= tag_color());
        assert("file_path"@ =~= tag_file_path());
        assert("command"@ =~= tag_command());
    }
    if chars_equal(v, "text") {
        ContentType::Text
    } else if chars_equal(v, "url") {
        ContentType::Url
    } else if chars_equal(v, "email") {
        ContentType::Email
    } else if chars_equal(v, "json") {
        ContentType::Json
    } else if chars_equal(v, "phone") {
        ContentType::PhoneNumber
    } else if chars_equal(v, "color") {
        ContentType::Color
    } else if chars_equal(v, "file_path") {
        ContentType::FilePath
    } else if chars_equal(v, "command") {
        ContentType::Command
    } else if chars_equal(v, "code") {
        ContentType::Code { language: None }
    } else {
        ContentType::Other
    }
}

/// Two positions that are both the first `':'` are the same position.
proof fn lemma_first_colon_unique(s: Seq<char>, i: int, j: int)
    requires
        is_first_colon(s, i),
        is_first_colon(s, j),
    ensures
        i == j,
{
    if i < j {
        assert(s[i] != ':');
    } else if j < i {
        assert(s[j] != ':');
    }
}

impl ContentType {
    /// Stable identifier for persistence (the `content_type` column). Code
    /// with a language is written `"code:<language>"`.
    pub fn as_str(&self) -> (s: String)
        ensures
            s@ == type_text(self@),
    {
        match self {
            ContentType::Code { language: Some(lang) } => {
                proof {
                    reveal_strlit("code:");
                }
                let mut s = String::from_str("code:");
                s.append(lang.as_str());
                proof {
                    assert(s@ =~= type_text(self@));
                }
                s
            },
            other => to_str(other),
        }
    }

    /// The content type of a persisted (or serialised) form. Unknown forms
    /// give `Other`, so that newer forms are still read.
    pub fn parse(raw: &str) -> (ct: ContentType)
        ensures
            ct@ == parsed_type(raw@),
    {
        let v = chars_of(raw);
        let n = v.len();
        let mut i: usize = 0;
        while i < n && v[i] != ':'
            invariant
                v@ == raw@,
                n == v.len(),
                i <= n,
                forall|j: int| 0 <= j < i ==> v@[j] != ':',
            decreases n - i,
        {
            i = i + 1;
        }
        if i < n {
            proof {
                assert(is_first_colon(raw@, i as int));
                let k = choose|k: int| is_first_colon(raw@, k);
                lemma_first_colon_unique(raw@, i as int, k);
                reveal_strlit("code");
                assert("code"@ =~= tag_code());
            }
            let prefix = raw.substring_char(0, i);
            let prefix_chars = chars_of(prefix);
            if chars_equal(&prefix_chars, "code") {
                let lang = raw.substring_char(i + 1, n);
                proof {
                    assert(prefix@ =~= raw@.take(i as int));
                    assert(lang@ =~= raw@.skip(i + 1));
                }
                return ContentType::Code { language: Some(String::from_str(lang)) };
            }
            proof {
                assert(prefix@ =~= raw@.take(i as int));
            }
        } else {
            proof {
                assert forall|k: int| !is_first_colon(raw@, k) by {
                    if 0 <= k < raw@.len() {
                        assert(v@[k] != ':');
                    }
                }
            }
        }
        lookup_tag(&v)
    }
}

/// The tags contain no `':'`.
proof fn lemma_tags_have_no_colon(ct: ContentTypeView)
    ensures
        forall|i: int| 0 <= i < type_tag(ct).len() ==> type_tag(ct)[i] != ':',
{
}

/// Reading back what `as_str` wrote gives the same content type: `parse`
/// rebuilds every content type from its persisted form.
pub proof fn law_parse_inverts_as_str(ct: ContentTypeView)
    ensures
        parsed_type(type_text(ct)) == ct,
{
    let t = type_text(ct);
    match ct {
        ContentTypeView::Code { language: Some(lang) } => {
            assert(is_first_colon(t, 4));
            let k = choose|k: int| is_first_colon(t, k);
            lemma_first_colon_unique(t, 4, k);
            assert(t.take(4) =~= tag_code());
            assert(t.skip(5) =~= lang);
        },
        _ => {
            lemma_tags_have_no_colon(ct);
            assert(!exists|i: int| is_first_colon(t, i));
            assert(t == type_tag(ct));
        },
    }
}

/// `serde_json::Map`, the JSON object; its fields are named by `json_fields`.
#[verifier::external_type_specification]
#[verifier::external_body]
#[verifier::reject_recursive_types(K)]
#[verifier::reject_recursive_types(V)]
pub struct ExJsonMap<K, V>(serde_json::Map<K, V>);

/// `serde_json::Value`, a JSON value, carried opaquely.
#[verifier::external_type_specification]
#[verifier::external_body]
pub struct ExJsonValue(serde_json::Value);

/// A JSON object: fields by key, in the key order of `serde_json`.
pub type JsonObject = serde_json::Map<String, serde_json::Value>;

/// The fields of a JSON object, by key.
pub uninterp spec fn json_fields(m: JsonObject) -> Map<Seq<char>, serde_json::Value>;

/// The fields of an empty object.
pub open spec fn no_fields() -> Map<Seq<char>, serde_json::Value> {
    Map::empty()
}

/// `serde_json::Map::new`: an object without fields.
#[verifier::external_body]
fn json_map_new() -> (m: JsonObject)
    ensures
        json_fields(m) == no_fields(),
{
    serde_json::Map::new()
}

/// `serde_json::Map::insert`: sets the field `key` to `value`, replacing
/// any earlier value of that key.
#[verifier::external_body]
fn json_map_insert(m: &mut JsonObject, key: &str, value: serde_json::Value)
    ensures
        json_fields(*final(m)) == json_fields(*old(m)).insert(key@, value),
{
    m.insert(key.to_string(), value);
}

/// `serde_json::Map::get`: the value of the field `key`, if there is one.
#[verifier::external_body]
fn json_map_get<'a>(m: &'a JsonObject, key: &str) -> (r: Option<
    &'a serde_json::Value,
>)
    ensures
        match r {
            Some(v) => json_fields(*m).contains_key(key@) && *v == json_fields(*m)[key@],
            None => !json_fields(*m).contains_key(key@),
        },
{
    m.get(key)
}

/// The text that `serde_json::to_string` writes for an object with these
/// fields.
pub uninterp spec fn json_object_text(fields: Map<Seq<char>, serde_json::Value>) -> Seq<char>;

/// `Clone` of `serde_json::Map`: a copy with the same fields.
pub assume_specification[ <serde_json::Map<String, serde_json::Value> as Clone>::clone ](
    m: &serde_json::Map<String, serde_json::Value>,
) -> (r: serde_json::Map<String, serde_json::Value>)
    ensures
        json_fields(r) == json_fields(*m),
;

/// `serde_json::to_string` on an object: its JSON text. The crate documents
/// that serialisation fails only where a `Serialize` impl decides to fail or
/// a map has keys that are not strings; an object's keys are strings, and the
/// impls of `Map<String, Value>` and `Value` only hand their parts to the
/// serialiser, which writes into a `Vec<u8>`: the call always succeeds.
#[verifier::external_body]
fn json_map_to_string(m: &JsonObject) -> (r: Result<
    String,
    serde_json::Error,
>)
    ensures
        r is Ok,
        r matches Ok(s) ==> s@ == json_object_text(json_fields(*m)),
{
    serde_json::to_string(m)
}

/// The fields of the object that `serde_json::from_str` reads from a text,
/// or `None` where the text is no JSON object.
pub uninterp spec fn json_object_parsed(text: Seq<char>) -> Option<Map<Seq<char>, serde_json::Value>>;

/// `serde_json::from_str` into an object; `None` on error.
#[verifier::external_body]
fn json_map_from_str(text: &str) -> (r: Option<JsonObject>)
    ensures
        match r {
            Some(m) => json_object_parsed(text@) == Some(json_fields(m)),
            None => json_object_parsed(text@) is None,
        },
{
    serde_json::from_str(text).ok()
}

/// Enriched metadata of a clip (URL domain, colour format, language, source
/// application, ...), stored as JSON in `clips.metadata`.
#[derive(Debug, Clone, PartialEq, Eq)]
pub struct ClipMetadata {
    /// Open, type-specific fields.
    pub fields: JsonObject,
}

impl ClipMetadata {
    /// The fields, by key.
    pub open spec fn contents(self) -> Map<Seq<char>, serde_json::Value> {
        json_fields(self.fields)
    }

    /// Metadata without fields.
    pub fn new() -> (m: ClipMetadata)
        ensures
            m.contents() == no_fields(),
    {
        ClipMetadata { fields: json_map_new() }
    }

    /// The metadata with the field `key` set to `value`.
    pub fn with_field(self, key: &str, value: serde_json::Value) -> (m: ClipMetadata)
        ensures
            m.contents() == self.contents().insert(key@, value),
    {
        let mut fields = self.fields;
        json_map_insert(&mut fields, key, value);
        ClipMetadata { fields }
    }

    /// The value of the field `key`, if it is set.
    pub fn get(&self, key: &str) -> (r: Option<&serde_json::Value>)
        ensures
            match r {
                Some(v) => self.contents().contains_key(key@) && *v == self.contents()[key@],
                None => !self.contents().contains_key(key@),
            },
    {
        json_map_get(&self.fields, key)
    }

    /// The fields as JSON text (the `clips.metadata` column). Serialising
    /// an object never fails.
    pub fn to_json(&self) -> (r: Result<String, serde_json::Error>)
        ensures
            r is Ok,
            r matches Ok(s) ==> s@ == json_object_text(self.contents()),
    {
        json_map_to_string(&self.fields)
    }

    /// The metadata that a stored JSON text holds; text that is no JSON
    /// object gives metadata without fields.
    pub fn from_json_or_empty(text: &str) -> (m: ClipMetadata)
        ensures
            m.contents() == match json_object_parsed(text@) {
                Some(fields) => fields,
                None => no_fields(),
            },
    {
        match json_map_from_str(text) {
            Some(fields) => ClipMetadata { fields },
            None => ClipMetadata::new(),
        }
    }
}

/// A field set with `with_field` is what `get` reads back, and the other
/// fields keep their values.
pub proof fn law_get_reads_with_field(before: ClipMetadata, after: ClipMetadata, key: Seq<char>, value: serde_json::Value)
    requires
        after.contents() == before.contents().insert(key, value),
    ensures
        after.contents().contains_key(key),
        after.contents()[key] == value,
        forall|k: Seq<char>| k != key ==> (#[trigger] after.contents().contains_key(k)
            == before.contents().contains_key(k)),
        forall|k: Seq<char>| k != key && before.contents().contains_key(k) ==> #[trigger] after.contents()[k]
            == before.contents()[k],
{
}

/// The root entity of the domain: one item captured from the clipboard.
#[derive(Debug, Clone, PartialEq, Eq)]
pub struct ClipboardEntry {
    pub id: Uuid,
    pub content: String,
    pub content_type: ContentType,
    pub metadata: ClipMetadata,
    pub content_hash: String,
    pub is_image: bool,
    pub image_path: Option<String>,
    pub copy_count: i64,
    pub favorite: bool,
    pub pinned: bool,
    pub is_secret: bool,
    pub created_at: String,
    pub updated_at: String,
    pub last_copied_at: String,
    pub workspace_id: Option<Uuid>,
}

impl ClipboardEntry {
    /// `self` and `other` agree on every field but the copy count, the
    /// workspace and the three timestamps that copying and moving touch.
    pub open spec fn same_identity(self, other: ClipboardEntry) -> bool {
        &&& self.id == other.id
        &&& self.content@ == other.content@
        &&& self.content_type@ == other.content_type@
        &&& self.metadata == other.metadata
        &&& self.content_hash@ == other.content_hash@
        &&& self.is_image == other.is_image
        &&& self.image_path == other.image_path
        &&& self.favorite == other.favorite
        &&& self.pinned == other.pinned
        &&& self.is_secret == other.is_secret
        &&& self.created_at@ == other.created_at@
    }

    /// This entry is `before` with one more copy counted at the time `now`:
    /// the same clip in the same workspace, its count one higher, and `now`
    /// as its last copy and last update.
    pub open spec fn is_copy_of(self, before: ClipboardEntry, now: Seq<char>) -> bool {
        &&& self.same_identity(before)
        &&& self.workspace_id == before.workspace_id
        &&& self.copy_count == before.copy_count + 1
        &&& self.last_copied_at@ == now
        &&& self.updated_at@ == now
    }

    /// Counts one more copy and refreshes `last_copied_at` (and `updated_at`).
    pub fn record_copy(&mut self, now: &str)
        requires
            old(self).copy_count < i64::MAX,
        ensures
            final(self).is_copy_of(*old(self), now@),
    {
        self.copy_count = self.copy_count + 1;
        self.last_copied_at = String::from_str(now);
        self.updated_at = String::from_str(now);
    }

    /// Moves the entry to a workspace (`None`: the inbox).
    pub fn move_to_workspace(&mut self, workspace_id: Option<Uuid>, now: &str)
        ensures
            final(self).same_identity(*old(self)),
            final(self).copy_count == old(self).copy_count,
            final(self).last_copied_at@ == old(self).last_copied_at@,
            final(self).workspace_id == workspace_id,
            final(self).updated_at@ == now@,
    {
        self.workspace_id = workspace_id;
        self.updated_at = String::from_str(now);
    }
}

impl Default for ClipboardEntry {
    /// An empty entry of type `Other`, copied once, with a fresh id.
    fn default() -> (e: ClipboardEntry)
        ensures
            uuid_version(e.id) == 7,
            uuid_variant(e.id) == 2,
            e.content@ == Seq::<char>::empty(),
            e.content_type@ == ContentTypeView::Other,
            e.metadata.contents() == no_fields(),
            e.content_hash@ == Seq::<char>::empty(),
            !e.is_image,
            e.image_path is None,
            e.copy_count == 1,
            !e.favorite,
            !e.pinned,
            !e.is_secret,
            e.created_at@ == Seq::<char>::empty(),
            e.updated_at@ == Seq::<char>::empty(),
            e.last_copied_at@ == Seq::<char>::empty(),
            e.workspace_id is None,
    {
        ClipboardEntry {
            id: new_id(),
            content: String::new(),
            content_type: ContentType::Other,
            metadata: ClipMetadata::new(),
            content_hash: String::new(),
            is_image: false,
            image_path: None,
            copy_count: 1,
            favorite: false,
            pinned: false,
            is_secret: false,
            created_at: String::new(),
            updated_at: String::new(),
            last_copied_at: String::new(),
            workspace_id: None,
        }
    }
}

/// A workspace in which clips are organised.
#[derive(Debug, Clone)]
pub struct Workspace {
    pub id: Uuid,
    pub name: String,
    pub description: Option<String>,
    pub icon: Option<String>,
    pub created_at: String,
    pub is_default: bool,
}

} // verus!
