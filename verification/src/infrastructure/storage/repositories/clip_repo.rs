//! Clips as the `clips` table stores them.

use vstd::prelude::*;
use crate::domain::errors::DomainError;
use crate::domain::ids::{id_text, parse_id, uuid_parsed, uuid_text, Uuid};
use crate::domain::models::{
    json_object_parsed, json_object_text, law_parse_inverts_as_str, no_fields, parsed_type,
    type_text, ClipMetadata, ClipboardEntry, ContentType,
};
use crate::domain::repositories::ListQuery;

verus! {

/// A row of the `clips` table (its twelve columns).
#[derive(Debug, Clone)]
pub struct ClipRow {
    pub id: String,
    pub content: String,
    pub content_type: String,
    pub metadata: String,
    pub content_hash: String,
    pub copy_count: i64,
    pub favorite: i64,
    pub pinned: i64,
    pub created_at: String,
    pub updated_at: String,
    pub last_copied_at: String,
    pub workspace_id: Option<String>,
}

/// The id that a stored text denotes; text that is no UUID reads as the
/// nil UUID (0).
pub open spec fn stored_id(text: Seq<char>) -> Uuid {
    match uuid_parsed(text) {
        Some(id) => id,
        None => 0,
    }
}

/// `e` is the entry that `row` holds: the content type parsed from its
/// persisted form, the metadata from its JSON text (invalid JSON reads as no
/// metadata), the flags from their integers (non-zero is true), an id that is
/// no UUID as the nil UUID and a workspace id that is no UUID as no
/// workspace; a row holds no image and no secret.
pub open spec fn reads_as(row: ClipRow, e: ClipboardEntry) -> bool {
    &&& e.id == stored_id(row.id@)
    &&& e.content@ == row.content@
    &&& e.content_type@ == parsed_type(row.content_type@)
    &&& e.metadata.contents() == match json_object_parsed(row.metadata@) {
        Some(fields) => fields,
        None => no_fields(),
    }
    &&& e.content_hash@ == row.content_hash@
    &&& !e.is_image
    &&& e.image_path is None
    &&& e.copy_count == row.copy_count
    &&& e.favorite == (row.favorite != 0)
    &&& e.pinned == (row.pinned != 0)
    &&& !e.is_secret
    &&& e.created_at@ == row.created_at@
    &&& e.updated_at@ == row.updated_at@
    &&& e.last_copied_at@ == row.last_copied_at@
    &&& e.workspace_id == match row.workspace_id {
        Some(w) => uuid_parsed(w@),
        None => None,
    }
}

impl ClipboardEntry {
    /// The entry that a row holds: the content type is parsed from its
    /// persisted form, the metadata from its JSON text (invalid JSON reads as
    /// no metadata), the flags from their integers (non-zero is true), and a
    /// workspace id that is no UUID reads as no workspace. A row holds no
    /// image and no secret.
    pub fn from_row(row: ClipRow) -> (e: ClipboardEntry)
        ensures
            reads_as(row, e),
    {
        let id = match parse_id(row.id.as_str()) {
            Some(id) => id,
            None => 0,
        };
        let content_type = ContentType::parse(row.content_type.as_str());
        let metadata = ClipMetadata::from_json_or_empty(row.metadata.as_str());
        let workspace_id = match &row.workspace_id {
            Some(w) => parse_id(w.as_str()),
            None => None,
        };
        ClipboardEntry {
            id,
            content: row.content,
            content_type,
            metadata,
            content_hash: row.content_hash,
            is_image: false,
            image_path: None,
            copy_count: row.copy_count,
            favorite: row.favorite != 0,
            pinned: row.pinned != 0,
            is_secret: false,
            created_at: row.created_at,
            updated_at: row.updated_at,
            last_copied_at: row.last_copied_at,
            workspace_id,
        }
    }
}

/// The columns of `clips` that make a `ClipRow`, selected from the table.
pub const CLIP_COLUMNS: &'static str = "SELECT id, content, content_type, metadata, content_hash, copy_count, favorite, pinned, created_at, updated_at, last_copied_at, workspace_id FROM clips";

/// The clause that starts the filters of a listing (it holds for every row).
pub const LIST_ALL: &'static str = " WHERE 1=1";

/// Filter: clips of one workspace.
pub const LIST_BY_WORKSPACE: &'static str = " AND workspace_id = ?";

/// Filter: clips of one content type (its persisted form).
pub const LIST_BY_CONTENT_TYPE: &'static str = " AND content_type = ?";

/// Filter: favourite clips.
pub const LIST_FAVORITES: &'static str = " AND favorite = 1";

/// Filter: pinned clips.
pub const LIST_PINNED: &'static str = " AND pinned = 1";

/// Order (most recently copied first) and page of a listing.
pub const LIST_ORDER_AND_PAGE: &'static str = " ORDER BY last_copied_at DESC LIMIT ? OFFSET ?";

/// A value bound to a `?` of a statement.
#[derive(Debug, Clone, PartialEq, Eq)]
pub enum SqlValue {
    Text(String),
    Integer(i64),
    Null,
}

/// A bound value, with text as a character sequence.
pub enum SqlValueView {
    Text(Seq<char>),
    Integer(i64),
    Null,
}

impl View for SqlValue {
    type V = SqlValueView;

    open spec fn view(&self) -> SqlValueView {
        match self {
            SqlValue::Text(t) => SqlValueView::Text(t@),
            SqlValue::Integer(i) => SqlValueView::Integer(*i),
            SqlValue::Null => SqlValueView::Null,
        }
    }
}

/// An SQL statement with the values of its `?` placeholders, in order.
#[derive(Debug, Clone)]
pub struct Statement {
    pub sql: String,
    pub binds: Vec<SqlValue>,
}

/// The text of the listing of clips for a query: the clip columns, one
/// filter per criterion that the query sets, then order and page.
pub open spec fn list_sql(q: ListQuery) -> Seq<char> {
    CLIP_COLUMNS@ + LIST_ALL@ + (if q.workspace_id is Some {
        LIST_BY_WORKSPACE@
    } else {
        Seq::empty()
    }) + (if q.content_type is Some {
        LIST_BY_CONTENT_TYPE@
    } else {
        Seq::empty()
    }) + (if q.favorite_only {
        LIST_FAVORITES@
    } else {
        Seq::empty()
    }) + (if q.pinned_only {
        LIST_PINNED@
    } else {
        Seq::empty()
    }) + LIST_ORDER_AND_PAGE@
}

/// The values of the listing's placeholders: the workspace (its UUID text)
/// and the content type where the query filters on them, then limit and
/// offset.
pub open spec fn list_binds(q: ListQuery) -> Seq<SqlValueView> {
    (match q.workspace_id {
        Some(w) => seq![SqlValueView::Text(uuid_text(w))],
        None => Seq::empty(),
    }) + (match q.content_type {
        Some(ct) => seq![SqlValueView::Text(ct@)],
        None => Seq::empty(),
    }) + seq![SqlValueView::Integer(q.limit), SqlValueView::Integer(q.offset)]
}

/// The statement that lists the clips a query selects, most recently copied
/// first, one page of them.
pub fn list_statement(query: &ListQuery) -> (s: Statement)
    ensures
        s.sql@ == list_sql(*query),
        s.binds@.map_values(|b: SqlValue| b@) == list_binds(*query),
{
    let mut sql = String::from_str(CLIP_COLUMNS);
    sql.append(LIST_ALL);
    let mut binds: Vec<SqlValue> = Vec::new();
    if let Some(ws) = query.workspace_id {
        sql.append(LIST_BY_WORKSPACE);
        binds.push(SqlValue::Text(id_text(ws)));
    }
    if let Some(ct) = &query.content_type {
        sql.append(LIST_BY_CONTENT_TYPE);
        binds.push(SqlValue::Text(ct.clone()));
    }
    if query.favorite_only {
        sql.append(LIST_FAVORITES);
    }
    if query.pinned_only {
        sql.append(LIST_PINNED);
    }
    sql.append(LIST_ORDER_AND_PAGE);
    binds.push(SqlValue::Integer(query.limit));
    binds.push(SqlValue::Integer(query.offset));
    proof {
        assert(sql@ =~= list_sql(*query));
        assert(binds@.map_values(|b: SqlValue| b@) =~= list_binds(*query));
    }
    Statement { sql, binds }
}

/// `after` is the listing `before` with `filter` added among its filters: the
/// same text on either side of it, after the columns and the `WHERE` that
/// starts the filters, and before the order and page.
pub open spec fn adds_filter(before: Seq<char>, after: Seq<char>, filter: Seq<char>) -> bool {
    exists|u: Seq<char>, v: Seq<char>|
        #![trigger u + v, u + filter]
        {
            &&& before == u + v
            &&& after == u + filter + v
            &&& (CLIP_COLUMNS@ + LIST_ALL@).is_prefix_of(u)
            &&& LIST_ORDER_AND_PAGE@.is_suffix_of(v)
        }
}

proof fn lemma_adds_filter(
    before: Seq<char>,
    after: Seq<char>,
    filter: Seq<char>,
    u: Seq<char>,
    v: Seq<char>,
)
    requires
        before == u + v,
        after == u + filter + v,
        (CLIP_COLUMNS@ + LIST_ALL@).is_prefix_of(u),
        LIST_ORDER_AND_PAGE@.is_suffix_of(v),
    ensures
        adds_filter(before, after, filter),
{
    assert(before == u + v && after == u + filter + v);
}

/// The filters that a query sets, in the order the listing writes them.
spec fn filters_of(q: ListQuery) -> (Seq<char>, Seq<char>, Seq<char>, Seq<char>) {
    (
        if q.workspace_id is Some { LIST_BY_WORKSPACE@ } else { Seq::empty() },
        if q.content_type is Some { LIST_BY_CONTENT_TYPE@ } else { Seq::empty() },
        if q.favorite_only { LIST_FAVORITES@ } else { Seq::empty() },
        if q.pinned_only { LIST_PINNED@ } else { Seq::empty() },
    )
}

proof fn lemma_listing_parts(q: ListQuery)
    ensures
        list_sql(q) == CLIP_COLUMNS@ + LIST_ALL@ + filters_of(q).0 + filters_of(q).1 + filters_of(q).2
            + filters_of(q).3 + LIST_ORDER_AND_PAGE@,
{
}

proof fn lemma_prefix_of_concat(p: Seq<char>, a: Seq<char>, b: Seq<char>)
    requires
        p.is_prefix_of(a),
    ensures
        p.is_prefix_of(a + b),
{
    assert((a + b).subrange(0, p.len() as int) =~= a.subrange(0, p.len() as int));
}

/// A listing with no criterion selects every clip: the columns, the `WHERE`
/// that holds for every row, then the order (most recently copied first) and
/// the page, whose limit and offset are its only values.
pub proof fn law_listing_without_criteria_lists_every_clip(q: ListQuery)
    requires
        q.workspace_id is None,
        q.content_type is None,
        !q.favorite_only,
        !q.pinned_only,
    ensures
        list_sql(q) == CLIP_COLUMNS@ + LIST_ALL@ + LIST_ORDER_AND_PAGE@,
        list_binds(q) == seq![SqlValueView::Integer(q.limit), SqlValueView::Integer(q.offset)],
{
    assert(list_sql(q) =~= CLIP_COLUMNS@ + LIST_ALL@ + LIST_ORDER_AND_PAGE@);
    assert(list_binds(q) =~= seq![SqlValueView::Integer(q.limit), SqlValueView::Integer(q.offset)]);
}

/// Asking for pinned clips only adds the filter ` AND pinned = 1` to the
/// listing, whatever the other criteria, and binds nothing more.
pub proof fn law_pinned_only_adds_its_filter(off: ListQuery, on: ListQuery)
    requires
        on.workspace_id == off.workspace_id,
        on.content_type == off.content_type,
        on.favorite_only == off.favorite_only,
        !off.pinned_only,
        on.pinned_only,
        on.limit == off.limit,
        on.offset == off.offset,
    ensures
        adds_filter(list_sql(off), list_sql(on), LIST_PINNED@),
        list_binds(on) == list_binds(off),
{
    let f = filters_of(off);
    let u = CLIP_COLUMNS@ + LIST_ALL@ + f.0 + f.1 + f.2;
    let v = LIST_ORDER_AND_PAGE@;
    lemma_listing_parts(off);
    lemma_listing_parts(on);
    assert(list_sql(off) =~= u + v);
    assert(list_sql(on) =~= u + LIST_PINNED@ + v);
    lemma_prefix_of_concat(CLIP_COLUMNS@ + LIST_ALL@, CLIP_COLUMNS@ + LIST_ALL@, f.0 + f.1 + f.2);
    assert(CLIP_COLUMNS@ + LIST_ALL@ + (f.0 + f.1 + f.2) =~= u);
    assert(LIST_ORDER_AND_PAGE@.is_suffix_of(v));
    lemma_adds_filter(list_sql(off), list_sql(on), LIST_PINNED@, u, v);
}

/// Asking for favourite clips only adds the filter ` AND favorite = 1` to
/// the listing, whatever the other criteria, and binds nothing more.
pub proof fn law_favorite_only_adds_its_filter(off: ListQuery, on: ListQuery)
    requires
        on.workspace_id == off.workspace_id,
        on.content_type == off.content_type,
        !off.favorite_only,
        on.favorite_only,
        on.pinned_only == off.pinned_only,
        on.limit == off.limit,
        on.offset == off.offset,
    ensures
        adds_filter(list_sql(off), list_sql(on), LIST_FAVORITES@),
        list_binds(on) == list_binds(off),
{
    let f = filters_of(off);
    let u = CLIP_COLUMNS@ + LIST_ALL@ + f.0 + f.1;
    let v = f.3 + LIST_ORDER_AND_PAGE@;
    lemma_listing_parts(off);
    lemma_listing_parts(on);
    assert(list_sql(off) =~= u + v);
    assert(list_sql(on) =~= u + LIST_FAVORITES@ + v);
    lemma_prefix_of_concat(CLIP_COLUMNS@ + LIST_ALL@, CLIP_COLUMNS@ + LIST_ALL@, f.0 + f.1);
    assert(CLIP_COLUMNS@ + LIST_ALL@ + (f.0 + f.1) =~= u);
    assert(v.subrange(v.len() - LIST_ORDER_AND_PAGE@.len(), v.len() as int) =~= LIST_ORDER_AND_PAGE@);
    lemma_adds_filter(list_sql(off), list_sql(on), LIST_FAVORITES@, u, v);
}

/// Asking for one content type adds the filter ` AND content_type = ?` to the
/// listing, whatever the other criteria, and binds the type's text to it,
/// after the workspace (if any) and before limit and offset.
pub proof fn law_content_type_adds_its_filter(off: ListQuery, on: ListQuery, ct: String)
    requires
        on.workspace_id == off.workspace_id,
        off.content_type is None,
        on.content_type == Some(ct),
        on.favorite_only == off.favorite_only,
        on.pinned_only == off.pinned_only,
        on.limit == off.limit,
        on.offset == off.offset,
    ensures
        adds_filter(list_sql(off), list_sql(on), LIST_BY_CONTENT_TYPE@),
        list_binds(on) == list_binds(off).insert(
            if off.workspace_id is Some { 1 } else { 0 },
            SqlValueView::Text(ct@),
        ),
{
    let f = filters_of(off);
    let u = CLIP_COLUMNS@ + LIST_ALL@ + f.0;
    let v = f.2 + f.3 + LIST_ORDER_AND_PAGE@;
    lemma_listing_parts(off);
    lemma_listing_parts(on);
    assert(list_sql(off) =~= u + v);
    assert(list_sql(on) =~= u + LIST_BY_CONTENT_TYPE@ + v);
    lemma_prefix_of_concat(CLIP_COLUMNS@ + LIST_ALL@, CLIP_COLUMNS@ + LIST_ALL@, f.0);
    assert(v.subrange(v.len() - LIST_ORDER_AND_PAGE@.len(), v.len() as int) =~= LIST_ORDER_AND_PAGE@);
    lemma_adds_filter(list_sql(off), list_sql(on), LIST_BY_CONTENT_TYPE@, u, v);
    assert(list_binds(on) =~= list_binds(off).insert(
        if off.workspace_id is Some { 1 } else { 0 },
        SqlValueView::Text(ct@),
    ));
}

/// Asking for one workspace adds the filter ` AND workspace_id = ?` to the
/// listing, whatever the other criteria, and binds the workspace's UUID text
/// to it, first of all values.
pub proof fn law_workspace_adds_its_filter(off: ListQuery, on: ListQuery, w: Uuid)
    requires
        off.workspace_id is None,
        on.workspace_id == Some(w),
        on.content_type == off.content_type,
        on.favorite_only == off.favorite_only,
        on.pinned_only == off.pinned_only,
        on.limit == off.limit,
        on.offset == off.offset,
    ensures
        adds_filter(list_sql(off), list_sql(on), LIST_BY_WORKSPACE@),
        list_binds(on) == seq![SqlValueView::Text(uuid_text(w))] + list_binds(off),
{
    let f = filters_of(off);
    let u = CLIP_COLUMNS@ + LIST_ALL@;
    let v = f.1 + f.2 + f.3 + LIST_ORDER_AND_PAGE@;
    lemma_listing_parts(off);
    lemma_listing_parts(on);
    assert(list_sql(off) =~= u + v);
    assert(list_sql(on) =~= u + LIST_BY_WORKSPACE@ + v);
    assert(u.subrange(0, u.len() as int) =~= u);
    assert(v.subrange(v.len() - LIST_ORDER_AND_PAGE@.len(), v.len() as int) =~= LIST_ORDER_AND_PAGE@);
    lemma_adds_filter(list_sql(off), list_sql(on), LIST_BY_WORKSPACE@, u, v);
    assert(list_binds(on) =~= seq![SqlValueView::Text(uuid_text(w))] + list_binds(off));
}

/// The insertion of a clip (its rowid is returned, to index the clip).
pub const INSERT_CLIP: &'static str = "INSERT INTO clips (id, content, content_type, metadata, content_hash, copy_count, favorite, pinned, is_secret, created_at, updated_at, last_copied_at, workspace_id) VALUES (?, ?, ?, ?, ?, ?, ?, ?, ?, ?, ?, ?, ?) RETURNING rowid";

/// A flag as SQLite stores it.
pub open spec fn flag(b: bool) -> i64 {
    if b { 1 } else { 0 }
}

/// The values that the insertion of an entry binds, column after column:
/// the id and workspace as UUID text (no workspace: NULL), the content type
/// in its persisted form, the metadata as JSON text, the flags as 0 or 1.
pub open spec fn insert_binds(e: ClipboardEntry) -> Seq<SqlValueView> {
    seq![
        SqlValueView::Text(uuid_text(e.id)),
        SqlValueView::Text(e.content@),
        SqlValueView::Text(type_text(e.content_type@)),
        SqlValueView::Text(json_object_text(e.metadata.contents())),
        SqlValueView::Text(e.content_hash@),
        SqlValueView::Integer(e.copy_count),
        SqlValueView::Integer(flag(e.favorite)),
        SqlValueView::Integer(flag(e.pinned)),
        SqlValueView::Integer(flag(e.is_secret)),
        SqlValueView::Text(e.created_at@),
        SqlValueView::Text(e.updated_at@),
        SqlValueView::Text(e.last_copied_at@),
        match e.workspace_id {
            Some(w) => SqlValueView::Text(uuid_text(w)),
            None => SqlValueView::Null,
        },
    ]
}

fn flag_value(b: bool) -> (v: SqlValue)
    ensures
        v@ == SqlValueView::Integer(flag(b)),
{
    SqlValue::Integer(if b { 1 } else { 0 })
}

fn text_value(s: &String) -> (v: SqlValue)
    ensures
        v@ == SqlValueView::Text(s@),
{
    SqlValue::Text(s.clone())
}

/// The statement that inserts an entry (serialising its metadata never
/// fails). The ids that it writes read back as the same ids.
pub fn insert_statement(entry: &ClipboardEntry) -> (r: Result<Statement, DomainError>)
    ensures
        r is Ok,
        r matches Ok(s) ==> {
            &&& s.sql@ == INSERT_CLIP@
            &&& s.binds@.map_values(|b: SqlValue| b@) == insert_binds(*entry)
            &&& uuid_parsed(uuid_text(entry.id)) == Some(entry.id)
            &&& entry.workspace_id matches Some(w) ==> uuid_parsed(uuid_text(w)) == Some(w)
        },
{
    let content_type = entry.content_type.as_str();
    let metadata = match entry.metadata.to_json() {
        Ok(m) => m,
        Err(e) => return Err(DomainError::Serialization(e)),
    };
    let mut binds: Vec<SqlValue> = Vec::new();
    binds.push(SqlValue::Text(id_text(entry.id)));
    binds.push(text_value(&entry.content));
    binds.push(SqlValue::Text(content_type));
    binds.push(SqlValue::Text(metadata));
    binds.push(text_value(&entry.content_hash));
    binds.push(SqlValue::Integer(entry.copy_count));
    binds.push(flag_value(entry.favorite));
    binds.push(flag_value(entry.pinned));
    binds.push(flag_value(entry.is_secret));
    binds.push(text_value(&entry.created_at));
    binds.push(text_value(&entry.updated_at));
    binds.push(text_value(&entry.last_copied_at));
    let workspace = match entry.workspace_id {
        Some(w) => SqlValue::Text(id_text(w)),
        None => SqlValue::Null,
    };
    binds.push(workspace);
    proof {
        assert(binds@.map_values(|b: SqlValue| b@) =~= insert_binds(*entry));
    }
    Ok(Statement { sql: String::from_str(INSERT_CLIP), binds })
}

/// `row` holds, column by column, the values that an insertion bound (the
/// way SQLite stores bound values; `is_secret` is not a column of the row).
pub open spec fn row_holds(row: ClipRow, binds: Seq<SqlValueView>) -> bool {
    &&& binds.len() == 13
    &&& binds[0] == SqlValueView::Text(row.id@)
    &&& binds[1] == SqlValueView::Text(row.content@)
    &&& binds[2] == SqlValueView::Text(row.content_type@)
    &&& binds[3] == SqlValueView::Text(row.metadata@)
    &&& binds[4] == SqlValueView::Text(row.content_hash@)
    &&& binds[5] == SqlValueView::Integer(row.copy_count)
    &&& binds[6] == SqlValueView::Integer(row.favorite)
    &&& binds[7] == SqlValueView::Integer(row.pinned)
    &&& binds[9] == SqlValueView::Text(row.created_at@)
    &&& binds[10] == SqlValueView::Text(row.updated_at@)
    &&& binds[11] == SqlValueView::Text(row.last_copied_at@)
    &&& binds[12] == match row.workspace_id {
        Some(w) => SqlValueView::Text(w@),
        None => SqlValueView::Null,
    }
}

/// A stored entry reads back as itself: the row that an insertion writes,
/// read with `from_row`, gives the same entry, field by field. This holds
/// for entries that are no image and no secret (a row does not keep those),
/// as far as the metadata's JSON text reads back as the same fields.
pub proof fn law_inserted_entry_reads_back(entry: ClipboardEntry, row: ClipRow, read: ClipboardEntry)
    requires
        row_holds(row, insert_binds(entry)),
        uuid_parsed(uuid_text(entry.id)) == Some(entry.id),
        entry.workspace_id matches Some(w) ==> uuid_parsed(uuid_text(w)) == Some(w),
        json_object_parsed(json_object_text(entry.metadata.contents())) == Some(
            entry.metadata.contents(),
        ),
        reads_as(row, read),
        !entry.is_image,
        entry.image_path is None,
        !entry.is_secret,
    ensures
        read.id == entry.id,
        read.content@ == entry.content@,
        read.content_type@ == entry.content_type@,
        read.metadata.contents() == entry.metadata.contents(),
        read.content_hash@ == entry.content_hash@,
        read.is_image == entry.is_image,
        read.image_path == entry.image_path,
        read.copy_count == entry.copy_count,
        read.favorite == entry.favorite,
        read.pinned == entry.pinned,
        read.is_secret == entry.is_secret,
        read.created_at@ == entry.created_at@,
        read.updated_at@ == entry.updated_at@,
        read.last_copied_at@ == entry.last_copied_at@,
        read.workspace_id == entry.workspace_id,
{
    let b = insert_binds(entry);
    assert(b[0] == SqlValueView::Text(row.id@));
    assert(b[2] == SqlValueView::Text(row.content_type@));
    assert(b[3] == SqlValueView::Text(row.metadata@));
    assert(b[6] == SqlValueView::Integer(row.favorite));
    assert(b[7] == SqlValueView::Integer(row.pinned));
    assert(b[12] == match row.workspace_id {
        Some(w) => SqlValueView::Text(w@),
        None => SqlValueView::Null,
    });
    law_parse_inverts_as_str(entry.content_type@);
}

/// Sets the favourite flag of a clip.
pub const SET_FAVORITE: &'static str = "UPDATE clips SET favorite = ? WHERE id = ?";

/// Sets the pinned flag of a clip.
pub const SET_PINNED: &'static str = "UPDATE clips SET pinned = ? WHERE id = ?";

/// The statements that set the flags of a clip: one for each flag that is
/// given (favourite first), none for a flag left as it is.
pub fn flag_statements(id: Uuid, favorite: Option<bool>, pinned: Option<bool>) -> (v: Vec<Statement>)
    ensures
        v@.len() == (if favorite is Some { 1int } else { 0 }) + (if pinned is Some { 1int } else { 0 }),
        favorite matches Some(f) ==> {
            &&& v@[0].sql@ == SET_FAVORITE@
            &&& v@[0].binds@.map_values(|b: SqlValue| b@) == seq![
                SqlValueView::Integer(flag(f)),
                SqlValueView::Text(uuid_text(id)),
            ]
        },
        pinned matches Some(p) ==> {
            let last = v@.len() - 1;
            &&& v@[last].sql@ == SET_PINNED@
            &&& v@[last].binds@.map_values(|b: SqlValue| b@) == seq![
                SqlValueView::Integer(flag(p)),
                SqlValueView::Text(uuid_text(id)),
            ]
        },
{
    let mut v: Vec<Statement> = Vec::new();
    if let Some(f) = favorite {
        let mut binds: Vec<SqlValue> = Vec::new();
        binds.push(flag_value(f));
        binds.push(SqlValue::Text(id_text(id)));
        proof {
            assert(binds@.map_values(|b: SqlValue| b@) =~= seq![
                SqlValueView::Integer(flag(f)),
                SqlValueView::Text(uuid_text(id)),
            ]);
        }
        v.push(Statement { sql: String::from_str(SET_FAVORITE), binds });
    }
    if let Some(p) = pinned {
        let mut binds: Vec<SqlValue> = Vec::new();
        binds.push(flag_value(p));
        binds.push(SqlValue::Text(id_text(id)));
        proof {
            assert(binds@.map_values(|b: SqlValue| b@) =~= seq![
                SqlValueView::Integer(flag(p)),
                SqlValueView::Text(uuid_text(id)),
            ]);
        }
        v.push(Statement { sql: String::from_str(SET_PINNED), binds });
    }
    v
}

} // verus!
