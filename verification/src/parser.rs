//! Decoding generic JSON into typed records: each routine is a pure
//! function from one JSON value to one typed result or one classified
//! failure, and a structural defect is reported with the name of the field
//! at fault.

use vstd::prelude::*;

use crate::error::JJError;
use crate::json::{
    json_model, obj_get, obj_model, value_as_array, value_as_bool, value_as_object, value_as_str,
    JsonData,
};
use crate::models::{Author, AuthorView, Bookmark, BookmarkView, Commit, CommitView, string_seq_view};
use crate::text::push_str;

verus! {

/// The diagnostic for a field that is missing or holds the wrong type.
pub open spec fn field_error(name: Seq<char>) -> Seq<char> {
    "Missing or invalid field: "@ + name
}

/// The diagnostic for an array field that is missing or not an array.
pub open spec fn array_error(name: Seq<char>) -> Seq<char> {
    "Missing or invalid array: "@ + name
}

/// The dotted path of a field inside a nested record.
pub open spec fn nested_field(outer: Seq<char>, inner: Seq<char>) -> Seq<char> {
    outer + "."@ + inner
}

/// The entry stored under a key, when the key is present.
pub open spec fn map_lookup(m: Map<Seq<char>, JsonData>, key: Seq<char>) -> Option<JsonData> {
    if m.dom().contains(key) {
        Some(m[key])
    } else {
        None
    }
}

/// A required string field: its text when present as a string, and the
/// diagnostic naming the key otherwise.
pub open spec fn spec_get_string(m: Map<Seq<char>, JsonData>, key: Seq<char>) -> Result<
    Seq<char>,
    Seq<char>,
> {
    if m.dom().contains(key) && m[key] is Str {
        Ok(m[key]->Str_0)
    } else {
        Err(field_error(key))
    }
}

/// The string elements of a JSON array, in order; elements of any other
/// type are passed over.
pub open spec fn string_items(items: Seq<JsonData>) -> Seq<Seq<char>>
    decreases items.len(),
{
    if items.len() == 0 {
        Seq::empty()
    } else {
        let rest = string_items(items.drop_last());
        if items.last() is Str {
            rest.push(items.last()->Str_0)
        } else {
            rest
        }
    }
}

/// A required string-array field: its string elements when present as an
/// array, and the diagnostic naming the key otherwise.
pub open spec fn spec_get_string_array(m: Map<Seq<char>, JsonData>, key: Seq<char>) -> Result<
    Seq<Seq<char>>,
    Seq<char>,
> {
    if m.dom().contains(key) && m[key] is Arr {
        Ok(string_items(m[key]->Arr_0))
    } else {
        Err(array_error(key))
    }
}

/// A lenient string-array field: the string elements when present as an
/// array, and the empty sequence otherwise — never a failure.
pub open spec fn lenient_string_array(m: Map<Seq<char>, JsonData>, key: Seq<char>) -> Seq<
    Seq<char>,
> {
    match spec_get_string_array(m, key) {
        Ok(v) => v,
        Err(_) => Seq::empty(),
    }
}

/// A lenient boolean field: its value when present as a boolean, and false
/// otherwise — never a failure.
pub open spec fn lenient_bool(m: Map<Seq<char>, JsonData>, key: Seq<char>) -> bool {
    if m.dom().contains(key) && m[key] is Bool {
        m[key]->Bool_0
    } else {
        false
    }
}

/// A lenient optional string field: its text when present as a string, and
/// nothing otherwise — never a failure.
pub open spec fn lenient_opt_string(m: Map<Seq<char>, JsonData>, key: Seq<char>) -> Option<
    Seq<char>,
> {
    if m.dom().contains(key) && m[key] is Str {
        Some(m[key]->Str_0)
    } else {
        None
    }
}

/// A required string field of a nested record: the diagnostic names the
/// dotted path of the field.
pub open spec fn spec_author_field(
    m: Map<Seq<char>, JsonData>,
    outer: Seq<char>,
    sub: Seq<char>,
) -> Result<Seq<char>, Seq<char>> {
    if m.dom().contains(sub) && m[sub] is Str {
        Ok(m[sub]->Str_0)
    } else {
        Err(field_error(nested_field(outer, sub)))
    }
}

/// Parsing a signature record stored under the given field name: the value
/// must be an object with name, email and timestamp present as strings; the
/// first violation is the result, naming the field at fault.
pub open spec fn spec_parse_author(d: Option<JsonData>, field: Seq<char>) -> Result<
    AuthorView,
    Seq<char>,
> {
    match d {
        Some(JsonData::Obj(m)) => match spec_author_field(m, field, "name"@) {
            Err(e) => Err(e),
            Ok(name) => match spec_author_field(m, field, "email"@) {
                Err(e) => Err(e),
                Ok(email) => match spec_author_field(m, field, "timestamp"@) {
                    Err(e) => Err(e),
                    Ok(timestamp) => Ok(
                        AuthorView { name: name, email: email, timestamp: timestamp },
                    ),
                },
            },
        },
        _ => Err(field_error(field)),
    }
}

/// Parsing one commit record: change_id, commit_id, author, committer and
/// description are mandatory, checked in that order; branches, tags and
/// is_working_copy are lenient.
pub open spec fn spec_parse_commit(d: JsonData) -> Result<CommitView, Seq<char>> {
    match d {
        JsonData::Obj(m) => match spec_get_string(m, "change_id"@) {
            Err(e) => Err(e),
            Ok(change_id) => match spec_get_string(m, "commit_id"@) {
                Err(e) => Err(e),
                Ok(commit_id) => match spec_parse_author(map_lookup(m, "author"@), "author"@) {
                    Err(e) => Err(e),
                    Ok(author) => match spec_parse_author(
                        map_lookup(m, "committer"@),
                        "committer"@,
                    ) {
                        Err(e) => Err(e),
                        Ok(committer) => match spec_get_string(m, "description"@) {
                            Err(e) => Err(e),
                            Ok(description) => Ok(
                                CommitView {
                                    change_id: change_id,
                                    commit_id: commit_id,
                                    author: author,
                                    committer: committer,
                                    description: description,
                                    branches: lenient_string_array(m, "branches"@),
                                    tags: lenient_string_array(m, "tags"@),
                                    is_working_copy: lenient_bool(m, "is_working_copy"@),
                                },
                            ),
                        },
                    },
                },
            },
        },
        _ => Err("Expected commit object"@),
    }
}

/// Parsing a sequence of commit elements, all or nothing: the first element
/// that fails decides the result.
pub open spec fn spec_parse_commits(items: Seq<JsonData>) -> Result<Seq<CommitView>, Seq<char>>
    decreases items.len(),
{
    if items.len() == 0 {
        Ok(Seq::empty())
    } else {
        match spec_parse_commit(items.first()) {
            Err(e) => Err(e),
            Ok(c) => match spec_parse_commits(items.drop_first()) {
                Err(e) => Err(e),
                Ok(rest) => Ok(seq![c] + rest),
            },
        }
    }
}

/// Parsing a whole log: the document must be an array, and every element
/// must parse as a commit.
pub open spec fn spec_parse_log(d: JsonData) -> Result<Seq<CommitView>, Seq<char>> {
    match d {
        JsonData::Arr(items) => spec_parse_commits(items),
        _ => Err("Expected array of commits"@),
    }
}

/// Parsing one bookmark record: name and target are mandatory strings;
/// is_tracking and remote are lenient.
pub open spec fn spec_parse_bookmark(d: JsonData) -> Result<BookmarkView, Seq<char>> {
    match d {
        JsonData::Obj(m) => match spec_get_string(m, "name"@) {
            Err(e) => Err(e),
            Ok(name) => match spec_get_string(m, "target"@) {
                Err(e) => Err(e),
                Ok(target) => Ok(
                    BookmarkView {
                        name: name,
                        target: target,
                        is_tracking: lenient_bool(m, "is_tracking"@),
                        remote: lenient_opt_string(m, "remote"@),
                    },
                ),
            },
        },
        _ => Err("Expected bookmark object"@),
    }
}

/// Parsing a sequence of bookmark elements, all or nothing.
pub open spec fn spec_parse_bookmark_items(items: Seq<JsonData>) -> Result<
    Seq<BookmarkView>,
    Seq<char>,
>
    decreases items.len(),
{
    if items.len() == 0 {
        Ok(Seq::empty())
    } else {
        match spec_parse_bookmark(items.first()) {
            Err(e) => Err(e),
            Ok(b) => match spec_parse_bookmark_items(items.drop_first()) {
                Err(e) => Err(e),
                Ok(rest) => Ok(seq![b] + rest),
            },
        }
    }
}

/// Parsing a whole bookmark listing: the document must be an array, and
/// every element must parse as a bookmark.
pub open spec fn spec_parse_bookmarks(d: JsonData) -> Result<Seq<BookmarkView>, Seq<char>> {
    match d {
        JsonData::Arr(items) => spec_parse_bookmark_items(items),
        _ => Err("Expected array of bookmarks"@),
    }
}

/// The view of a sequence of commit records.
pub open spec fn commit_seq_view(s: Seq<Commit>) -> Seq<CommitView> {
    s.map_values(|c: Commit| c@)
}

/// The view of a sequence of bookmark records.
pub open spec fn bookmark_seq_view(s: Seq<Bookmark>) -> Seq<BookmarkView> {
    s.map_values(|b: Bookmark| b@)
}

/// The view of an optional borrowed JSON value.
pub open spec fn opt_value_model(v: Option<&serde_json::Value>) -> Option<JsonData> {
    match v {
        Some(x) => Some(json_model(*x)),
        None => None,
    }
}

/// Converts generic JSON into the typed records of this layer.
pub struct JJParser;

fn field_error_string(key: &str) -> (r: String)
    ensures
        r@ == field_error(key@),
{
    let mut s = "Missing or invalid field: ".to_owned();
    push_str(&mut s, key);
    s
}

fn array_error_string(key: &str) -> (r: String)
    ensures
        r@ == array_error(key@),
{
    let mut s = "Missing or invalid array: ".to_owned();
    push_str(&mut s, key);
    s
}

fn nested_field_error_string(outer: &str, sub: &str) -> (r: String)
    ensures
        r@ == field_error(nested_field(outer@, sub@)),
{
    let mut s = "Missing or invalid field: ".to_owned();
    push_str(&mut s, outer);
    push_str(&mut s, ".");
    push_str(&mut s, sub);
    proof {
        assert(s@ =~= field_error(nested_field(outer@, sub@)));
    }
    s
}

impl JJParser {
    /// Reads a required string field out of a JSON object.
    pub fn get_string(
        obj: &serde_json::Map<String, serde_json::Value>,
        key: &str,
    ) -> (r: Result<String, JJError>)
        ensures
            (match spec_get_string(obj_model(*obj), key@) {
                Ok(s) => r matches Ok(v) && v@ == s,
                Err(m) => r matches Err(e) && e matches JJError::ParseError(t) && t@ == m,
            }),
    {
        match obj_get(obj, key) {
            Some(v) => match value_as_str(v) {
                Some(s) => Ok(s.to_owned()),
                None => Err(JJError::ParseError(field_error_string(key))),
            },
            None => Err(JJError::ParseError(field_error_string(key))),
        }
    }

    /// Reads a required string-array field out of a JSON object, keeping
    /// the string elements in order.
    pub fn get_string_array(
        obj: &serde_json::Map<String, serde_json::Value>,
        key: &str,
    ) -> (r: Result<Vec<String>, JJError>)
        ensures
            (match spec_get_string_array(obj_model(*obj), key@) {
                Ok(s) => r matches Ok(v) && string_seq_view(v@) == s,
                Err(m) => r matches Err(e) && e matches JJError::ParseError(t) && t@ == m,
            }),
    {
        match obj_get(obj, key) {
            Some(val) => match value_as_array(val) {
                Some(arr) => {
                    let ghost items: Seq<JsonData> = json_model(*val)->Arr_0;
                    let mut out: Vec<String> = Vec::new();
                    let mut i: usize = 0;
                    while i < arr.len()
                        invariant
                            i <= arr.len(),
                            arr@.len() == items.len(),
                            forall|j: int|
                                0 <= j < arr@.len() ==> #[trigger] json_model(arr@[j])
                                    == items[j],
                            string_seq_view(out@) == string_items(items.take(i as int)),
                        decreases arr.len() - i,
                    {
                        match value_as_str(&arr[i]) {
                            Some(s) => {
                                out.push(s.to_owned());
                            },
                            None => {},
                        }
                        proof {
                            assert(items.take(i as int + 1).drop_last() =~= items.take(i as int));
                            assert(items.take(i as int + 1).last() == items[i as int]);
                            assert(string_seq_view(out@) =~= string_items(
                                items.take(i as int + 1),
                            ));
                        }
                        i = i + 1;
                    }
                    proof {
                        assert(items.take(arr@.len() as int) =~= items);
                    }
                    Ok(out)
                },
                None => Err(JJError::ParseError(array_error_string(key))),
            },
            None => Err(JJError::ParseError(array_error_string(key))),
        }
    }

    /// Reads one required string field of a nested signature record; the
    /// diagnostic names the dotted path of the field.
    fn author_field(
        obj: &serde_json::Map<String, serde_json::Value>,
        outer: &str,
        sub: &str,
    ) -> (r: Result<String, JJError>)
        ensures
            (match spec_author_field(obj_model(*obj), outer@, sub@) {
                Ok(s) => r matches Ok(v) && v@ == s,
                Err(m) => r matches Err(e) && e matches JJError::ParseError(t) && t@ == m,
            }),
    {
        match obj_get(obj, sub) {
            Some(v) => match value_as_str(v) {
                Some(s) => Ok(s.to_owned()),
                None => Err(JJError::ParseError(nested_field_error_string(outer, sub))),
            },
            None => Err(JJError::ParseError(nested_field_error_string(outer, sub))),
        }
    }

    /// Parses a signature record stored under the given field name: it must
    /// be an object with name, email and timestamp present as strings.
    pub fn parse_author(val: Option<&serde_json::Value>, field: &str) -> (r: Result<
        Author,
        JJError,
    >)
        ensures
            (match spec_parse_author(opt_value_model(val), field@) {
                Ok(a) => r matches Ok(v) && v@ == a,
                Err(m) => r matches Err(e) && e matches JJError::ParseError(t) && t@ == m,
            }),
    {
        let obj_opt = match val {
            Some(v) => value_as_object(v),
            None => None,
        };
        match obj_opt {
            Some(obj) => {
                let name = match Self::author_field(obj, field, "name") {
                    Ok(s) => s,
                    Err(e) => {
                        return Err(e);
                    },
                };
                let email = match Self::author_field(obj, field, "email") {
                    Ok(s) => s,
                    Err(e) => {
                        return Err(e);
                    },
                };
                let timestamp = match Self::author_field(obj, field, "timestamp") {
                    Ok(s) => s,
                    Err(e) => {
                        return Err(e);
                    },
                };
                Ok(Author { name, email, timestamp })
            },
            None => Err(JJError::ParseError(field_error_string(field))),
        }
    }

    /// Parses one commit record out of one JSON element.
    pub fn parse_commit(val: &serde_json::Value) -> (r: Result<Commit, JJError>)
        ensures
            (match spec_parse_commit(json_model(*val)) {
                Ok(c) => r matches Ok(v) && v@ == c,
                Err(m) => r matches Err(e) && e matches JJError::ParseError(t) && t@ == m,
            }),
    {
        let obj = match value_as_object(val) {
            Some(o) => o,
            None => {
                return Err(JJError::ParseError("Expected commit object".to_owned()));
            },
        };
        let change_id = match Self::get_string(obj, "change_id") {
            Ok(s) => s,
            Err(e) => {
                return Err(e);
            },
        };
        let commit_id = match Self::get_string(obj, "commit_id") {
            Ok(s) => s,
            Err(e) => {
                return Err(e);
            },
        };
        let author = match Self::parse_author(obj_get(obj, "author"), "author") {
            Ok(a) => a,
            Err(e) => {
                return Err(e);
            },
        };
        let committer = match Self::parse_author(obj_get(obj, "committer"), "committer") {
            Ok(a) => a,
            Err(e) => {
                return Err(e);
            },
        };
        let description = match Self::get_string(obj, "description") {
            Ok(s) => s,
            Err(e) => {
                return Err(e);
            },
        };
        let branches = match Self::get_string_array(obj, "branches") {
            Ok(v) => v,
            Err(_) => Vec::new(),
        };
        let tags = match Self::get_string_array(obj, "tags") {
            Ok(v) => v,
            Err(_) => Vec::new(),
        };
        let is_working_copy = match obj_get(obj, "is_working_copy") {
            Some(v) => match value_as_bool(v) {
                Some(b) => b,
                None => false,
            },
            None => false,
        };
        let c = Commit {
            change_id,
            commit_id,
            author,
            committer,
            description,
            branches,
            tags,
            is_working_copy,
        };
        proof {
            assert(c@ =~= spec_parse_commit(json_model(*val))->Ok_0);
        }
        Ok(c)
    }

    /// Parses a whole log document: a JSON array of commit records, all or
    /// nothing — the first element that fails decides the result.
    pub fn parse_log(json: &serde_json::Value) -> (r: Result<Vec<Commit>, JJError>)
        ensures
            (match spec_parse_log(json_model(*json)) {
                Ok(cs) => r matches Ok(v) && commit_seq_view(v@) == cs,
                Err(m) => r matches Err(e) && e matches JJError::ParseError(t) && t@ == m,
            }),
    {
        let arr = match value_as_array(json) {
            Some(a) => a,
            None => {
                return Err(JJError::ParseError("Expected array of commits".to_owned()));
            },
        };
        let ghost items: Seq<JsonData> = json_model(*json)->Arr_0;
        let mut out: Vec<Commit> = Vec::new();
        let mut i: usize = 0;
        while i < arr.len()
            invariant
                i <= arr.len(),
                json_model(*json) is Arr,
                items == json_model(*json)->Arr_0,
                arr@.len() == items.len(),
                forall|j: int| 0 <= j < arr@.len() ==> #[trigger] json_model(arr@[j]) == items[j],
                out@.len() == i,
                forall|j: int|
                    0 <= j < i ==> #[trigger] spec_parse_commit(items[j]) == Ok::<
                        CommitView,
                        Seq<char>,
                    >(out@[j]@),
            decreases arr.len() - i,
        {
            match Self::parse_commit(&arr[i]) {
                Ok(c) => {
                    out.push(c);
                },
                Err(e) => {
                    proof {
                        assert(json_model(arr@[i as int]) == items[i as int]);
                        assert(spec_parse_commit(items[i as int]) is Err);
                        lemma_commits_first_error(items, i as int);
                    }
                    return Err(e);
                },
            }
            i = i + 1;
        }
        proof {
            lemma_commits_all_ok(items, commit_seq_view(out@));
        }
        Ok(out)
    }

    /// Parses a whole bookmark listing: a JSON array of bookmark records,
    /// all or nothing.
    pub fn parse_bookmarks(json: &serde_json::Value) -> (r: Result<Vec<Bookmark>, JJError>)
        ensures
            (match spec_parse_bookmarks(json_model(*json)) {
                Ok(bs) => r matches Ok(v) && bookmark_seq_view(v@) == bs,
                Err(m) => r matches Err(e) && e matches JJError::ParseError(t) && t@ == m,
            }),
    {
        let arr = match value_as_array(json) {
            Some(a) => a,
            None => {
                return Err(JJError::ParseError("Expected array of bookmarks".to_owned()));
            },
        };
        let ghost items: Seq<JsonData> = json_model(*json)->Arr_0;
        let mut out: Vec<Bookmark> = Vec::new();
        let mut i: usize = 0;
        while i < arr.len()
            invariant
                i <= arr.len(),
                json_model(*json) is Arr,
                items == json_model(*json)->Arr_0,
                arr@.len() == items.len(),
                forall|j: int| 0 <= j < arr@.len() ==> #[trigger] json_model(arr@[j]) == items[j],
                out@.len() == i,
                forall|j: int|
                    0 <= j < i ==> #[trigger] spec_parse_bookmark(items[j]) == Ok::<
                        BookmarkView,
                        Seq<char>,
                    >(out@[j]@),
            decreases arr.len() - i,
        {
            match Self::parse_one_bookmark(&arr[i]) {
                Ok(b) => {
                    out.push(b);
                },
                Err(e) => {
                    proof {
                        assert(json_model(arr@[i as int]) == items[i as int]);
                        assert(spec_parse_bookmark(items[i as int]) is Err);
                        lemma_bookmarks_first_error(items, i as int);
                    }
                    return Err(e);
                },
            }
            i = i + 1;
        }
        proof {
            lemma_bookmarks_all_ok(items, bookmark_seq_view(out@));
        }
        Ok(out)
    }

    /// Parses one bookmark record out of one JSON element.
    pub fn parse_one_bookmark(val: &serde_json::Value) -> (r: Result<Bookmark, JJError>)
        ensures
            (match spec_parse_bookmark(json_model(*val)) {
                Ok(b) => r matches Ok(v) && v@ == b,
                Err(m) => r matches Err(e) && e matches JJError::ParseError(t) && t@ == m,
            }),
    {
        let obj = match value_as_object(val) {
            Some(o) => o,
            None => {
                return Err(JJError::ParseError("Expected bookmark object".to_owned()));
            },
        };
        let name = match Self::get_string(obj, "name") {
            Ok(s) => s,
            Err(e) => {
                return Err(e);
            },
        };
        let target = match Self::get_string(obj, "target") {
            Ok(s) => s,
            Err(e) => {
                return Err(e);
            },
        };
        let is_tracking = match obj_get(obj, "is_tracking") {
            Some(v) => match value_as_bool(v) {
                Some(b) => b,
                None => false,
            },
            None => false,
        };
        let remote = match obj_get(obj, "remote") {
            Some(v) => match value_as_str(v) {
                Some(s) => Some(s.to_owned()),
                None => None,
            },
            None => None,
        };
        let b = Bookmark { name, target, is_tracking, remote };
        proof {
            assert(b@ =~= spec_parse_bookmark(json_model(*val))->Ok_0);
        }
        Ok(b)
    }
}

/// Law: a log array whose elements each parse as a commit yields exactly one
/// record per element, in input order.
pub proof fn lemma_parse_log_preserves_order(d: JsonData)
    requires
        d is Arr,
        forall|j: int|
            0 <= j < d->Arr_0.len() ==> (#[trigger] spec_parse_commit(d->Arr_0[j])) is Ok,
    ensures
        spec_parse_log(d) is Ok,
        spec_parse_log(d)->Ok_0.len() == d->Arr_0.len(),
        forall|j: int|
            0 <= j < d->Arr_0.len() ==> spec_parse_log(d)->Ok_0[j] == (
            #[trigger] spec_parse_commit(d->Arr_0[j]))->Ok_0,
{
    let views = Seq::new(d->Arr_0.len(), |j: int| spec_parse_commit(d->Arr_0[j])->Ok_0);
    lemma_commits_all_ok(d->Arr_0, views);
}

proof fn lemma_distinct_commit_keys()
    ensures
        "change_id"@ != "commit_id"@,
        "change_id"@ != "description"@,
        "change_id"@ != "author"@,
        "change_id"@ != "committer"@,
        "commit_id"@ != "description"@,
        "commit_id"@ != "author"@,
        "commit_id"@ != "committer"@,
        "description"@ != "author"@,
        "description"@ != "committer"@,
        "author"@ != "committer"@,
{
    reveal_strlit("change_id");
    reveal_strlit("commit_id");
    reveal_strlit("description");
    reveal_strlit("author");
    reveal_strlit("committer");
    assert(("change_id"@).len() == 9);
    assert(("commit_id"@).len() == 9);
    assert(("description"@).len() == 11);
    assert(("author"@).len() == 6);
    assert(("committer"@).len() == 9);
    assert(("change_id"@)[1] == 'h');
    assert(("commit_id"@)[1] == 'o');
    assert(("committer"@)[1] == 'o');
    assert(("commit_id"@)[6] == '_');
    assert(("committer"@)[6] == 't');
}

proof fn lemma_distinct_author_keys()
    ensures
        "name"@ != "email"@,
        "name"@ != "timestamp"@,
        "email"@ != "timestamp"@,
{
    reveal_strlit("name");
    reveal_strlit("email");
    reveal_strlit("timestamp");
    assert(("name"@).len() == 4);
    assert(("email"@).len() == 5);
    assert(("timestamp"@).len() == 9);
}

/// Law: removing one of the required top-level fields from a commit object
/// that otherwise parses makes parsing fail, and the diagnostic names
/// exactly the removed field.
pub proof fn lemma_removed_field_is_named(m: Map<Seq<char>, JsonData>, key: Seq<char>)
    requires
        spec_parse_commit(JsonData::Obj(m)) is Ok,
        key == "change_id"@ || key == "commit_id"@ || key == "description"@ || key == "author"@
            || key == "committer"@,
    ensures
        spec_parse_commit(JsonData::Obj(m.remove(key))) == Err::<CommitView, Seq<char>>(
            field_error(key),
        ),
{
    lemma_distinct_commit_keys();
}

/// Law: removing one of the required fields inside the author or committer
/// record of a commit object that otherwise parses makes parsing fail, and
/// the diagnostic names the dotted path of exactly the removed field.
pub proof fn lemma_removed_author_field_is_named(
    m: Map<Seq<char>, JsonData>,
    outer: Seq<char>,
    sub: Seq<char>,
)
    requires
        spec_parse_commit(JsonData::Obj(m)) is Ok,
        outer == "author"@ || outer == "committer"@,
        sub == "name"@ || sub == "email"@ || sub == "timestamp"@,
    ensures
        spec_parse_commit(
            JsonData::Obj(m.insert(outer, JsonData::Obj(m[outer]->Obj_0.remove(sub)))),
        ) == Err::<CommitView, Seq<char>>(field_error(nested_field(outer, sub))),
{
    lemma_distinct_commit_keys();
    lemma_distinct_author_keys();
}

/// Law: once the five mandatory parts of a commit object are valid, parsing
/// succeeds whatever else the object holds; an absent branches or tags field
/// yields the empty sequence, and an absent or mistyped is_working_copy flag
/// yields false — never a failure.
pub proof fn lemma_lenient_fields_never_fail(m: Map<Seq<char>, JsonData>)
    requires
        spec_get_string(m, "change_id"@) is Ok,
        spec_get_string(m, "commit_id"@) is Ok,
        spec_parse_author(map_lookup(m, "author"@), "author"@) is Ok,
        spec_parse_author(map_lookup(m, "committer"@), "committer"@) is Ok,
        spec_get_string(m, "description"@) is Ok,
    ensures
        spec_parse_commit(JsonData::Obj(m)) is Ok,
        !m.dom().contains("branches"@) ==> spec_parse_commit(JsonData::Obj(m))->Ok_0.branches
            == Seq::<Seq<char>>::empty(),
        !m.dom().contains("tags"@) ==> spec_parse_commit(JsonData::Obj(m))->Ok_0.tags == Seq::<
            Seq<char>,
        >::empty(),
        !m.dom().contains("is_working_copy"@) || !(m["is_working_copy"@] is Bool)
            ==> spec_parse_commit(JsonData::Obj(m))->Ok_0.is_working_copy == false,
{
}

proof fn lemma_commits_all_ok(items: Seq<JsonData>, views: Seq<CommitView>)
    requires
        views.len() == items.len(),
        forall|j: int|
            0 <= j < items.len() ==> #[trigger] spec_parse_commit(items[j]) == Ok::<
                CommitView,
                Seq<char>,
            >(views[j]),
    ensures
        spec_parse_commits(items) == Ok::<Seq<CommitView>, Seq<char>>(views),
    decreases items.len(),
{
    if items.len() == 0 {
        assert(views =~= Seq::<CommitView>::empty());
    } else {
        assert(forall|j: int|
            0 <= j < items.drop_first().len() ==> #[trigger] spec_parse_commit(
                items.drop_first()[j],
            ) == Ok::<CommitView, Seq<char>>(views.drop_first()[j])) by {
            assert(forall|j: int|
                0 <= j < items.drop_first().len() ==> items.drop_first()[j] == items[j + 1]
                    && views.drop_first()[j] == views[j + 1]);
        }
        lemma_commits_all_ok(items.drop_first(), views.drop_first());
        assert(seq![views[0]] + views.drop_first() =~= views);
    }
}

proof fn lemma_commits_first_error(items: Seq<JsonData>, i: int)
    requires
        0 <= i < items.len(),
        forall|j: int| 0 <= j < i ==> (#[trigger] spec_parse_commit(items[j])) is Ok,
        spec_parse_commit(items[i]) is Err,
    ensures
        spec_parse_commits(items) == Err::<Seq<CommitView>, Seq<char>>(
            spec_parse_commit(items[i])->Err_0,
        ),
    decreases i,
{
    if i > 0 {
        assert(forall|j: int|
            0 <= j < items.drop_first().len() ==> items.drop_first()[j] == items[j + 1]);
        lemma_commits_first_error(items.drop_first(), i - 1);
    }
}

proof fn lemma_bookmarks_all_ok(items: Seq<JsonData>, views: Seq<BookmarkView>)
    requires
        views.len() == items.len(),
        forall|j: int|
            0 <= j < items.len() ==> #[trigger] spec_parse_bookmark(items[j]) == Ok::<
                BookmarkView,
                Seq<char>,
            >(views[j]),
    ensures
        spec_parse_bookmark_items(items) == Ok::<Seq<BookmarkView>, Seq<char>>(views),
    decreases items.len(),
{
    if items.len() == 0 {
        assert(views =~= Seq::<BookmarkView>::empty());
    } else {
        assert(forall|j: int|
            0 <= j < items.drop_first().len() ==> #[trigger] spec_parse_bookmark(
                items.drop_first()[j],
            ) == Ok::<BookmarkView, Seq<char>>(views.drop_first()[j])) by {
            assert(forall|j: int|
                0 <= j < items.drop_first().len() ==> items.drop_first()[j] == items[j + 1]
                    && views.drop_first()[j] == views[j + 1]);
        }
        lemma_bookmarks_all_ok(items.drop_first(), views.drop_first());
        assert(seq![views[0]] + views.drop_first() =~= views);
    }
}

proof fn lemma_bookmarks_first_error(items: Seq<JsonData>, i: int)
    requires
        0 <= i < items.len(),
        forall|j: int| 0 <= j < i ==> (#[trigger] spec_parse_bookmark(items[j])) is Ok,
        spec_parse_bookmark(items[i]) is Err,
    ensures
        spec_parse_bookmark_items(items) == Err::<Seq<BookmarkView>, Seq<char>>(
            spec_parse_bookmark(items[i])->Err_0,
        ),
    decreases i,
{
    if i > 0 {
        assert(forall|j: int|
            0 <= j < items.drop_first().len() ==> items.drop_first()[j] == items[j + 1]);
        lemma_bookmarks_first_error(items.drop_first(), i - 1);
    }
}

} // verus!

