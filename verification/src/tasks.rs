use vstd::prelude::*;
use vstd::string::StringExecFns;

use crate::json::Json;
use crate::json::parse_json;
use crate::json::spec_lookup;
use crate::json::spec_parse_json;
use crate::numbers::parse_i32;
use crate::numbers::spec_decimal;
use crate::numbers::spec_parse_i32;
use crate::numbers::u16_to_decimal;
use crate::state::AppState;

verus! {

/// One task, as the remote task-management API reports it.  The schema is
/// lenient: only `id` and `content` are required, every optional field falls
/// back to its default when absent or null, and fields this crate does not
/// know are preserved verbatim in `extra`.
#[derive(Debug)]
pub struct TodoistTask {
    pub id: String,
    pub content: String,
    pub is_completed: bool,
    pub project_id: Option<String>,
    pub section_id: Option<String>,
    pub labels: Option<Vec<String>>,
    pub priority: Option<i32>,
    pub due: Option<Json>,
    pub extra: Vec<(String, Json)>,
}

/// Whether `k` is one of the task fields this crate knows.
pub open spec fn is_known_key(k: Seq<char>) -> bool {
    ||| k == "id"@
    ||| k == "content"@
    ||| k == "is_completed"@
    ||| k == "project_id"@
    ||| k == "section_id"@
    ||| k == "labels"@
    ||| k == "priority"@
    ||| k == "due"@
}

/// Whether one object field carries an acceptable value: required string
/// fields must be strings, optional ones may also be null, `labels` must be
/// null or an array of strings, `priority` null or an integer in `i32`
/// range, and `due` and unknown fields accept anything.
pub open spec fn spec_pair_ok(k: Seq<char>, v: Json) -> bool {
    if k == "id"@ || k == "content"@ {
        v is Str
    } else if k == "project_id"@ || k == "section_id"@ {
        v is Str || v is Null
    } else if k == "is_completed"@ {
        v is Bool
    } else if k == "labels"@ {
        ||| v is Null
        ||| (v matches Json::Arr(items) && (forall|i: int|
            0 <= i < items@.len() ==> (#[trigger] items@[i]) is Str))
    } else if k == "priority"@ {
        ||| v is Null
        ||| (v matches Json::Num(tok) && spec_parse_i32(tok@) is Some)
    } else {
        true
    }
}

/// The error text reported for a field that carries an unacceptable value.
pub open spec fn spec_pair_err(k: Seq<char>) -> Seq<char> {
    if k == "id"@ {
        "JSON error: invalid value for field `id`"@
    } else if k == "content"@ {
        "JSON error: invalid value for field `content`"@
    } else if k == "project_id"@ {
        "JSON error: invalid value for field `project_id`"@
    } else if k == "section_id"@ {
        "JSON error: invalid value for field `section_id`"@
    } else if k == "is_completed"@ {
        "JSON error: invalid value for field `is_completed`"@
    } else if k == "labels"@ {
        "JSON error: invalid value for field `labels`"@
    } else {
        "JSON error: invalid value for field `priority`"@
    }
}

/// The error of the first object field, in order, that carries an
/// unacceptable value, if any.
pub open spec fn spec_first_bad(fields: Seq<(String, Json)>) -> Option<Seq<char>>
    decreases fields.len(),
{
    if fields.len() == 0 {
        None
    } else if !spec_pair_ok(fields[0].0@, fields[0].1) {
        Some(spec_pair_err(fields[0].0@))
    } else {
        spec_first_bad(fields.drop_first())
    }
}

/// The fields of a task object that this crate does not know, in order.
pub open spec fn spec_extras(fields: Seq<(String, Json)>) -> Seq<(String, Json)>
    decreases fields.len(),
{
    if fields.len() == 0 {
        Seq::<(String, Json)>::empty()
    } else if is_known_key(fields[0].0@) {
        spec_extras(fields.drop_first())
    } else {
        seq![fields[0]] + spec_extras(fields.drop_first())
    }
}

/// Why decoding the given object's fields as a task fails, if it does:
/// either some field carries an unacceptable value, or a required field is
/// missing.
pub open spec fn spec_task_err(fields: Seq<(String, Json)>) -> Option<Seq<char>> {
    match spec_first_bad(fields) {
        Some(m) => Some(m),
        None => if !(spec_lookup(fields, "id"@) matches Some(Json::Str(_))) {
            Some("JSON error: missing field `id`"@)
        } else if !(spec_lookup(fields, "content"@) matches Some(Json::Str(_))) {
            Some("JSON error: missing field `content`"@)
        } else {
            None
        },
    }
}

/// Why decoding the given document as a task fails, if it does.
pub open spec fn spec_task_err_json(j: Json) -> Option<Seq<char>> {
    match j {
        Json::Obj(fields) => spec_task_err(fields@),
        _ => Some("JSON error: expected a task object"@),
    }
}

/// Whether `t` is the task decoded from the given object fields: required
/// strings taken from their fields, each optional field from its field where
/// present and not null, its default otherwise, and every unknown field
/// preserved verbatim in `extra`, in order.  The first field of a name wins.
pub open spec fn spec_task_matches(fields: Seq<(String, Json)>, t: TodoistTask) -> bool {
    &&& (spec_lookup(fields, "id"@) matches Some(Json::Str(s)) && t.id == s)
    &&& (spec_lookup(fields, "content"@) matches Some(Json::Str(s)) && t.content == s)
    &&& (match spec_lookup(fields, "is_completed"@) {
        None => t.is_completed == false,
        Some(v) => v matches Json::Bool(b) && t.is_completed == b,
    })
    &&& (match spec_lookup(fields, "project_id"@) {
        None => t.project_id is None,
        Some(v) => match v {
            Json::Null => t.project_id is None,
            Json::Str(s) => t.project_id == Some(s),
            _ => false,
        },
    })
    &&& (match spec_lookup(fields, "section_id"@) {
        None => t.section_id is None,
        Some(v) => match v {
            Json::Null => t.section_id is None,
            Json::Str(s) => t.section_id == Some(s),
            _ => false,
        },
    })
    &&& (match spec_lookup(fields, "labels"@) {
        None => t.labels is None,
        Some(v) => match v {
            Json::Null => t.labels is None,
            Json::Arr(items) => t.labels matches Some(ls) && ls@.len() == items@.len()
                && (forall|i: int|
                0 <= i < items@.len() ==> ((#[trigger] items@[i]) matches Json::Str(s)
                    && ls@[i] == s)),
            _ => false,
        },
    })
    &&& (match spec_lookup(fields, "priority"@) {
        None => t.priority is None,
        Some(v) => match v {
            Json::Null => t.priority is None,
            Json::Num(tok) => t.priority matches Some(p) && spec_parse_i32(tok@) == Some(
                p as int,
            ),
            _ => false,
        },
    })
    &&& (match spec_lookup(fields, "due"@) {
        None => t.due is None,
        Some(v) => match v {
            Json::Null => t.due is None,
            _ => t.due == Some(v),
        },
    })
    &&& t.extra@ == spec_extras(fields)
}

/// Whether `t` is the task decoded from the given document.
pub open spec fn spec_task_matches_json(j: Json, t: TodoistTask) -> bool {
    j matches Json::Obj(fields) && spec_task_matches(fields@, t)
}

proof fn lemma_keys_distinct()
    ensures
        "id"@ != "content"@,
        "id"@ != "is_completed"@,
        "id"@ != "project_id"@,
        "id"@ != "section_id"@,
        "id"@ != "labels"@,
        "id"@ != "priority"@,
        "id"@ != "due"@,
        "content"@ != "is_completed"@,
        "content"@ != "project_id"@,
        "content"@ != "section_id"@,
        "content"@ != "labels"@,
        "content"@ != "priority"@,
        "content"@ != "due"@,
        "is_completed"@ != "project_id"@,
        "is_completed"@ != "section_id"@,
        "is_completed"@ != "labels"@,
        "is_completed"@ != "priority"@,
        "is_completed"@ != "due"@,
        "project_id"@ != "section_id"@,
        "project_id"@ != "labels"@,
        "project_id"@ != "priority"@,
        "project_id"@ != "due"@,
        "section_id"@ != "labels"@,
        "section_id"@ != "priority"@,
        "section_id"@ != "due"@,
        "labels"@ != "priority"@,
        "labels"@ != "due"@,
        "priority"@ != "due"@,
{
    reveal_strlit("id");
    reveal_strlit("content");
    reveal_strlit("is_completed");
    reveal_strlit("project_id");
    reveal_strlit("section_id");
    reveal_strlit("labels");
    reveal_strlit("priority");
    reveal_strlit("due");
    assert(("id"@).len() == 2);
    assert(("content"@).len() == 7);
    assert(("is_completed"@).len() == 12);
    assert(("project_id"@).len() == 10);
    assert(("section_id"@).len() == 10);
    assert(("labels"@).len() == 6);
    assert(("priority"@).len() == 8);
    assert(("due"@).len() == 3);
    assert(("project_id"@)[0] == 'p');
    assert(("section_id"@)[0] == 's');
}

/// Decodes one task from a JSON document, leniently: only `id` and
/// `content` are required, optional fields absent or null fall back to
/// their defaults, and unknown fields are preserved in `extra`.  Yields
/// exactly the error that `spec_task_err_json` states otherwise.
#[verifier::loop_isolation(false)]
#[verifier::rlimit(60)]
pub fn task_from_json(j: Json) -> (r: Result<TodoistTask, String>)
    ensures
        (match r {
            Ok(t) => spec_task_err_json(j) is None && spec_task_matches_json(j, t),
            Err(m) => spec_task_err_json(j) matches Some(msg) && m@ == msg,
        }),
{
    let fields = match j {
        Json::Obj(f) => f,
        _ => {
            return Err("JSON error: expected a task object".to_owned());
        },
    };
    let ghost all = fields@;
    let id_key = String::from_str("id");
    let content_key = String::from_str("content");
    let completed_key = String::from_str("is_completed");
    let project_key = String::from_str("project_id");
    let section_key = String::from_str("section_id");
    let labels_key = String::from_str("labels");
    let priority_key = String::from_str("priority");
    let due_key = String::from_str("due");
    let mut rest = fields;
    let mut id_v: Option<String> = None;
    let mut content_v: Option<String> = None;
    let mut completed_v: Option<bool> = None;
    let mut project_v: Option<Option<String>> = None;
    let mut section_v: Option<Option<String>> = None;
    let mut labels_v: Option<Option<Vec<String>>> = None;
    let mut priority_v: Option<Option<i32>> = None;
    let mut due_v: Option<Option<Json>> = None;
    let mut extra: Vec<(String, Json)> = Vec::new();
    while rest.len() > 0
        invariant
            spec_first_bad(all) == spec_first_bad(rest@),
            spec_extras(all) =~= extra@ + spec_extras(rest@),
            (match id_v {
                None => spec_lookup(all, "id"@) == spec_lookup(rest@, "id"@),
                Some(s) => spec_lookup(all, "id"@) == Some(Json::Str(s)),
            }),
            (match content_v {
                None => spec_lookup(all, "content"@) == spec_lookup(rest@, "content"@),
                Some(s) => spec_lookup(all, "content"@) == Some(Json::Str(s)),
            }),
            (match completed_v {
                None => spec_lookup(all, "is_completed"@) == spec_lookup(rest@, "is_completed"@),
                Some(b) => spec_lookup(all, "is_completed"@) == Some(Json::Bool(b)),
            }),
            (match project_v {
                None => spec_lookup(all, "project_id"@) == spec_lookup(rest@, "project_id"@),
                Some(None) => spec_lookup(all, "project_id"@) == Some(Json::Null),
                Some(Some(s)) => spec_lookup(all, "project_id"@) == Some(Json::Str(s)),
            }),
            (match section_v {
                None => spec_lookup(all, "section_id"@) == spec_lookup(rest@, "section_id"@),
                Some(None) => spec_lookup(all, "section_id"@) == Some(Json::Null),
                Some(Some(s)) => spec_lookup(all, "section_id"@) == Some(Json::Str(s)),
            }),
            (match labels_v {
                None => spec_lookup(all, "labels"@) == spec_lookup(rest@, "labels"@),
                Some(None) => spec_lookup(all, "labels"@) == Some(Json::Null),
                Some(Some(ls)) => spec_lookup(all, "labels"@) matches Some(v) && (
                v matches Json::Arr(items) && ls@.len() == items@.len() && (forall|i: int|
                    0 <= i < items@.len() ==> ((#[trigger] items@[i]) matches Json::Str(s)
                        && ls@[i] == s))),
            }),
            (match priority_v {
                None => spec_lookup(all, "priority"@) == spec_lookup(rest@, "priority"@),
                Some(None) => spec_lookup(all, "priority"@) == Some(Json::Null),
                Some(Some(p)) => spec_lookup(all, "priority"@) matches Some(v) && (
                v matches Json::Num(tok) && spec_parse_i32(tok@) == Some(p as int)),
            }),
            (match due_v {
                None => spec_lookup(all, "due"@) == spec_lookup(rest@, "due"@),
                Some(None) => spec_lookup(all, "due"@) == Some(Json::Null),
                Some(Some(d)) => spec_lookup(all, "due"@) == Some(d) && !(d is Null),
            }),
        decreases rest@.len(),
    {
        let ghost r0 = rest@;
        let pair = rest.remove(0);
        proof {
            lemma_keys_distinct();
            assert(r0.remove(0) =~= r0.drop_first());
        }
        let (k, v) = pair;
        if k == id_key {
            match v {
                Json::Str(s) => {
                    if id_v.is_none() {
                        id_v = Some(s);
                    }
                },
                _ => {
                    return Err("JSON error: invalid value for field `id`".to_owned());
                },
            }
        } else if k == content_key {
            match v {
                Json::Str(s) => {
                    if content_v.is_none() {
                        content_v = Some(s);
                    }
                },
                _ => {
                    return Err("JSON error: invalid value for field `content`".to_owned());
                },
            }
        } else if k == completed_key {
            match v {
                Json::Bool(b) => {
                    if completed_v.is_none() {
                        completed_v = Some(b);
                    }
                },
                _ => {
                    return Err("JSON error: invalid value for field `is_completed`".to_owned());
                },
            }
        } else if k == project_key {
            match v {
                Json::Null => {
                    if project_v.is_none() {
                        project_v = Some(None);
                    }
                },
                Json::Str(s) => {
                    if project_v.is_none() {
                        project_v = Some(Some(s));
                    }
                },
                _ => {
                    return Err("JSON error: invalid value for field `project_id`".to_owned());
                },
            }
        } else if k == section_key {
            match v {
                Json::Null => {
                    if section_v.is_none() {
                        section_v = Some(None);
                    }
                },
                Json::Str(s) => {
                    if section_v.is_none() {
                        section_v = Some(Some(s));
                    }
                },
                _ => {
                    return Err("JSON error: invalid value for field `section_id`".to_owned());
                },
            }
        } else if k == labels_key {
            match v {
                Json::Null => {
                    if labels_v.is_none() {
                        labels_v = Some(None);
                    }
                },
                Json::Arr(items) => {
                    let ghost items_all = items@;
                    let mut items_rest = items;
                    let mut ls: Vec<String> = Vec::new();
                    while items_rest.len() > 0
                        invariant
                            ls@.len() + items_rest@.len() == items_all.len(),
                            items_rest@ =~= items_all.skip(ls@.len() as int),
                            forall|x: int|
                                0 <= x < ls@.len() ==> ((#[trigger] items_all[x]) matches
                                Json::Str(s) && ls@[x] == s),
                        decreases items_rest@.len(),
                    {
                        let ghost i0 = items_rest@;
                        let e = items_rest.remove(0);
                        proof {
                            lemma_keys_distinct();
                            assert(i0.remove(0) =~= i0.drop_first());
                            assert(i0[0] == items_all[ls@.len() as int]);
                            assert(items_all.skip(ls@.len() as int).drop_first() =~= items_all.skip(
                                ls@.len() as int + 1,
                            ));
                        }
                        match e {
                            Json::Str(s) => {
                                ls.push(s);
                            },
                            _ => {
                                proof {
                                    assert(!(items_all[ls@.len() as int] is Str));
                                    assert(!spec_pair_ok(r0[0].0@, r0[0].1));
                                }
                                return Err(
                                    "JSON error: invalid value for field `labels`".to_owned(),
                                );
                            },
                        }
                    }
                    proof {
                        assert(items_all.skip(ls@.len() as int).len() == 0);
                        assert(forall|i: int|
                            0 <= i < items_all.len() ==> (#[trigger] items_all[i]) is Str);
                    }
                    if labels_v.is_none() {
                        labels_v = Some(Some(ls));
                    }
                },
                _ => {
                    return Err("JSON error: invalid value for field `labels`".to_owned());
                },
            }
        } else if k == priority_key {
            match v {
                Json::Null => {
                    if priority_v.is_none() {
                        priority_v = Some(None);
                    }
                },
                Json::Num(tok) => {
                    match parse_i32(tok.as_str()) {
                        Some(p) => {
                            if priority_v.is_none() {
                                priority_v = Some(Some(p));
                            }
                        },
                        None => {
                            return Err(
                                "JSON error: invalid value for field `priority`".to_owned(),
                            );
                        },
                    }
                },
                _ => {
                    return Err("JSON error: invalid value for field `priority`".to_owned());
                },
            }
        } else if k == due_key {
            match v {
                Json::Null => {
                    if due_v.is_none() {
                        due_v = Some(None);
                    }
                },
                other => {
                    if due_v.is_none() {
                        due_v = Some(Some(other));
                    }
                },
            }
        } else {
            extra.push((k, v));
        }
    }
    proof {
        lemma_keys_distinct();
    }
    let id = match id_v {
        Some(s) => s,
        None => {
            return Err("JSON error: missing field `id`".to_owned());
        },
    };
    let content = match content_v {
        Some(s) => s,
        None => {
            return Err("JSON error: missing field `content`".to_owned());
        },
    };
    let t = TodoistTask {
        id,
        content,
        is_completed: (match completed_v {
            Some(b) => b,
            None => false,
        }),
        project_id: (match project_v {
            Some(x) => x,
            None => None,
        }),
        section_id: (match section_v {
            Some(x) => x,
            None => None,
        }),
        labels: (match labels_v {
            Some(x) => x,
            None => None,
        }),
        priority: (match priority_v {
            Some(x) => x,
            None => None,
        }),
        due: (match due_v {
            Some(x) => x,
            None => None,
        }),
        extra,
    };
    Ok(t)
}

/// Whether decoding every element of the given document as a task succeeds.
pub open spec fn spec_tasks_ok(j: Json) -> bool {
    j matches Json::Arr(elems) && (forall|i: int|
        0 <= i < elems@.len() ==> spec_task_err_json(#[trigger] elems@[i]) is None)
}

/// Whether `ts` is the task list decoded from the given document, element by
/// element, in order.
pub open spec fn spec_tasks_match(j: Json, ts: Seq<TodoistTask>) -> bool {
    j matches Json::Arr(elems) && ts.len() == elems@.len() && (forall|i: int|
        0 <= i < elems@.len() ==> spec_task_matches_json(#[trigger] elems@[i], ts[i]))
}

/// Whether `m` is the error text that decoding the given document as a task
/// list reports: the array error for a non-array, otherwise the error of the
/// first element that fails to decode.
pub open spec fn spec_tasks_err(j: Json, m: Seq<char>) -> bool {
    match j {
        Json::Arr(elems) => exists|k: int|
            0 <= k < elems@.len() && (forall|i: int|
                0 <= i < k ==> spec_task_err_json(#[trigger] elems@[i]) is None) && (
            spec_task_err_json(#[trigger] elems@[k]) matches Some(msg) && m == msg),
        _ => m == "JSON error: expected an array of tasks"@,
    }
}

/// Decodes an ordered task list from a JSON document: the document must be
/// an array, every element decodes as `task_from_json` does, and the order
/// is kept.  The first element that fails to decode decides the error.
#[verifier::loop_isolation(false)]
pub fn tasks_from_json(j: Json) -> (r: Result<Vec<TodoistTask>, String>)
    ensures
        (match r {
            Ok(ts) => spec_tasks_ok(j) && spec_tasks_match(j, ts@),
            Err(m) => !spec_tasks_ok(j) && spec_tasks_err(j, m@),
        }),
{
    let elems = match j {
        Json::Arr(e) => e,
        _ => {
            return Err("JSON error: expected an array of tasks".to_owned());
        },
    };
    let ghost all = elems@;
    let mut rest = elems;
    let mut ts: Vec<TodoistTask> = Vec::new();
    while rest.len() > 0
        invariant
            ts@.len() + rest@.len() == all.len(),
            rest@ =~= all.skip(ts@.len() as int),
            forall|i: int|
                0 <= i < ts@.len() ==> spec_task_err_json(#[trigger] all[i]) is None
                    && spec_task_matches_json(all[i], ts@[i]),
        decreases rest@.len(),
    {
        let ghost r0 = rest@;
        let e = rest.remove(0);
        proof {
            assert(r0.remove(0) =~= r0.drop_first());
            assert(r0[0] == all[ts@.len() as int]);
            assert(all.skip(ts@.len() as int).drop_first() =~= all.skip(ts@.len() as int + 1));
        }
        match task_from_json(e) {
            Ok(t) => {
                ts.push(t);
            },
            Err(m) => {
                proof {
                    let ghost k = ts@.len() as int;
                    assert(spec_task_err_json(all[k]) matches Some(msg) && m@ == msg);
                }
                return Err(m);
            },
        }
    }
    proof {
        assert(rest@.len() == 0);
    }
    Ok(ts)
}

/// The error text reported for an upstream response with a non-success
/// status: the numeric status code and the raw response body.
pub open spec fn spec_status_err(status: u16, body: Seq<char>) -> Seq<char> {
    "Upstream error "@ + spec_decimal(status as nat) + ": "@ + body
}

/// Decodes an upstream response to the task-list request.  A non-2xx status
/// fails with the status code and the raw body; a 2xx body that is not valid
/// JSON fails with a decode error; otherwise the body decodes as
/// `tasks_from_json` does.
pub fn tasks_from_response(status: u16, body: &str) -> (r: Result<Vec<TodoistTask>, String>)
    ensures
        !(200 <= status < 300) ==> (r matches Err(m) && m@ == spec_status_err(status, body@)),
        (200 <= status < 300) ==> (match spec_parse_json(body@) {
            None => r matches Err(m) && m@ == "JSON error: response body is not valid JSON"@,
            Some(j) => (match r {
                Ok(ts) => spec_tasks_ok(j) && spec_tasks_match(j, ts@),
                Err(m) => !spec_tasks_ok(j) && spec_tasks_err(j, m@),
            }),
        }),
{
    if status < 200 || status >= 300 {
        let mut m = String::from_str("Upstream error ");
        let code = u16_to_decimal(status);
        m.append(code.as_str());
        m.append(": ");
        m.append(body);
        proof {
            assert(m@ =~= spec_status_err(status, body@));
        }
        return Err(m);
    }
    match parse_json(body) {
        None => Err("JSON error: response body is not valid JSON".to_owned()),
        Some(j) => tasks_from_json(j),
    }
}

/// A prepared task-list request: the URL to fetch and the bearer token to
/// authenticate with.
#[derive(Debug)]
pub struct TasksRequest {
    pub url: String,
    pub key: String,
}

/// Prepares the task-list request from the shared state.  With an empty
/// stored key it fails immediately with the fixed missing-key message — the
/// caller then has nothing to send, so no network call happens; otherwise
/// the URL is the configured base with `/tasks` appended and the key is the
/// stored one.
pub fn prepare_tasks_request(state: &AppState) -> (r: Result<TasksRequest, String>)
    ensures
        (match r {
            Ok(q) => state.todoist_key@.len() > 0 && q.url@ == state.todoist_base@ + "/tasks"@
                && q.key@ == state.todoist_key@,
            Err(m) => state.todoist_key@.len() == 0 && m@ == "Missing TODOIST_API_KEY (set it in your env)"@,
        }),
{
    if state.todoist_key.as_str().is_empty() {
        return Err("Missing TODOIST_API_KEY (set it in your env)".to_owned());
    }
    let mut url = state.todoist_base.clone();
    url.append("/tasks");
    Ok(TasksRequest { url, key: state.todoist_key.clone() })
}

} // verus!
