use vstd::prelude::*;

verus! {

/// Process-wide configuration shared by every command handler.
///
/// The reusable HTTP client and the locks that guard the two mutable strings
/// live in the embedding application; this type holds the configuration
/// values themselves, so that every read and update of them is specified.
pub struct AppState {
    /// Base URL of the task-management API; set once at startup.
    pub todoist_base: String,
    /// Bearer token for the task-management API; mutable, may be empty.
    pub todoist_key: String,
    /// Currently selected model name; mutable.
    pub model_name: String,
}

impl AppState {
    /// Builds the initial state from the two environment values, applying
    /// the documented defaults where a value is absent.
    pub fn new(base_url: Option<String>, api_key: Option<String>) -> (s: AppState)
        ensures
            s.todoist_base@ == (match base_url {
                Some(b) => b@,
                None => "https://api.todoist.com/rest/v2"@,
            }),
            s.todoist_key@ == (match api_key {
                Some(k) => k@,
                None => Seq::<char>::empty(),
            }),
            s.model_name@ == "llama3.2:3b-instruct"@,
    {
        let base = match base_url {
            Some(b) => b,
            None => "https://api.todoist.com/rest/v2".to_owned(),
        };
        let key = match api_key {
            Some(k) => k,
            None => String::new(),
        };
        AppState {
            todoist_base: base,
            todoist_key: key,
            model_name: "llama3.2:3b-instruct".to_owned(),
        }
    }

    /// Read of the selected model name; returns a copy of the stored value.
    pub fn get_model_name(&self) -> (r: String)
        ensures
            r@ == self.model_name@,
    {
        self.model_name.clone()
    }

    /// Read of the task-API key; returns a copy, so the stored value cannot
    /// be mutated through the result.
    pub fn get_task_api_key(&self) -> (r: String)
        ensures
            r@ == self.todoist_key@,
    {
        self.todoist_key.clone()
    }
}

/// Request payload of the `set_model` command.
pub struct SetModelReq {
    pub model: String,
}

/// The state after a model update: the selected name replaced whole, the
/// other fields untouched.
pub open spec fn spec_set_model(s: AppState, m: String) -> AppState {
    AppState { model_name: m, ..s }
}

/// Overwrites the selected model name with the requested one, unconditionally:
/// any string is accepted, including the empty one.  The new name is stored
/// whole — the stored value afterwards is exactly the requested string, never
/// a mixture of old and new characters — and the other fields are untouched.
pub fn set_model(state: &mut AppState, req: SetModelReq) -> (r: Result<(), String>)
    ensures
        r is Ok,
        *final(state) == spec_set_model(*old(state), req.model),
        final(state).model_name == req.model,
        final(state).todoist_base == old(state).todoist_base,
        final(state).todoist_key == old(state).todoist_key,
{
    state.model_name = req.model;
    Ok(())
}

/// Whichever of two model updates is applied last decides the stored name,
/// whole: after updates to `a` and then `b`, in either order, the name is
/// exactly the string applied last, never a mixture of the two and never
/// lost, and the rest of the state is untouched either way.
pub proof fn lemma_set_model_last_writer_wins(s: AppState, a: String, b: String)
    ensures
        spec_set_model(spec_set_model(s, a), b).model_name == b,
        spec_set_model(spec_set_model(s, b), a).model_name == a,
        spec_set_model(spec_set_model(s, a), b).todoist_base == s.todoist_base,
        spec_set_model(spec_set_model(s, a), b).todoist_key == s.todoist_key,
{
}

} // verus!
