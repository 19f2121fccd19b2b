use vstd::prelude::*;
use crate::json::{
    JsonValue, lookup, opt_str_member, spec_lookup, spec_opt_str_member, spec_str_member,
    str_member,
};

verus! {

/// A question produced by the backend, consumed read-only by the UI.
#[derive(Debug, PartialEq, Eq)]
pub struct Question {
    pub id: String,
    pub text: String,
    pub category: String,
    pub hint: Option<String>,
}

/// Ghost image of a `Question`: its fields as character sequences.
pub struct QuestionView {
    pub id: Seq<char>,
    pub text: Seq<char>,
    pub category: Seq<char>,
    pub hint: Option<Seq<char>>,
}

impl View for Question {
    type V = QuestionView;

    open spec fn view(&self) -> QuestionView {
        QuestionView {
            id: self.id@,
            text: self.text@,
            category: self.category@,
            hint: match self.hint {
                Some(h) => Some(h@),
                None => None,
            },
        }
    }
}

impl DeepView for Question {
    type V = QuestionView;

    open spec fn deep_view(&self) -> QuestionView {
        self.view()
    }
}

/// One record of the backend's append-only processing log.
#[derive(Debug, PartialEq, Eq)]
pub struct ProcessingHistoryEntry {
    pub id: String,
    pub timestamp: String,
    pub status: String,
    pub input_type: String,
    pub input_source: Option<String>,
    pub result: Option<String>,
    pub error: Option<String>,
}

/// Ghost image of a `ProcessingHistoryEntry`.
pub struct EntryView {
    pub id: Seq<char>,
    pub timestamp: Seq<char>,
    pub status: Seq<char>,
    pub input_type: Seq<char>,
    pub input_source: Option<Seq<char>>,
    pub result: Option<Seq<char>>,
    pub error: Option<Seq<char>>,
}

pub open spec fn opt_view(o: Option<String>) -> Option<Seq<char>> {
    match o {
        Some(s) => Some(s@),
        None => None,
    }
}

impl View for ProcessingHistoryEntry {
    type V = EntryView;

    open spec fn view(&self) -> EntryView {
        EntryView {
            id: self.id@,
            timestamp: self.timestamp@,
            status: self.status@,
            input_type: self.input_type@,
            input_source: opt_view(self.input_source),
            result: opt_view(self.result),
            error: opt_view(self.error),
        }
    }
}

impl DeepView for ProcessingHistoryEntry {
    type V = EntryView;

    open spec fn deep_view(&self) -> EntryView {
        self.view()
    }
}

/// A read-only snapshot of the backend's runtime state.
#[derive(Debug, PartialEq, Eq)]
pub struct SystemDiagnostics {
    pub python_version: String,
    pub platform: String,
    pub modules: Vec<(String, bool)>,
    pub event_loop_status: String,
}

/// Ghost image of a `SystemDiagnostics`.
pub struct DiagnosticsView {
    pub python_version: Seq<char>,
    pub platform: Seq<char>,
    pub modules: Seq<(Seq<char>, bool)>,
    pub event_loop_status: Seq<char>,
}

impl View for SystemDiagnostics {
    type V = DiagnosticsView;

    open spec fn view(&self) -> DiagnosticsView {
        DiagnosticsView {
            python_version: self.python_version@,
            platform: self.platform@,
            modules: Seq::new(
                self.modules@.len(),
                |i: int| (self.modules@[i].0@, self.modules@[i].1),
            ),
            event_loop_status: self.event_loop_status@,
        }
    }
}

// ----- shape of one question -----

/// The question a JSON value stands for: an object with string members
/// `id`, `text` and `category`, and an optional string member `hint`.
/// Members this shell does not know are ignored.
pub open spec fn spec_question(v: JsonValue) -> Option<QuestionView> {
    match v {
        JsonValue::Obj(members) => {
            let m = members@;
            if spec_str_member(m, "id"@) is Some && spec_str_member(m, "text"@) is Some
                && spec_str_member(m, "category"@) is Some && spec_opt_str_member(m, "hint"@)
                is Some {
                Some(
                    QuestionView {
                        id: spec_str_member(m, "id"@).unwrap(),
                        text: spec_str_member(m, "text"@).unwrap(),
                        category: spec_str_member(m, "category"@).unwrap(),
                        hint: spec_opt_str_member(m, "hint"@).unwrap(),
                    },
                )
            } else {
                None
            }
        },
        _ => None,
    }
}

/// Reads one question out of a JSON value, exactly when the value has the
/// shape `spec_question` asks for.
pub fn question_of_json(v: &JsonValue) -> (r: Option<Question>)
    ensures
        (r is Some) == (spec_question(*v) is Some),
        r matches Some(q) ==> spec_question(*v) == Some(q@),
{
    match v {
        JsonValue::Obj(members) => {
            let id = match str_member(members, "id") {
                Some(s) => s,
                None => {
                    return None;
                },
            };
            let text = match str_member(members, "text") {
                Some(s) => s,
                None => {
                    return None;
                },
            };
            let category = match str_member(members, "category") {
                Some(s) => s,
                None => {
                    return None;
                },
            };
            let hint = match opt_str_member(members, "hint") {
                Some(h) => h,
                None => {
                    return None;
                },
            };
            Some(Question { id, text, category, hint })
        },
        _ => None,
    }
}

// ----- shape of a question list -----

pub open spec fn all_questions_ok(items: Seq<JsonValue>) -> bool {
    forall|i: int| 0 <= i < items.len() ==> spec_question(items[i]) is Some
}

/// The question list a JSON value stands for: an array whose every element
/// is a question.
pub open spec fn spec_questions(v: JsonValue) -> Option<Seq<QuestionView>> {
    match v {
        JsonValue::Arr(items) => if all_questions_ok(items@) {
            Some(Seq::new(items@.len(), |i: int| spec_question(items@[i]).unwrap()))
        } else {
            None
        },
        _ => None,
    }
}

/// Reads a question list out of a JSON value, exactly when the value has
/// the shape `spec_questions` asks for.
#[verifier::loop_isolation(false)]
pub fn questions_of_json(v: &JsonValue) -> (r: Option<Vec<Question>>)
    ensures
        (r is Some) == (spec_questions(*v) is Some),
        r matches Some(qs) ==> spec_questions(*v) == Some(qs.deep_view()),
{
    match v {
        JsonValue::Arr(items) => {
            let mut out: Vec<Question> = Vec::new();
            let mut i: usize = 0;
            while i < items.len()
                invariant
                    i <= items@.len(),
                    out@.len() == i,
                    forall|j: int| 0 <= j < i ==> spec_question(items@[j]) is Some,
                    forall|j: int|
                        0 <= j < i ==> #[trigger] out@[j]@ == spec_question(items@[j]).unwrap(),
                decreases items@.len() - i,
            {
                match question_of_json(&items[i]) {
                    Some(q) => out.push(q),
                    None => {
                        proof {
                            assert(spec_question(items@[i as int]) is None);
                        }
                        return None;
                    },
                }
                i += 1;
            }
            proof {
                let goal = Seq::new(items@.len(), |j: int| spec_question(items@[j]).unwrap());
                assert forall|j: int| 0 <= j < out@.len() implies #[trigger] out.deep_view()[j]
                    == goal[j] by {
                    assert(out.deep_view()[j] == out@[j].deep_view());
                }
                assert(out.deep_view().len() == out@.len());
                assert(out.deep_view() =~= goal);
            }
            Some(out)
        },
        _ => None,
    }
}

// ----- shape of one history entry -----

/// The history entry a JSON value stands for: an object with string members
/// `id`, `timestamp`, `status` and `input_type`, and optional string
/// members `input_source`, `result` and `error`.
pub open spec fn spec_entry(v: JsonValue) -> Option<EntryView> {
    match v {
        JsonValue::Obj(members) => {
            let m = members@;
            if spec_str_member(m, "id"@) is Some && spec_str_member(m, "timestamp"@) is Some
                && spec_str_member(m, "status"@) is Some && spec_str_member(m, "input_type"@)
                is Some && spec_opt_str_member(m, "input_source"@) is Some && spec_opt_str_member(
                m,
                "result"@,
            ) is Some && spec_opt_str_member(m, "error"@) is Some {
                Some(
                    EntryView {
                        id: spec_str_member(m, "id"@).unwrap(),
                        timestamp: spec_str_member(m, "timestamp"@).unwrap(),
                        status: spec_str_member(m, "status"@).unwrap(),
                        input_type: spec_str_member(m, "input_type"@).unwrap(),
                        input_source: spec_opt_str_member(m, "input_source"@).unwrap(),
                        result: spec_opt_str_member(m, "result"@).unwrap(),
                        error: spec_opt_str_member(m, "error"@).unwrap(),
                    },
                )
            } else {
                None
            }
        },
        _ => None,
    }
}

/// Reads one history entry out of a JSON value, exactly when the value has
/// the shape `spec_entry` asks for.
pub fn entry_of_json(v: &JsonValue) -> (r: Option<ProcessingHistoryEntry>)
    ensures
        (r is Some) == (spec_entry(*v) is Some),
        r matches Some(e) ==> spec_entry(*v) == Some(e@),
{
    match v {
        JsonValue::Obj(members) => {
            let id = match str_member(members, "id") {
                Some(s) => s,
                None => {
                    return None;
                },
            };
            let timestamp = match str_member(members, "timestamp") {
                Some(s) => s,
                None => {
                    return None;
                },
            };
            let status = match str_member(members, "status") {
                Some(s) => s,
                None => {
                    return None;
                },
            };
            let input_type = match str_member(members, "input_type") {
                Some(s) => s,
                None => {
                    return None;
                },
            };
            let input_source = match opt_str_member(members, "input_source") {
                Some(h) => h,
                None => {
                    return None;
                },
            };
            let result = match opt_str_member(members, "result") {
                Some(h) => h,
                None => {
                    return None;
                },
            };
            let error = match opt_str_member(members, "error") {
                Some(h) => h,
                None => {
                    return None;
                },
            };
            Some(
                ProcessingHistoryEntry {
                    id,
                    timestamp,
                    status,
                    input_type,
                    input_source,
                    result,
                    error,
                },
            )
        },
        _ => None,
    }
}

// ----- shape of the history list -----

pub open spec fn all_entries_ok(items: Seq<JsonValue>) -> bool {
    forall|i: int| 0 <= i < items.len() ==> spec_entry(items[i]) is Some
}

/// The history list a JSON value stands for: an array whose every element
/// is a history entry.
pub open spec fn spec_history(v: JsonValue) -> Option<Seq<EntryView>> {
    match v {
        JsonValue::Arr(items) => if all_entries_ok(items@) {
            Some(Seq::new(items@.len(), |i: int| spec_entry(items@[i]).unwrap()))
        } else {
            None
        },
        _ => None,
    }
}

/// Reads the history list out of a JSON value, exactly when the value has
/// the shape `spec_history` asks for.
#[verifier::loop_isolation(false)]
pub fn history_of_json(v: &JsonValue) -> (r: Option<Vec<ProcessingHistoryEntry>>)
    ensures
        (r is Some) == (spec_history(*v) is Some),
        r matches Some(es) ==> spec_history(*v) == Some(es.deep_view()),
{
    match v {
        JsonValue::Arr(items) => {
            let mut out: Vec<ProcessingHistoryEntry> = Vec::new();
            let mut i: usize = 0;
            while i < items.len()
                invariant
                    i <= items@.len(),
                    out@.len() == i,
                    forall|j: int| 0 <= j < i ==> spec_entry(items@[j]) is Some,
                    forall|j: int|
                        0 <= j < i ==> #[trigger] out@[j]@ == spec_entry(items@[j]).unwrap(),
                decreases items@.len() - i,
            {
                match entry_of_json(&items[i]) {
                    Some(e) => out.push(e),
                    None => {
                        proof {
                            assert(spec_entry(items@[i as int]) is None);
                        }
                        return None;
                    },
                }
                i += 1;
            }
            proof {
                let goal = Seq::new(items@.len(), |j: int| spec_entry(items@[j]).unwrap());
                assert forall|j: int| 0 <= j < out@.len() implies #[trigger] out.deep_view()[j]
                    == goal[j] by {
                    assert(out.deep_view()[j] == out@[j].deep_view());
                }
                assert(out.deep_view().len() == out@.len());
                assert(out.deep_view() =~= goal);
            }
            Some(out)
        },
        _ => None,
    }
}

// ----- shape of the diagnostics snapshot -----

pub open spec fn all_modules_ok(members: Seq<(String, JsonValue)>) -> bool {
    forall|i: int| 0 <= i < members.len() ==> members[i].1 is Bool
}

pub open spec fn spec_bool_of(v: JsonValue) -> bool {
    match v {
        JsonValue::Bool(b) => b,
        _ => arbitrary(),
    }
}

/// The module-availability mapping a JSON value stands for: an object whose
/// every member value is a boolean, in member order.
pub open spec fn spec_modules(v: JsonValue) -> Option<Seq<(Seq<char>, bool)>> {
    match v {
        JsonValue::Obj(members) => if all_modules_ok(members@) {
            Some(
                Seq::new(
                    members@.len(),
                    |i: int| (members@[i].0@, spec_bool_of(members@[i].1)),
                ),
            )
        } else {
            None
        },
        _ => None,
    }
}

/// The diagnostics snapshot a JSON value stands for: an object with string
/// members `python_version`, `platform` and `event_loop_status`, and a
/// member `modules` mapping module names to booleans.
pub open spec fn spec_diagnostics(v: JsonValue) -> Option<DiagnosticsView> {
    match v {
        JsonValue::Obj(members) => {
            let m = members@;
            if spec_str_member(m, "python_version"@) is Some && spec_str_member(m, "platform"@)
                is Some && spec_str_member(m, "event_loop_status"@) is Some && (match spec_lookup(
                m,
                "modules"@,
            ) {
                Some(mv) => spec_modules(mv) is Some,
                None => false,
            }) {
                Some(
                    DiagnosticsView {
                        python_version: spec_str_member(m, "python_version"@).unwrap(),
                        platform: spec_str_member(m, "platform"@).unwrap(),
                        modules: spec_modules(spec_lookup(m, "modules"@).unwrap()).unwrap(),
                        event_loop_status: spec_str_member(m, "event_loop_status"@).unwrap(),
                    },
                )
            } else {
                None
            }
        },
        _ => None,
    }
}

/// Reads the module-availability mapping out of a JSON value, exactly when
/// the value has the shape `spec_modules` asks for.
#[verifier::loop_isolation(false)]
fn modules_of_json(v: &JsonValue) -> (r: Option<Vec<(String, bool)>>)
    ensures
        (r is Some) == (spec_modules(*v) is Some),
        r matches Some(ms) ==> spec_modules(*v) == Some(
            Seq::new(ms@.len(), |i: int| (ms@[i].0@, ms@[i].1)),
        ),
{
    match v {
        JsonValue::Obj(members) => {
            let mut out: Vec<(String, bool)> = Vec::new();
            let mut i: usize = 0;
            while i < members.len()
                invariant
                    i <= members@.len(),
                    out@.len() == i,
                    forall|j: int| 0 <= j < i ==> members@[j].1 is Bool,
                    forall|j: int|
                        0 <= j < i ==> (#[trigger] out@[j]).0@ == members@[j].0@ && out@[j].1
                            == spec_bool_of(members@[j].1),
                decreases members@.len() - i,
            {
                let flag: bool = match &members[i].1 {
                    JsonValue::Bool(b) => *b,
                    _ => {
                        proof {
                            assert(!(members@[i as int].1 is Bool));
                        }
                        return None;
                    },
                };
                out.push((members[i].0.clone(), flag));
                i += 1;
            }
            proof {
                let goal = Seq::new(
                    members@.len(),
                    |j: int| (members@[j].0@, spec_bool_of(members@[j].1)),
                );
                assert(Seq::new(out@.len(), |j: int| (out@[j].0@, out@[j].1)) =~= goal);
            }
            Some(out)
        },
        _ => None,
    }
}

/// Reads the diagnostics snapshot out of a JSON value, exactly when the
/// value has the shape `spec_diagnostics` asks for.
pub fn diagnostics_of_json(v: &JsonValue) -> (r: Option<SystemDiagnostics>)
    ensures
        (r is Some) == (spec_diagnostics(*v) is Some),
        r matches Some(d) ==> spec_diagnostics(*v) == Some(d@),
{
    match v {
        JsonValue::Obj(members) => {
            let python_version = match str_member(members, "python_version") {
                Some(s) => s,
                None => {
                    return None;
                },
            };
            let platform = match str_member(members, "platform") {
                Some(s) => s,
                None => {
                    return None;
                },
            };
            let event_loop_status = match str_member(members, "event_loop_status") {
                Some(s) => s,
                None => {
                    return None;
                },
            };
            let modules = match lookup(members, "modules") {
                Some(mv) => match modules_of_json(mv) {
                    Some(ms) => ms,
                    None => {
                        return None;
                    },
                },
                None => {
                    return None;
                },
            };
            Some(SystemDiagnostics { python_version, platform, modules, event_loop_status })
        },
        _ => None,
    }
}

// ----- shape of a plain string response -----

/// The text a JSON value stands for: exactly a JSON string.
pub open spec fn spec_text_value(v: JsonValue) -> Option<Seq<char>> {
    match v {
        JsonValue::Str(s) => Some(s@),
        _ => None,
    }
}

/// Reads a plain string response out of a JSON value.
pub fn text_of_json(v: &JsonValue) -> (r: Option<String>)
    ensures
        (r is Some) == (spec_text_value(*v) is Some),
        r matches Some(s) ==> spec_text_value(*v) == Some(s@),
{
    match v {
        JsonValue::Str(s) => Some(s.clone()),
        _ => None,
    }
}

} // verus!
