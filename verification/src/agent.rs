//! The Codex CLI client's own logic: the arguments a session is started and
//! resumed with, and the reading of the CLI's JSON-lines output into a turn.
use vstd::prelude::*;
use vstd::string::StringExecFns;

use crate::json::{json_accepts, json_string_at, parses_as_json, string_at};
use crate::text::{holds_text, is_blank, is_blank_line, opt_view, split_lines, text_lines};

verus! {

/// What one run of the Codex CLI reported: the session (thread) it ran in and
/// the text of the agent's last message.
#[derive(Debug, Clone, PartialEq, Eq)]
pub struct CodexTurn {
    pub session_id: Option<String>,
    pub response: Option<String>,
}

/// The view of a turn: its session id and its response.
pub type TurnView = (Option<Seq<char>>, Option<Seq<char>>);

impl CodexTurn {
    pub open spec fn view(&self) -> TurnView {
        (opt_view(self.session_id), opt_view(self.response))
    }
}

/// Why a Codex run gave no usable turn.
#[derive(Debug, Clone, Copy, PartialEq, Eq)]
pub enum AgentError {
    /// A non-blank output line is not a JSON document.
    InvalidJsonEvent,
    /// The run reported no session (thread) id.
    MissingSessionId,
    /// The run reported no agent message.
    MissingResponse,
}

/// The effect of one event on a turn: `thread.started` sets the session id to
/// the event's `thread_id`, an `item.completed` whose item is an
/// `agent_message` sets the response to the item's `text`; every other event
/// leaves the turn as it is.
pub open spec fn event_effect(
    turn: TurnView,
    event_type: Option<Seq<char>>,
    thread_id: Option<Seq<char>>,
    item_type: Option<Seq<char>>,
    item_text: Option<Seq<char>>,
) -> TurnView {
    if event_type == Some("thread.started"@) {
        (thread_id, turn.1)
    } else if event_type == Some("item.completed"@) && item_type == Some("agent_message"@) {
        (turn.0, item_text)
    } else {
        turn
    }
}

/// The effect of one output line: a blank line changes nothing, a line that is
/// not JSON spoils the output (`None`), any other line is an event.
pub open spec fn line_effect(turn: TurnView, line: Seq<char>) -> Option<TurnView> {
    if is_blank(line) {
        Some(turn)
    } else if !json_accepts(line) {
        None
    } else {
        Some(
            event_effect(
                turn,
                json_string_at(line, "/type"@),
                json_string_at(line, "/thread_id"@),
                json_string_at(line, "/item/type"@),
                json_string_at(line, "/item/text"@),
            ),
        )
    }
}

/// The turn that a sequence of output lines describes, read in order from an
/// empty turn; `None` when some non-blank line is not JSON.
pub open spec fn lines_turn(lines: Seq<Seq<char>>) -> Option<TurnView>
    decreases lines.len(),
{
    if lines.len() == 0 {
        Some((None, None))
    } else {
        match lines_turn(lines.drop_last()) {
            Some(turn) => line_effect(turn, lines.last()),
            None => None,
        }
    }
}

/// The turn that the CLI's whole output describes.
pub open spec fn output_turn(output: Seq<char>) -> Option<TurnView> {
    lines_turn(text_lines(output))
}

/// Applies one event, given by the strings serde_json found at `/type`,
/// `/thread_id`, `/item/type` and `/item/text`, to `turn`.
pub fn apply_event(
    turn: CodexTurn,
    event_type: Option<String>,
    thread_id: Option<String>,
    item_type: Option<String>,
    item_text: Option<String>,
) -> (r: CodexTurn)
    ensures
        r.view() == event_effect(
            turn.view(),
            opt_view(event_type),
            opt_view(thread_id),
            opt_view(item_type),
            opt_view(item_text),
        ),
{
    if holds_text(&event_type, "thread.started") {
        CodexTurn { session_id: thread_id, response: turn.response }
    } else if holds_text(&event_type, "item.completed") && holds_text(&item_type, "agent_message") {
        CodexTurn { session_id: turn.session_id, response: item_text }
    } else {
        turn
    }
}

/// Reads the JSON-lines output of `codex exec --json`: blank lines are
/// skipped, every other line must be a JSON event, and the events are applied
/// in order to an empty turn.
pub fn parse_codex_output(output: &str) -> (r: Result<CodexTurn, AgentError>)
    ensures
        match r {
            Ok(turn) => output_turn(output@) == Some(turn.view()),
            Err(e) => output_turn(output@) is None && e == AgentError::InvalidJsonEvent,
        },
{
    let lines = split_lines(output);
    let ghost views = lines@.map_values(|l: &str| l@);
    let mut turn = CodexTurn { session_id: None, response: None };
    let n = lines.len();
    for k in 0..n
        invariant
            n == lines@.len(),
            views == lines@.map_values(|l: &str| l@),
            views == text_lines(output@),
            lines_turn(views.take(k as int)) == Some(turn.view()),
    {
        let line = lines[k];
        proof {
            assert(views.take(k + 1).drop_last() =~= views.take(k as int));
            assert(views.take(k + 1).last() == line@);
        }
        if !is_blank_line(line) {
            if !parses_as_json(line) {
                proof {
                    lemma_spoiled_stays_spoiled(views, k as int + 1);
                    assert(views.take(n as int) =~= views);
                }
                return Err(AgentError::InvalidJsonEvent);
            }
            let event_type = string_at(line, "/type");
            let thread_id = string_at(line, "/thread_id");
            let item_type = string_at(line, "/item/type");
            let item_text = string_at(line, "/item/text");
            turn = apply_event(turn, event_type, thread_id, item_type, item_text);
        }
    }
    proof {
        assert(views.take(n as int) =~= views);
    }
    Ok(turn)
}

/// Once a prefix of the lines spoils the output, every longer prefix does.
proof fn lemma_spoiled_stays_spoiled(lines: Seq<Seq<char>>, k: int)
    requires
        0 <= k <= lines.len(),
        lines_turn(lines.take(k)) is None,
    ensures
        lines_turn(lines) is None,
    decreases lines.len() - k,
{
    if k < lines.len() {
        assert(lines.take(k + 1).drop_last() =~= lines.take(k));
        lemma_spoiled_stays_spoiled(lines, k + 1);
    } else {
        assert(lines.take(k) =~= lines);
    }
}

/// A blank line changes nothing in what the output describes.
pub proof fn law_blank_lines_change_nothing(lines: Seq<Seq<char>>, blank: Seq<char>)
    requires
        is_blank(blank),
    ensures
        lines_turn(lines.push(blank)) == lines_turn(lines),
{
    assert(lines.push(blank).drop_last() =~= lines);
}

/// The output is read without error exactly when every non-blank line of it
/// is a JSON document.
pub proof fn law_accepted_iff_every_event_is_json(lines: Seq<Seq<char>>)
    ensures
        lines_turn(lines) is Some <==> forall|i: int|
            0 <= i < lines.len() && !is_blank(#[trigger] lines[i]) ==> json_accepts(lines[i]),
    decreases lines.len(),
{
    if lines.len() > 0 {
        let prev = lines.drop_last();
        law_accepted_iff_every_event_is_json(prev);
        if lines_turn(lines) is Some {
            assert forall|i: int|
                0 <= i < lines.len() && !is_blank(#[trigger] lines[i]) implies json_accepts(
                lines[i],
            ) by {
                if i < lines.len() - 1 {
                    assert(prev[i] == lines[i]);
                }
            }
        } else {
            if lines_turn(prev) is Some {
                let last = lines.len() - 1;
                assert(!is_blank(lines[last]) && !json_accepts(lines[last]));
            } else {
                let i = choose|i: int|
                    0 <= i < prev.len() && !is_blank(#[trigger] prev[i]) && !json_accepts(prev[i]);
                assert(lines[i] == prev[i]);
            }
        }
    }
}

/// Whether a line is a `thread.started` event for the session `id`.
pub open spec fn starts_session(line: Seq<char>, id: Seq<char>) -> bool {
    &&& !is_blank(line)
    &&& json_accepts(line)
    &&& json_string_at(line, "/type"@) == Some("thread.started"@)
    &&& json_string_at(line, "/thread_id"@) == Some(id)
}

/// Whether a line is an `item.completed` event of an agent message with `text`.
pub open spec fn answers(line: Seq<char>, text: Seq<char>) -> bool {
    &&& !is_blank(line)
    &&& json_accepts(line)
    &&& json_string_at(line, "/type"@) == Some("item.completed"@)
    &&& json_string_at(line, "/item/type"@) == Some("agent_message"@)
    &&& json_string_at(line, "/item/text"@) == Some(text)
}

/// A session id and a response that the output reports were each carried by
/// one of its lines: the id by a `thread.started` event, the response by a
/// completed agent message.
pub proof fn law_turn_comes_from_events(lines: Seq<Seq<char>>)
    ensures
        lines_turn(lines) matches Some(turn) ==> {
            &&& turn.0 matches Some(id) ==> exists|i: int|
                0 <= i < lines.len() && starts_session(#[trigger] lines[i], id)
            &&& turn.1 matches Some(text) ==> exists|i: int|
                0 <= i < lines.len() && answers(#[trigger] lines[i], text)
        },
    decreases lines.len(),
{
    if lines.len() > 0 {
        let prev = lines.drop_last();
        let last = lines.len() - 1;
        law_turn_comes_from_events(prev);
        if let Some(turn) = lines_turn(lines) {
            let before = lines_turn(prev).unwrap();
            if let Some(id) = turn.0 {
                if before.0 == Some(id) {
                    let i = choose|i: int| 0 <= i < prev.len() && starts_session(#[trigger] prev[i], id);
                    assert(lines[i] == prev[i]);
                } else {
                    assert(starts_session(lines[last], id));
                }
            }
            if let Some(text) = turn.1 {
                if before.1 == Some(text) {
                    let i = choose|i: int| 0 <= i < prev.len() && answers(#[trigger] prev[i], text);
                    assert(lines[i] == prev[i]);
                } else {
                    assert(answers(lines[last], text));
                }
            }
        }
    }
}

/// Only two events change a turn: any event whose type is neither
/// `thread.started` nor an `item.completed` of an agent message leaves it as
/// it was.
pub proof fn law_other_events_leave_turn_unchanged(
    turn: TurnView,
    event_type: Option<Seq<char>>,
    thread_id: Option<Seq<char>>,
    item_type: Option<Seq<char>>,
    item_text: Option<Seq<char>>,
)
    requires
        event_type != Some("thread.started"@),
        !(event_type == Some("item.completed"@) && item_type == Some("agent_message"@)),
    ensures
        event_effect(turn, event_type, thread_id, item_type, item_text) == turn,
{
}

/// Whether a line is a JSON `thread.started` event.
pub open spec fn is_thread_started(line: Seq<char>) -> bool {
    &&& !is_blank(line)
    &&& json_accepts(line)
    &&& json_string_at(line, "/type"@) == Some("thread.started"@)
}

/// Whether a line is a JSON `item.completed` event of an agent message.
pub open spec fn is_agent_message(line: Seq<char>) -> bool {
    &&& !is_blank(line)
    &&& json_accepts(line)
    &&& json_string_at(line, "/type"@) == Some("item.completed"@)
    &&& json_string_at(line, "/item/type"@) == Some("agent_message"@)
}

/// The session id that the output reports is the `thread_id` of its last
/// `thread.started` line, whatever events follow that line, and there is none
/// when no line starts a thread. Likewise the response is the text of the
/// last completed agent message, and none when there is no such line.
pub proof fn law_turn_is_last_thread_and_last_message(lines: Seq<Seq<char>>)
    ensures
        lines_turn(lines) matches Some(turn) ==> {
            &&& (forall|i: int| 0 <= i < lines.len() ==> !is_thread_started(#[trigger] lines[i]))
                ==> turn.0 is None
            &&& forall|i: int|
                0 <= i < lines.len() && is_thread_started(#[trigger] lines[i]) && (forall|j: int|
                    i < j < lines.len() ==> !is_thread_started(#[trigger] lines[j])) ==> turn.0
                    == json_string_at(lines[i], "/thread_id"@)
            &&& (forall|i: int| 0 <= i < lines.len() ==> !is_agent_message(#[trigger] lines[i]))
                ==> turn.1 is None
            &&& forall|i: int|
                0 <= i < lines.len() && is_agent_message(#[trigger] lines[i]) && (forall|j: int|
                    i < j < lines.len() ==> !is_agent_message(#[trigger] lines[j])) ==> turn.1
                    == json_string_at(lines[i], "/item/text"@)
        },
{
    lemma_session_is_last_thread(lines);
    lemma_response_is_last_message(lines);
}

/// The last line changes the session id only when it starts a thread, and the
/// response only when it is an agent message.
proof fn lemma_last_line_effect(lines: Seq<Seq<char>>)
    requires
        lines.len() > 0,
        lines_turn(lines) is Some,
    ensures
        lines_turn(lines.drop_last()) is Some,
        is_thread_started(lines.last()) ==> lines_turn(lines).unwrap().0 == json_string_at(
            lines.last(),
            "/thread_id"@,
        ),
        !is_thread_started(lines.last()) ==> lines_turn(lines).unwrap().0 == lines_turn(
            lines.drop_last(),
        ).unwrap().0,
        is_agent_message(lines.last()) ==> lines_turn(lines).unwrap().1 == json_string_at(
            lines.last(),
            "/item/text"@,
        ),
        !is_agent_message(lines.last()) ==> lines_turn(lines).unwrap().1 == lines_turn(
            lines.drop_last(),
        ).unwrap().1,
{
    reveal_strlit("item.completed");
    reveal_strlit("thread.started");
    assert("item.completed"@[0] != "thread.started"@[0]);
}

proof fn lemma_session_is_last_thread(lines: Seq<Seq<char>>)
    ensures
        lines_turn(lines) matches Some(turn) ==> {
            &&& (forall|i: int| 0 <= i < lines.len() ==> !is_thread_started(#[trigger] lines[i]))
                ==> turn.0 is None
            &&& forall|i: int|
                0 <= i < lines.len() && is_thread_started(#[trigger] lines[i]) && (forall|j: int|
                    i < j < lines.len() ==> !is_thread_started(#[trigger] lines[j])) ==> turn.0
                    == json_string_at(lines[i], "/thread_id"@)
        },
    decreases lines.len(),
{
    if lines.len() > 0 && lines_turn(lines) is Some {
        let prev = lines.drop_last();
        let last = lines.len() - 1;
        lemma_session_is_last_thread(prev);
        lemma_last_line_effect(lines);
        let turn = lines_turn(lines).unwrap();
        assert forall|i: int| 0 <= i < prev.len() implies #[trigger] prev[i] == lines[i] by {}
        if is_thread_started(lines[last]) {
            assert forall|i: int|
                0 <= i < lines.len() && is_thread_started(#[trigger] lines[i]) && (forall|j: int|
                    i < j < lines.len() ==> !is_thread_started(#[trigger] lines[j])) implies turn.0
                == json_string_at(lines[i], "/thread_id"@) by {
                if i < last {
                    assert(!is_thread_started(lines[last]));
                }
            }
        } else {
            assert forall|i: int|
                0 <= i < lines.len() && is_thread_started(#[trigger] lines[i]) && (forall|j: int|
                    i < j < lines.len() ==> !is_thread_started(#[trigger] lines[j])) implies turn.0
                == json_string_at(lines[i], "/thread_id"@) by {
                assert(i < last);
                assert(is_thread_started(prev[i]));
                assert forall|j: int| i < j < prev.len() implies !is_thread_started(
                    #[trigger] prev[j],
                ) by {
                    assert(!is_thread_started(lines[j]));
                }
            }
            if forall|i: int| 0 <= i < lines.len() ==> !is_thread_started(#[trigger] lines[i]) {
                assert forall|i: int| 0 <= i < prev.len() implies !is_thread_started(
                    #[trigger] prev[i],
                ) by {
                    assert(!is_thread_started(lines[i]));
                }
            }
        }
    }
}

proof fn lemma_response_is_last_message(lines: Seq<Seq<char>>)
    ensures
        lines_turn(lines) matches Some(turn) ==> {
            &&& (forall|i: int| 0 <= i < lines.len() ==> !is_agent_message(#[trigger] lines[i]))
                ==> turn.1 is None
            &&& forall|i: int|
                0 <= i < lines.len() && is_agent_message(#[trigger] lines[i]) && (forall|j: int|
                    i < j < lines.len() ==> !is_agent_message(#[trigger] lines[j])) ==> turn.1
                    == json_string_at(lines[i], "/item/text"@)
        },
    decreases lines.len(),
{
    if lines.len() > 0 && lines_turn(lines) is Some {
        let prev = lines.drop_last();
        let last = lines.len() - 1;
        lemma_response_is_last_message(prev);
        lemma_last_line_effect(lines);
        let turn = lines_turn(lines).unwrap();
        assert forall|i: int| 0 <= i < prev.len() implies #[trigger] prev[i] == lines[i] by {}
        if is_agent_message(lines[last]) {
            assert forall|i: int|
                0 <= i < lines.len() && is_agent_message(#[trigger] lines[i]) && (forall|j: int|
                    i < j < lines.len() ==> !is_agent_message(#[trigger] lines[j])) implies turn.1
                == json_string_at(lines[i], "/item/text"@) by {
                if i < last {
                    assert(!is_agent_message(lines[last]));
                }
            }
        } else {
            assert forall|i: int|
                0 <= i < lines.len() && is_agent_message(#[trigger] lines[i]) && (forall|j: int|
                    i < j < lines.len() ==> !is_agent_message(#[trigger] lines[j])) implies turn.1
                == json_string_at(lines[i], "/item/text"@) by {
                assert(i < last);
                assert(is_agent_message(prev[i]));
                assert forall|j: int| i < j < prev.len() implies !is_agent_message(
                    #[trigger] prev[j],
                ) by {
                    assert(!is_agent_message(lines[j]));
                }
            }
            if forall|i: int| 0 <= i < lines.len() ==> !is_agent_message(#[trigger] lines[i]) {
                assert forall|i: int| 0 <= i < prev.len() implies !is_agent_message(
                    #[trigger] prev[i],
                ) by {
                    assert(!is_agent_message(lines[i]));
                }
            }
        }
    }
}

/// The session id of a turn that started a session.
pub fn session_id_of(turn: CodexTurn) -> (r: Result<String, AgentError>)
    ensures
        match r {
            Ok(id) => turn.view().0 == Some(id@),
            Err(e) => turn.view().0 is None && e == AgentError::MissingSessionId,
        },
{
    match turn.session_id {
        Some(id) => Ok(id),
        None => Err(AgentError::MissingSessionId),
    }
}

/// The agent's answer in a turn that resumed a session.
pub fn response_of(turn: CodexTurn) -> (r: Result<String, AgentError>)
    ensures
        match r {
            Ok(text) => turn.view().1 == Some(text@),
            Err(e) => turn.view().1 is None && e == AgentError::MissingResponse,
        },
{
    match turn.response {
        Some(text) => Ok(text),
        None => Err(AgentError::MissingResponse),
    }
}

/// The views of a list of arguments.
pub open spec fn args_view(args: Seq<String>) -> Seq<Seq<char>> {
    args.map_values(|a: String| a@)
}

/// The arguments that start a new read-only Codex session, reading the prompt
/// from standard input.
pub fn start_session_args() -> (r: Vec<String>)
    ensures
        args_view(r@) == seq![
            "exec"@,
            "--json"@,
            "--sandbox"@,
            "read-only"@,
            "--skip-git-repo-check"@,
            "-"@,
        ],
{
    let mut r = Vec::new();
    r.push(String::from_str("exec"));
    r.push(String::from_str("--json"));
    r.push(String::from_str("--sandbox"));
    r.push(String::from_str("read-only"));
    r.push(String::from_str("--skip-git-repo-check"));
    r.push(String::from_str("-"));
    proof {
        assert(args_view(r@) =~= seq![
            "exec"@,
            "--json"@,
            "--sandbox"@,
            "read-only"@,
            "--skip-git-repo-check"@,
            "-"@,
        ]);
    }
    r
}

/// The arguments that resume the session `session_id`, reading the prompt
/// from standard input.
pub fn resume_session_args(session_id: &str) -> (r: Vec<String>)
    ensures
        args_view(r@) == seq!["exec"@, "resume"@, "--json"@, session_id@, "-"@],
{
    let mut r = Vec::new();
    r.push(String::from_str("exec"));
    r.push(String::from_str("resume"));
    r.push(String::from_str("--json"));
    r.push(String::from_str(session_id));
    r.push(String::from_str("-"));
    proof {
        assert(args_view(r@) =~= seq!["exec"@, "resume"@, "--json"@, session_id@, "-"@]);
    }
    r
}

} // verus!
