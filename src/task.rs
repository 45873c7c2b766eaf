use vstd::prelude::*;

use crate::error::CrudError;

verus! {

/// The lifecycle states of a task. Any state may be reached from any other.
#[derive(Clone, Copy, Debug, PartialEq, Eq, Structural)]
pub enum TaskState {
    Pending,
    Started,
    Finished,
    Blocked,
    Someday,
    Cancelled,
    Paused,
}

/// The colour in which a state's glyph is shown.
#[derive(Clone, Copy, Debug, PartialEq, Eq, Structural)]
pub enum IconColor {
    White,
    Yellow,
    Green,
    Blue,
    Red,
}

/// Display settings, loaded once at start-up and passed where needed.
#[derive(Clone, Copy, Debug, PartialEq, Eq, Structural)]
pub struct Config {
    /// Show state glyphs from a Nerd Font rather than bracketed ASCII.
    pub nerd_font: bool,
}

impl Default for Config {
    fn default() -> (r: Config)
        ensures
            !r.nerd_font,
    {
        Config { nerd_font: false }
    }
}

/// The canonical name of a state, used both when stored and when shown.
pub open spec fn state_name(s: TaskState) -> Seq<char> {
    match s {
        TaskState::Pending => "Pending"@,
        TaskState::Started => "Started"@,
        TaskState::Finished => "Finished"@,
        TaskState::Blocked => "Blocked"@,
        TaskState::Someday => "Someday"@,
        TaskState::Cancelled => "Cancelled"@,
        TaskState::Paused => "Paused"@,
    }
}

/// The glyph of a state: a Nerd Font icon, or a bracketed ASCII fallback.
pub open spec fn state_glyph(s: TaskState, nerd_font: bool) -> Seq<char> {
    if nerd_font {
        match s {
            TaskState::Pending => "\u{f096}"@,
            TaskState::Started => "\u{f044}"@,
            TaskState::Finished => "\u{f046}"@,
            TaskState::Blocked => "\u{f256}"@,
            TaskState::Someday => "\u{f006}"@,
            TaskState::Cancelled => "\u{f014}"@,
            TaskState::Paused => "\u{f520}"@,
        }
    } else {
        match s {
            TaskState::Pending => "[ ]"@,
            TaskState::Started => "[|]"@,
            TaskState::Finished => "[\u{221a}]"@,
            TaskState::Blocked => "[#]"@,
            TaskState::Someday => "[~]"@,
            TaskState::Cancelled => "[x]"@,
            TaskState::Paused => "[-]"@,
        }
    }
}

/// The colour of a state's glyph.
pub open spec fn state_color(s: TaskState) -> IconColor {
    match s {
        TaskState::Pending => IconColor::White,
        TaskState::Started => IconColor::Yellow,
        TaskState::Finished => IconColor::Green,
        TaskState::Blocked => IconColor::Blue,
        TaskState::Someday => IconColor::Yellow,
        TaskState::Cancelled => IconColor::Red,
        TaskState::Paused => IconColor::White,
    }
}

/// No two states share a name.
pub proof fn state_names_distinct(a: TaskState, b: TaskState)
    ensures
        state_name(a) == state_name(b) ==> a == b,
{
    reveal_strlit("Pending");
    reveal_strlit("Started");
    reveal_strlit("Finished");
    reveal_strlit("Blocked");
    reveal_strlit("Someday");
    reveal_strlit("Cancelled");
    reveal_strlit("Paused");
    if state_name(a) == state_name(b) {
        assert(state_name(a).len() == state_name(b).len());
        assert(state_name(a)[0] == state_name(b)[0]);
        assert(state_name(a)[1] == state_name(b)[1]);
    }
}

impl TaskState {
    /// The canonical name of this state.
    pub fn to_string(&self) -> (r: String)
        ensures
            r@ == state_name(*self),
    {
        match self {
            TaskState::Pending => String::from_str("Pending"),
            TaskState::Started => String::from_str("Started"),
            TaskState::Finished => String::from_str("Finished"),
            TaskState::Blocked => String::from_str("Blocked"),
            TaskState::Someday => String::from_str("Someday"),
            TaskState::Cancelled => String::from_str("Cancelled"),
            TaskState::Paused => String::from_str("Paused"),
        }
    }

    /// The state whose canonical name is `text`; `UnknownStatus` if there is none.
    pub fn to_state(text: String) -> (r: Result<TaskState, CrudError>)
        ensures
            match r {
                Ok(s) => state_name(s) == text@,
                Err(e) => {
                    &&& e matches CrudError::UnknownStatus(t) && t@ == text@
                    &&& forall|s: TaskState| state_name(s) != text@
                },
            },
    {
        if text == TaskState::Pending.to_string() {
            Ok(TaskState::Pending)
        } else if text == TaskState::Started.to_string() {
            Ok(TaskState::Started)
        } else if text == TaskState::Finished.to_string() {
            Ok(TaskState::Finished)
        } else if text == TaskState::Blocked.to_string() {
            Ok(TaskState::Blocked)
        } else if text == TaskState::Someday.to_string() {
            Ok(TaskState::Someday)
        } else if text == TaskState::Cancelled.to_string() {
            Ok(TaskState::Cancelled)
        } else if text == TaskState::Paused.to_string() {
            Ok(TaskState::Paused)
        } else {
            assert forall|s: TaskState| state_name(s) != text@ by {
                match s {
                    TaskState::Pending => {},
                    TaskState::Started => {},
                    TaskState::Finished => {},
                    TaskState::Blocked => {},
                    TaskState::Someday => {},
                    TaskState::Cancelled => {},
                    TaskState::Paused => {},
                }
            }
            Err(CrudError::UnknownStatus(text))
        }
    }

    /// The glyph of this state under the given display settings.
    pub fn get_icon(&self, config: &Config) -> (r: String)
        ensures
            r@ == state_glyph(*self, config.nerd_font),
    {
        if config.nerd_font {
            match self {
                TaskState::Pending => String::from_str("\u{f096}"),
                TaskState::Started => String::from_str("\u{f044}"),
                TaskState::Finished => String::from_str("\u{f046}"),
                TaskState::Blocked => String::from_str("\u{f256}"),
                TaskState::Someday => String::from_str("\u{f006}"),
                TaskState::Cancelled => String::from_str("\u{f014}"),
                TaskState::Paused => String::from_str("\u{f520}"),
            }
        } else {
            match self {
                TaskState::Pending => String::from_str("[ ]"),
                TaskState::Started => String::from_str("[|]"),
                TaskState::Finished => String::from_str("[\u{221a}]"),
                TaskState::Blocked => String::from_str("[#]"),
                TaskState::Someday => String::from_str("[~]"),
                TaskState::Cancelled => String::from_str("[x]"),
                TaskState::Paused => String::from_str("[-]"),
            }
        }
    }

    /// The colour of this state's glyph.
    pub fn icon_color(&self) -> (r: IconColor)
        ensures
            r == state_color(*self),
    {
        match self {
            TaskState::Pending => IconColor::White,
            TaskState::Started => IconColor::Yellow,
            TaskState::Finished => IconColor::Green,
            TaskState::Blocked => IconColor::Blue,
            TaskState::Someday => IconColor::Yellow,
            TaskState::Cancelled => IconColor::Red,
            TaskState::Paused => IconColor::White,
        }
    }
}

/// A stored task.
#[derive(Clone, Debug, PartialEq, Eq)]
pub struct Task {
    pub state: TaskState,
    pub title: String,
    /// Dense display identifier, reassigned when earlier tasks are deleted.
    pub id: i64,
    /// External key: fixed at creation and never reused.
    pub uuid: String,
    pub created: String,
    /// Reserved; always false.
    pub project: bool,
    /// External key of a parent task; empty for none. Reserved.
    pub parent: String,
}

/// The mathematical value of a task.
pub struct TaskView {
    pub state: TaskState,
    pub title: Seq<char>,
    pub id: int,
    pub uuid: Seq<char>,
    pub created: Seq<char>,
    pub project: bool,
    pub parent: Seq<char>,
}

impl View for Task {
    type V = TaskView;

    open spec fn view(&self) -> TaskView {
        TaskView {
            state: self.state,
            title: self.title@,
            id: self.id as int,
            uuid: self.uuid@,
            created: self.created@,
            project: self.project,
            parent: self.parent@,
        }
    }
}

/// The characters with the Unicode `White_Space` property.
pub open spec fn is_white_space(c: char) -> bool {
    ||| '\u{9}' <= c <= '\u{d}'
    ||| c == ' '
    ||| c == '\u{85}'
    ||| c == '\u{a0}'
    ||| c == '\u{1680}'
    ||| '\u{2000}' <= c <= '\u{200a}'
    ||| c == '\u{2028}'
    ||| c == '\u{2029}'
    ||| c == '\u{202f}'
    ||| c == '\u{205f}'
    ||| c == '\u{3000}'
}

/// A title that is empty once surrounding white space is trimmed.
pub open spec fn is_blank(s: Seq<char>) -> bool {
    forall|i: int| 0 <= i < s.len() ==> is_white_space(#[trigger] s[i])
}

/// Whether `c` has the Unicode `White_Space` property (as
/// `char::is_whitespace` decides it).
pub fn white_space(c: char) -> (r: bool)
    ensures
        r == is_white_space(c),
{
    let u = c as u32;
    (0x9 <= u && u <= 0xd) || u == 0x20 || u == 0x85 || u == 0xa0 || u == 0x1680 || (0x2000 <= u && u
        <= 0x200a) || u == 0x2028 || u == 0x2029 || u == 0x202f || u == 0x205f || u == 0x3000
}

/// Whether the title is made of white space alone (or is empty).
pub fn title_is_blank(title: &str) -> (r: bool)
    ensures
        r == is_blank(title@),
{
    let n = title.unicode_len();
    let mut i: usize = 0;
    while i < n
        invariant
            n == title@.len(),
            0 <= i <= n,
            forall|j: int| 0 <= j < i ==> is_white_space(#[trigger] title@[j]),
        decreases n - i,
    {
        let c = title.get_char(i);
        if !white_space(c) {
            return false;
        }
        i = i + 1;
    }
    true
}

/// The views of a sequence of tasks.
pub open spec fn views(v: Seq<Task>) -> Seq<TaskView> {
    v.map_values(|t: Task| t@)
}

/// The textual shape of a fresh external key: 36 characters, hyphens at
/// positions 8, 13, 18 and 23, lower-case hexadecimal digits elsewhere.
pub open spec fn is_key_shape(k: Seq<char>) -> bool {
    &&& k.len() == 36
    &&& forall|i: int|
        0 <= i < 36 ==> if i == 8 || i == 13 || i == 18 || i == 23 {
            #[trigger] k[i] == '-'
        } else {
            ('0' <= k[i] <= '9') || ('a' <= k[i] <= 'f')
        }
}

/// Relies on uuid's `Uuid::new_v4` (a random version-4 UUID) and its
/// `Display`, which writes the hyphenated lower-case form.
#[verifier::external_body]
fn fresh_key() -> (r: String)
    ensures
        is_key_shape(r@),
{
    uuid::Uuid::new_v4().to_string()
}

/// Relies on chrono's `Utc::now`, written through its `Display`.
#[verifier::external_body]
fn timestamp_now() -> (r: String) {
    chrono::Utc::now().to_string()
}

impl Task {
    /// A new pending task with a fresh external key and the current time.
    pub fn new(title: String, id: i64) -> (r: Task)
        ensures
            r.state == TaskState::Pending,
            r.title@ == title@,
            r.id == id,
            is_key_shape(r.uuid@),
            !r.project,
            r.parent@.len() == 0,
    {
        Task {
            state: TaskState::Pending,
            title,
            id,
            uuid: fresh_key(),
            created: timestamp_now(),
            project: false,
            parent: String::new(),
        }
    }

    /// An equal task that owns its own strings.
    pub fn duplicate(&self) -> (r: Task)
        ensures
            r@ == self@,
    {
        Task {
            state: self.state,
            title: self.title.clone(),
            id: self.id,
            uuid: self.uuid.clone(),
            created: self.created.clone(),
            project: self.project,
            parent: self.parent.clone(),
        }
    }
}

} // verus!
