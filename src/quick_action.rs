use vstd::prelude::*;
use crate::error::{joined, LauncherError};
use crate::ranking::{sort_by_score, stable_sort_by_score};
use crate::text::{
    chars_of, contains, lower_of, push_char, seq_contains, seq_equal, seq_starts_with,
    starts_with, to_lower, trim,
};
use crate::types::{results_view, ActionView, ResultAction, ResultType, ResultView, SearchResult};
use crate::validation::cap_len;
use crate::engine::{is_blank, meta_lookup, meta_text};

verus! {

/// Most quick actions one search returns.
pub const MAX_ACTION_RESULTS: usize = 10;

/// System commands a quick action can run.
#[derive(Debug, Clone, Copy, PartialEq, Eq, Structural)]
pub enum SystemCommand {
    Shutdown,
    Restart,
    Lock,
    Sleep,
    Hibernate,
    LogOff,
}

pub open spec fn display_name_spec(c: SystemCommand) -> Seq<char> {
    match c {
        SystemCommand::Shutdown => "Shutdown"@,
        SystemCommand::Restart => "Restart"@,
        SystemCommand::Lock => "Lock"@,
        SystemCommand::Sleep => "Sleep"@,
        SystemCommand::Hibernate => "Hibernate"@,
        SystemCommand::LogOff => "Log Off"@,
    }
}

pub open spec fn description_spec(c: SystemCommand) -> Seq<char> {
    match c {
        SystemCommand::Shutdown => "Shut down the computer"@,
        SystemCommand::Restart => "Restart the computer"@,
        SystemCommand::Lock => "Lock the computer"@,
        SystemCommand::Sleep => "Put the computer to sleep"@,
        SystemCommand::Hibernate => "Hibernate the computer"@,
        SystemCommand::LogOff => "Log off the current user"@,
    }
}

pub open spec fn icon_spec(c: SystemCommand) -> Seq<char> {
    match c {
        SystemCommand::Shutdown => "power-off"@,
        SystemCommand::Restart => "refresh-cw"@,
        SystemCommand::Lock => "lock"@,
        SystemCommand::Sleep => "moon"@,
        SystemCommand::Hibernate => "archive"@,
        SystemCommand::LogOff => "log-out"@,
    }
}

/// The variant's own name, as commands are written in metadata and in the
/// `system:` command of a result.
pub open spec fn tag_spec(c: SystemCommand) -> Seq<char> {
    match c {
        SystemCommand::Shutdown => "Shutdown"@,
        SystemCommand::Restart => "Restart"@,
        SystemCommand::Lock => "Lock"@,
        SystemCommand::Sleep => "Sleep"@,
        SystemCommand::Hibernate => "Hibernate"@,
        SystemCommand::LogOff => "LogOff"@,
    }
}

/// The six commands in their fixed order.
pub open spec fn all_commands() -> Seq<SystemCommand> {
    seq![
        SystemCommand::Shutdown,
        SystemCommand::Restart,
        SystemCommand::Lock,
        SystemCommand::Sleep,
        SystemCommand::Hibernate,
        SystemCommand::LogOff,
    ]
}

impl SystemCommand {
    /// The name shown for the command.
    pub fn display_name(&self) -> (r: &'static str)
        ensures
            r@ == display_name_spec(*self),
    {
        match self {
            SystemCommand::Shutdown => "Shutdown",
            SystemCommand::Restart => "Restart",
            SystemCommand::Lock => "Lock",
            SystemCommand::Sleep => "Sleep",
            SystemCommand::Hibernate => "Hibernate",
            SystemCommand::LogOff => "Log Off",
        }
    }

    /// What the command does.
    pub fn description(&self) -> (r: &'static str)
        ensures
            r@ == description_spec(*self),
    {
        match self {
            SystemCommand::Shutdown => "Shut down the computer",
            SystemCommand::Restart => "Restart the computer",
            SystemCommand::Lock => "Lock the computer",
            SystemCommand::Sleep => "Put the computer to sleep",
            SystemCommand::Hibernate => "Hibernate the computer",
            SystemCommand::LogOff => "Log off the current user",
        }
    }

    /// The icon name of the command.
    pub fn icon(&self) -> (r: &'static str)
        ensures
            r@ == icon_spec(*self),
    {
        match self {
            SystemCommand::Shutdown => "power-off",
            SystemCommand::Restart => "refresh-cw",
            SystemCommand::Lock => "lock",
            SystemCommand::Sleep => "moon",
            SystemCommand::Hibernate => "archive",
            SystemCommand::LogOff => "log-out",
        }
    }

    /// The variant's own name.
    pub fn tag(&self) -> (r: &'static str)
        ensures
            r@ == tag_spec(*self),
    {
        match self {
            SystemCommand::Shutdown => "Shutdown",
            SystemCommand::Restart => "Restart",
            SystemCommand::Lock => "Lock",
            SystemCommand::Sleep => "Sleep",
            SystemCommand::Hibernate => "Hibernate",
            SystemCommand::LogOff => "LogOff",
        }
    }

    /// Whether the command asks for confirmation first: shutdown, restart
    /// and log off do.
    pub fn requires_confirmation(&self) -> (r: bool)
        ensures
            r == (*self == SystemCommand::Shutdown || *self == SystemCommand::Restart || *self
                == SystemCommand::LogOff),
    {
        match self {
            SystemCommand::Shutdown | SystemCommand::Restart | SystemCommand::LogOff => true,
            _ => false,
        }
    }

    /// All six commands.
    pub fn all() -> (r: Vec<SystemCommand>)
        ensures
            r@ == all_commands(),
    {
        let r = vec![
            SystemCommand::Shutdown,
            SystemCommand::Restart,
            SystemCommand::Lock,
            SystemCommand::Sleep,
            SystemCommand::Hibernate,
            SystemCommand::LogOff,
        ];
        assert(r@ =~= all_commands());
        r
    }
}

/// A quick action: a system command with its display texts.
#[derive(Debug, Clone)]
pub struct QuickAction {
    pub name: String,
    pub description: String,
    pub icon: String,
    pub command: SystemCommand,
}

/// Whether `a` is the quick action of `c`.
pub open spec fn is_action_of(a: QuickAction, c: SystemCommand) -> bool {
    &&& a.name@ == display_name_spec(c)
    &&& a.description@ == description_spec(c)
    &&& a.icon@ == icon_spec(c)
    &&& a.command == c
}

impl QuickAction {
    /// The quick action of `command`.
    pub fn from_command(command: SystemCommand) -> (r: QuickAction)
        ensures
            is_action_of(r, command),
    {
        QuickAction {
            name: command.display_name().to_owned(),
            description: command.description().to_owned(),
            icon: command.icon().to_owned(),
            command,
        }
    }

    /// The quick actions of all six commands, in their order.
    pub fn all_actions() -> (r: Vec<QuickAction>)
        ensures
            r@.len() == all_commands().len(),
            forall|i: int| 0 <= i < r@.len() ==> is_action_of(r@[i], all_commands()[i]),
    {
        let commands = SystemCommand::all();
        let mut r: Vec<QuickAction> = Vec::new();
        let mut i: usize = 0;
        while i < commands.len()
            invariant
                commands@ == all_commands(),
                i <= commands@.len(),
                r@.len() == i,
                forall|j: int| 0 <= j < i ==> is_action_of(r@[j], all_commands()[j]),
            decreases commands.len() - i,
        {
            r.push(QuickAction::from_command(commands[i]));
            i = i + 1;
        }
        r
    }
}

/// Whether the characters of `q` appear in `n` in order.
pub open spec fn is_subsequence(q: Seq<char>, n: Seq<char>) -> bool
    decreases n.len(),
{
    if q.len() == 0 {
        true
    } else if n.len() == 0 {
        false
    } else if q[0] == n[0] {
        is_subsequence(q.drop_first(), n.drop_first())
    } else {
        is_subsequence(q, n.drop_first())
    }
}

/// The score of a lower-cased action name `n` for a lower-cased query `q`.
pub open spec fn fuzzy_score(q: Seq<char>, n: Seq<char>) -> Option<u64> {
    if n == q {
        Some(100)
    } else if starts_with(n, q) {
        Some(90)
    } else if contains(n, q) {
        Some(70)
    } else if is_subsequence(q, n) {
        Some(50)
    } else {
        None
    }
}

/// `s` with every space replaced by an underscore.
pub open spec fn underscored(s: Seq<char>) -> Seq<char> {
    s.map_values(|c: char| if c == ' ' { '_' } else { c })
}

/// The search result of action `a` at `score`.
pub open spec fn action_result_view(a: QuickAction, score: u64) -> ResultView {
    ResultView {
        id: "quick_action:"@ + underscored(lower_of(a.name@)),
        title: a.name@,
        subtitle: a.description@,
        icon: Some(a.icon@),
        result_type: ResultType::QuickAction,
        score,
        metadata: seq![
            ("command"@, tag_spec(a.command)),
            ("requires_confirmation"@, if a.command == SystemCommand::Shutdown || a.command
                == SystemCommand::Restart || a.command == SystemCommand::LogOff {
                "true"@
            } else {
                "false"@
            }),
        ],
        action: ActionView::ExecuteCommand {
            command: "system:"@ + tag_spec(a.command),
            args: Seq::empty(),
        },
    }
}

/// The results of the actions whose names match the lower-cased query `q`,
/// in the actions' order.
pub open spec fn matching_views(actions: Seq<QuickAction>, q: Seq<char>) -> Seq<ResultView>
    decreases actions.len(),
{
    if actions.len() == 0 {
        Seq::empty()
    } else {
        let a = actions.last();
        matching_views(actions.drop_last(), q) + match fuzzy_score(q, lower_of(a.name@)) {
            Some(s) => seq![action_result_view(a, s)],
            None => Seq::empty(),
        }
    }
}

/// The command whose variant name is `t`.
pub open spec fn command_of_tag(t: Seq<char>) -> Option<SystemCommand> {
    if t == "Shutdown"@ {
        Some(SystemCommand::Shutdown)
    } else if t == "Restart"@ {
        Some(SystemCommand::Restart)
    } else if t == "Lock"@ {
        Some(SystemCommand::Lock)
    } else if t == "Sleep"@ {
        Some(SystemCommand::Sleep)
    } else if t == "Hibernate"@ {
        Some(SystemCommand::Hibernate)
    } else if t == "LogOff"@ {
        Some(SystemCommand::LogOff)
    } else {
        None
    }
}

/// Provider of quick system actions.
pub struct QuickActionProvider {
    actions: Vec<QuickAction>,
    enabled: bool,
}

impl QuickActionProvider {
    pub closed spec fn actions(&self) -> Seq<QuickAction> {
        self.actions@
    }

    pub closed spec fn enabled_spec(&self) -> bool {
        self.enabled
    }

    /// A provider of all six actions, enabled.
    pub fn new() -> (r: Result<QuickActionProvider, LauncherError>)
        ensures
            r is Ok,
            r->Ok_0.enabled_spec(),
            r->Ok_0.actions().len() == all_commands().len(),
            forall|i: int| 0 <= i < all_commands().len() ==> is_action_of(r->Ok_0.actions()[i], all_commands()[i]),
    {
        Ok(QuickActionProvider { actions: QuickAction::all_actions(), enabled: true })
    }

    pub fn name(&self) -> (r: &'static str)
        ensures
            r@ == "QuickAction"@,
    {
        "QuickAction"
    }

    pub fn priority(&self) -> (r: u8)
        ensures
            r == 80,
    {
        80
    }

    pub fn is_enabled(&self) -> (r: bool)
        ensures
            r == self.enabled_spec(),
    {
        self.enabled
    }

    /// Whether the characters of `query` appear in `name` in order.
    pub fn fuzzy_char_match(query: &str, name: &str) -> (r: bool)
        ensures
            r == is_subsequence(query@, name@),
    {
        let q = chars_of(query);
        let n = chars_of(name);
        let mut i: usize = 0;
        let mut j: usize = 0;
        assert(q@.subrange(0, q@.len() as int) =~= q@);
        assert(n@.subrange(0, n@.len() as int) =~= n@);
        while i < q.len() && j < n.len()
            invariant
                i <= q@.len(),
                j <= n@.len(),
                is_subsequence(q@, n@) == is_subsequence(
                    q@.subrange(i as int, q@.len() as int),
                    n@.subrange(j as int, n@.len() as int),
                ),
            decreases n.len() - j,
        {
            let ghost qs = q@.subrange(i as int, q@.len() as int);
            let ghost ns = n@.subrange(j as int, n@.len() as int);
            assert(ns.drop_first() =~= n@.subrange(j + 1, n@.len() as int));
            assert(qs.drop_first() =~= q@.subrange(i + 1, q@.len() as int));
            if q[i] == n[j] {
                i = i + 1;
            }
            j = j + 1;
        }
        proof {
            if i == q.len() {
                assert(q@.subrange(i as int, q@.len() as int).len() == 0);
            }
        }
        i == q.len()
    }

    /// The score of action name `action_name` for `query`, compared without
    /// case: 100 for equal, 90 when the name begins with the query, 70 when
    /// it contains it, 50 when the query's characters appear in it in order.
    pub fn fuzzy_match(query: &str, action_name: &str) -> (r: Option<u64>)
        ensures
            r == fuzzy_score(lower_of(query@), lower_of(action_name@)),
    {
        let query_lower = to_lower(query);
        let name_lower = to_lower(action_name);
        let q = chars_of(query_lower.as_str());
        let n = chars_of(name_lower.as_str());
        if seq_equal(&n, &q) {
            return Some(100);
        }
        if seq_starts_with(&n, &q) {
            return Some(90);
        }
        if seq_contains(&n, &q) {
            return Some(70);
        }
        if Self::fuzzy_char_match(query_lower.as_str(), name_lower.as_str()) {
            return Some(50);
        }
        None
    }

    /// The search result of `action` at `score`.
    pub fn convert_to_search_result(action: &QuickAction, score: u64) -> (r: SearchResult)
        ensures
            r@ == action_result_view(*action, score),
    {
        let lower = chars_of(to_lower(action.name.as_str()).as_str());
        let mut id = "quick_action:".to_owned();
        let ghost prefix = id@;
        let mut i: usize = 0;
        while i < lower.len()
            invariant
                i <= lower@.len(),
                id@ == prefix + underscored(lower@.subrange(0, i as int)),
            decreases lower.len() - i,
        {
            let c = if lower[i] == ' ' { '_' } else { lower[i] };
            push_char(&mut id, c);
            assert(underscored(lower@.subrange(0, i + 1)) =~= underscored(lower@.subrange(0, i as int)).push(c));
            i = i + 1;
        }
        assert(lower@.subrange(0, lower@.len() as int) =~= lower@);
        let confirm = if action.command.requires_confirmation() { "true".to_owned() } else { "false".to_owned() };
        let metadata = vec![("command".to_owned(), action.command.tag().to_owned()), ("requires_confirmation".to_owned(), confirm)];
        let r = SearchResult {
            id,
            title: action.name.clone(),
            subtitle: action.description.clone(),
            icon: Some(action.icon.clone()),
            result_type: ResultType::QuickAction,
            score,
            metadata,
            action: ResultAction::ExecuteCommand {
                command: joined("system:", action.command.tag()),
                args: Vec::new(),
            },
        };
        assert(r@.metadata =~= action_result_view(*action, score).metadata);
        assert(r@.action == action_result_view(*action, score).action) by {
            assert(crate::types::strings_view(Seq::<String>::empty()) =~= Seq::<Seq<char>>::empty());
        }
        r
    }

    /// The command to run for `result`: a quick-action result whose
    /// `command` metadata names one.
    pub fn command_to_execute(result: &SearchResult) -> (r: Result<SystemCommand, crate::error::LauncherError>)
        ensures
            result.result_type != ResultType::QuickAction ==> r is Err && r->Err_0 is ExecutionError
                && r->Err_0->ExecutionError_0@ == "Not a quick action result"@,
            result.result_type == ResultType::QuickAction ==> match meta_lookup(result@.metadata, "command"@) {
                Some(t) if command_of_tag(t) is Some => r == Ok::<SystemCommand, crate::error::LauncherError>(
                    command_of_tag(t)->0,
                ),
                _ => r is Err && r->Err_0 is ExecutionError && r->Err_0->ExecutionError_0@
                    == "Invalid quick action command"@,
            },
    {
        if result.result_type != ResultType::QuickAction {
            return Err(crate::error::LauncherError::ExecutionError("Not a quick action result".to_owned()));
        }
        let tag = match meta_text(result, "command") {
            Some(t) => t,
            None => {
                return Err(crate::error::LauncherError::ExecutionError("Invalid quick action command".to_owned()));
            },
        };
        let t = chars_of(tag.as_str());
        let all = SystemCommand::all();
        proof {
            reveal_strlit("Shutdown");
            reveal_strlit("Restart");
            reveal_strlit("Lock");
            reveal_strlit("Sleep");
            reveal_strlit("Hibernate");
            reveal_strlit("LogOff");
        }
        let mut i: usize = 0;
        while i < all.len()
            invariant
                all@ == all_commands(),
                i <= all@.len(),
                t@ == tag@,
                result.result_type == ResultType::QuickAction,
                meta_lookup(result@.metadata, "command"@) == Some(tag@),
                forall|j: int| 0 <= j < i ==> tag_spec(all_commands()[j]) != t@,
            decreases all.len() - i,
        {
            if seq_equal(&t, &chars_of(all[i].tag())) {
                assert(command_of_tag(t@) == Some(all[i as int]));
                return Ok(all[i]);
            }
            i = i + 1;
        }
        assert(tag_spec(all_commands()[0]) != t@);
        assert(tag_spec(all_commands()[5]) != t@);
        Err(crate::error::LauncherError::ExecutionError("Invalid quick action command".to_owned()))
    }

    /// Searches the actions: a query that is empty once trimmed finds none;
    /// otherwise every action whose name matches (see `fuzzy_match`) gives a
    /// result, sorted by descending score with ties in the actions' order,
    /// and at most `MAX_ACTION_RESULTS` are kept.
    pub fn search(&self, query: &str) -> (r: Vec<SearchResult>)
        ensures
            trim(query@).len() == 0 ==> r@.len() == 0,
            trim(query@).len() > 0 ==> exists|v: Seq<SearchResult>|
                results_view(v) == matching_views(self.actions(), lower_of(query@)) && r@ == cap_len(
                    sort_by_score(v),
                    MAX_ACTION_RESULTS as nat,
                ),
    {
        if is_blank(query) {
            return Vec::new();
        }
        let ghost q = lower_of(query@);
        let mut found: Vec<SearchResult> = Vec::new();
        let mut i: usize = 0;
        while i < self.actions.len()
            invariant
                i <= self.actions@.len(),
                q == lower_of(query@),
                results_view(found@) == matching_views(self.actions@.subrange(0, i as int), q),
            decreases self.actions.len() - i,
        {
            let ghost pre = self.actions@.subrange(0, i + 1);
            assert(pre.drop_last() =~= self.actions@.subrange(0, i as int));
            assert(pre.last() == self.actions@[i as int]);
            let action = &self.actions[i];
            let ghost before = found@;
            match Self::fuzzy_match(query, action.name.as_str()) {
                Some(score) => {
                    found.push(Self::convert_to_search_result(action, score));
                    assert(results_view(found@) =~= results_view(before) + seq![action_result_view(*action, score)]);
                },
                None => {
                    assert(results_view(found@) =~= results_view(before) + Seq::<ResultView>::empty());
                },
            }
            i = i + 1;
        }
        assert(self.actions@.subrange(0, self.actions@.len() as int) =~= self.actions@);
        let ghost v = found@;
        let mut sorted = stable_sort_by_score(found);
        sorted.truncate(MAX_ACTION_RESULTS);
        sorted
    }
}

} // verus!
