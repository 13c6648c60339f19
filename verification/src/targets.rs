//! Delivery target configuration: a small YAML subset that lists named
//! command or interactive targets.
//!
//! ```text
//! targets:
//!   - name: bff-command
//!     type: command
//!     command: agent-cli
//!     args: -p "continue work"
//! ```
use vstd::prelude::*;
use vstd::string::*;
use crate::text::{blank, count_leading_spaces, is_blank, split_lines, starts_with, str_eq, char_is_whitespace, is_ws, leading_spaces, lines_of, owned, split_once_char, split_once_spec, str_trim, string_push, trim, views};

verus! {

/// Why a target configuration was refused.
#[derive(Clone, Copy, Debug, PartialEq, Eq, Structural)]
pub enum TargetErrorKind {
    UnknownConfigField,
    ItemOutsideTargets,
    ItemWithoutName,
    ItemFirstKey,
    FieldBeforeItem,
    InvalidField,
    UnknownField,
    BadIndentation,
    NoTargets,
    NameRequired,
    CommandRequired,
    TypeRequired,
    UnsupportedType,
    UnterminatedQuote,
}

/// A refused target configuration: the reason and the offending text.
#[derive(Debug)]
pub struct TargetError {
    pub kind: TargetErrorKind,
    pub detail: String,
}

/// A target that runs a command in an optional repository.
#[derive(Debug)]
pub struct CommandTarget {
    pub name: String,
    pub agent: Option<String>,
    pub repo: Option<String>,
    pub command: String,
    pub args: Vec<String>,
}

/// A target that delivers into an interactive terminal session.
#[derive(Debug)]
pub struct InteractiveTarget {
    pub name: String,
    pub agent: Option<String>,
    pub adapter: Option<String>,
    pub session: Option<String>,
    pub pane: Option<String>,
}

/// One configured delivery target.
#[derive(Debug)]
pub enum DeliveryTarget {
    Command(CommandTarget),
    Interactive(InteractiveTarget),
}

/// A parsed target configuration, in file order.
#[derive(Debug)]
pub struct TargetConfig {
    pub targets: Vec<DeliveryTarget>,
}

/// A target item while its fields are being read.
pub struct DraftTarget {
    pub name: String,
    pub kind: String,
    pub agent: Option<String>,
    pub repo: Option<String>,
    pub command: Option<String>,
    pub args: Vec<String>,
    pub adapter: Option<String>,
    pub session: Option<String>,
    pub pane: Option<String>,
}

pub struct CommandTargetView {
    pub name: Seq<char>,
    pub agent: Option<Seq<char>>,
    pub repo: Option<Seq<char>>,
    pub command: Seq<char>,
    pub args: Seq<Seq<char>>,
}

pub struct InteractiveTargetView {
    pub name: Seq<char>,
    pub agent: Option<Seq<char>>,
    pub adapter: Option<Seq<char>>,
    pub session: Option<Seq<char>>,
    pub pane: Option<Seq<char>>,
}

pub enum TargetView {
    Command(CommandTargetView),
    Interactive(InteractiveTargetView),
}

pub struct DraftView {
    pub name: Seq<char>,
    pub kind: Seq<char>,
    pub agent: Option<Seq<char>>,
    pub repo: Option<Seq<char>>,
    pub command: Option<Seq<char>>,
    pub args: Seq<Seq<char>>,
    pub adapter: Option<Seq<char>>,
    pub session: Option<Seq<char>>,
    pub pane: Option<Seq<char>>,
}

/// The reader's state between two lines: the targets so far, the item
/// being read, and whether the `targets:` list has begun.
pub struct ParseStateView {
    pub targets: Seq<TargetView>,
    pub current: Option<DraftView>,
    pub in_targets: bool,
}

pub open spec fn opt_view(o: Option<String>) -> Option<Seq<char>> {
    match o {
        Some(s) => Some(s@),
        None => None,
    }
}

impl View for TargetError {
    type V = (TargetErrorKind, Seq<char>);

    open spec fn view(&self) -> (TargetErrorKind, Seq<char>) {
        (self.kind, self.detail@)
    }
}

impl View for CommandTarget {
    type V = CommandTargetView;

    open spec fn view(&self) -> CommandTargetView {
        CommandTargetView {
            name: self.name@,
            agent: opt_view(self.agent),
            repo: opt_view(self.repo),
            command: self.command@,
            args: views(self.args@),
        }
    }
}

impl View for InteractiveTarget {
    type V = InteractiveTargetView;

    open spec fn view(&self) -> InteractiveTargetView {
        InteractiveTargetView {
            name: self.name@,
            agent: opt_view(self.agent),
            adapter: opt_view(self.adapter),
            session: opt_view(self.session),
            pane: opt_view(self.pane),
        }
    }
}

impl View for DeliveryTarget {
    type V = TargetView;

    open spec fn view(&self) -> TargetView {
        match self {
            DeliveryTarget::Command(c) => TargetView::Command(c@),
            DeliveryTarget::Interactive(i) => TargetView::Interactive(i@),
        }
    }
}

impl View for DraftTarget {
    type V = DraftView;

    open spec fn view(&self) -> DraftView {
        DraftView {
            name: self.name@,
            kind: self.kind@,
            agent: opt_view(self.agent),
            repo: opt_view(self.repo),
            command: opt_view(self.command),
            args: views(self.args@),
            adapter: opt_view(self.adapter),
            session: opt_view(self.session),
            pane: opt_view(self.pane),
        }
    }
}

pub open spec fn target_views(v: Seq<DeliveryTarget>) -> Seq<TargetView> {
    v.map_values(|t: DeliveryTarget| t@)
}

impl View for TargetConfig {
    type V = Seq<TargetView>;

    open spec fn view(&self) -> Seq<TargetView> {
        target_views(self.targets@)
    }
}

pub open spec fn target_name(t: TargetView) -> Seq<char> {
    match t {
        TargetView::Command(c) => c.name,
        TargetView::Interactive(i) => i.name,
    }
}

/// A well-formed target: a non-blank name, and for a command target a
/// non-blank command.
pub open spec fn target_ok(t: TargetView) -> bool {
    match t {
        TargetView::Command(c) => !blank(c.name) && !blank(c.command),
        TargetView::Interactive(i) => !blank(i.name),
    }
}

/// The text of a line before its first `#`.
pub open spec fn trim_comment_spec(line: Seq<char>) -> Seq<char> {
    match split_once_spec(line, '#') {
        Some((left, _)) => left,
        None => line,
    }
}

/// `value` without one pair of enclosing double or single quotes.
pub open spec fn strip_quotes_spec(v: Seq<char>) -> Seq<char> {
    if v.len() >= 2 && v[0] == '"' && v.last() == '"' {
        v.subrange(1, v.len() - 1)
    } else if v.len() >= 2 && v[0] == '\'' && v.last() == '\'' {
        v.subrange(1, v.len() - 1)
    } else {
        v
    }
}

/// `key: value` split at the first colon, both sides trimmed and the value
/// unquoted.
pub open spec fn split_kv_spec(text: Seq<char>) -> Option<(Seq<char>, Seq<char>)> {
    match split_once_spec(text, ':') {
        Some((k, v)) => Some((trim(k), strip_quotes_spec(trim(v)))),
        None => None,
    }
}

/// One character of the argument splitter: the finished words, the word
/// being read, and the open quote.
pub open spec fn word_step(
    w: Seq<Seq<char>>,
    cur: Seq<char>,
    q: Option<char>,
    ch: char,
) -> (Seq<Seq<char>>, Seq<char>, Option<char>) {
    match q {
        Some(a) => if ch == a {
            (w, cur, None)
        } else {
            (w, cur.push(ch), q)
        },
        None => if ch == '"' || ch == '\'' {
            (w, cur, Some(ch))
        } else if is_ws(ch) {
            if cur.len() > 0 {
                (w.push(cur), Seq::empty(), None)
            } else {
                (w, cur, None)
            }
        } else {
            (w, cur.push(ch), None)
        },
    }
}

pub open spec fn words_state(s: Seq<char>) -> (Seq<Seq<char>>, Seq<char>, Option<char>)
    decreases s.len(),
{
    if s.len() == 0 {
        (Seq::empty(), Seq::empty(), None)
    } else {
        let (w, cur, q) = words_state(s.drop_last());
        word_step(w, cur, q, s.last())
    }
}

/// Shell-like splitting at whitespace, where single or double quotes group
/// words; an unclosed quote is refused with the quote character.
pub open spec fn split_words_spec(s: Seq<char>) -> Result<Seq<Seq<char>>, char> {
    let (w, cur, q) = words_state(s);
    match q {
        Some(a) => Err(a),
        None => Ok(
            if cur.len() > 0 {
                w.push(cur)
            } else {
                w
            },
        ),
    }
}

/// `text` with every leading `- ` removed.
pub open spec fn strip_dashes(s: Seq<char>) -> Seq<char>
    decreases s.len(),
{
    if s.len() >= 2 && s[0] == '-' && s[1] == ' ' {
        strip_dashes(s.subrange(2, s.len() as int))
    } else {
        s
    }
}

pub open spec fn err_of(kind: TargetErrorKind, detail: Seq<char>) -> (TargetErrorKind, Seq<char>) {
    (kind, detail)
}

pub open spec fn named_draft(name: Seq<char>) -> DraftView {
    DraftView {
        name: name,
        kind: Seq::empty(),
        agent: None,
        repo: None,
        command: None,
        args: Seq::empty(),
        adapter: None,
        session: None,
        pane: None,
    }
}

/// Finishes the item being read and appends it to `targets`.
pub open spec fn flush_spec(targets: Seq<TargetView>, current: Option<DraftView>) -> Result<
    Seq<TargetView>,
    (TargetErrorKind, Seq<char>),
> {
    match current {
        None => Ok(targets),
        Some(d) => if blank(d.name) {
            Err(err_of(TargetErrorKind::NameRequired, Seq::empty()))
        } else if d.kind == "command"@ {
            match d.command {
                Some(c) => if blank(c) {
                    Err(err_of(TargetErrorKind::CommandRequired, d.name))
                } else {
                    Ok(
                        targets.push(
                            TargetView::Command(
                                CommandTargetView {
                                    name: d.name,
                                    agent: d.agent,
                                    repo: d.repo,
                                    command: c,
                                    args: d.args,
                                },
                            ),
                        ),
                    )
                },
                None => Err(err_of(TargetErrorKind::CommandRequired, d.name)),
            }
        } else if d.kind == "interactive"@ {
            Ok(
                targets.push(
                    TargetView::Interactive(
                        InteractiveTargetView {
                            name: d.name,
                            agent: d.agent,
                            adapter: d.adapter,
                            session: d.session,
                            pane: d.pane,
                        },
                    ),
                ),
            )
        } else if d.kind.len() == 0 {
            Err(err_of(TargetErrorKind::TypeRequired, d.name))
        } else {
            Err(err_of(TargetErrorKind::UnsupportedType, d.kind))
        },
    }
}

/// Sets one `key: value` field of the item being read.
pub open spec fn set_field_spec(d: DraftView, key: Seq<char>, value: Seq<char>) -> Result<
    DraftView,
    (TargetErrorKind, Seq<char>),
> {
    if key == "type"@ {
        Ok(DraftView { kind: value, ..d })
    } else if key == "agent"@ {
        Ok(DraftView { agent: Some(value), ..d })
    } else if key == "repo"@ {
        Ok(DraftView { repo: Some(value), ..d })
    } else if key == "command"@ {
        Ok(DraftView { command: Some(value), ..d })
    } else if key == "args"@ {
        match split_words_spec(value) {
            Ok(w) => Ok(DraftView { args: w, ..d }),
            Err(q) => Err(err_of(TargetErrorKind::UnterminatedQuote, seq![q])),
        }
    } else if key == "adapter"@ {
        Ok(DraftView { adapter: Some(value), ..d })
    } else if key == "session"@ {
        Ok(DraftView { session: Some(value), ..d })
    } else if key == "pane"@ {
        Ok(DraftView { pane: Some(value), ..d })
    } else {
        Err(err_of(TargetErrorKind::UnknownField, key))
    }
}

/// Reads one raw line of the configuration.
pub open spec fn line_step(st: ParseStateView, raw: Seq<char>) -> Result<
    ParseStateView,
    (TargetErrorKind, Seq<char>),
> {
    let line = trim_comment_spec(raw);
    let indent = leading_spaces(line);
    let text = trim(line);
    if blank(line) {
        Ok(st)
    } else if indent == 0 {
        match flush_spec(st.targets, st.current) {
            Err(e) => Err(e),
            Ok(t) => if text == "targets:"@ {
                Ok(ParseStateView { targets: t, current: None, in_targets: true })
            } else {
                Err(err_of(TargetErrorKind::UnknownConfigField, text))
            },
        }
    } else if indent == 2 && text.len() >= 2 && text[0] == '-' && text[1] == ' ' {
        if !st.in_targets {
            Err(err_of(TargetErrorKind::ItemOutsideTargets, text))
        } else {
            match flush_spec(st.targets, st.current) {
                Err(e) => Err(e),
                Ok(t) => match split_kv_spec(trim(strip_dashes(text))) {
                    None => Err(err_of(TargetErrorKind::ItemWithoutName, text)),
                    Some((k, v)) => if k != "name"@ {
                        Err(err_of(TargetErrorKind::ItemFirstKey, k))
                    } else {
                        Ok(
                            ParseStateView {
                                targets: t,
                                current: Some(named_draft(v)),
                                in_targets: st.in_targets,
                            },
                        )
                    },
                },
            }
        }
    } else if indent == 4 {
        match st.current {
            None => Err(err_of(TargetErrorKind::FieldBeforeItem, text)),
            Some(d) => match split_kv_spec(text) {
                None => Err(err_of(TargetErrorKind::InvalidField, text)),
                Some((k, v)) => match set_field_spec(d, k, v) {
                    Err(e) => Err(e),
                    Ok(d2) => Ok(
                        ParseStateView {
                            targets: st.targets,
                            current: Some(d2),
                            in_targets: st.in_targets,
                        },
                    ),
                },
            },
        }
    } else {
        Err(err_of(TargetErrorKind::BadIndentation, line))
    }
}

pub open spec fn initial_state() -> ParseStateView {
    ParseStateView { targets: Seq::empty(), current: None, in_targets: false }
}

/// The reader's state after the given lines.
pub open spec fn read_lines(lines: Seq<Seq<char>>) -> Result<
    ParseStateView,
    (TargetErrorKind, Seq<char>),
>
    decreases lines.len(),
{
    if lines.len() == 0 {
        Ok(initial_state())
    } else {
        match read_lines(lines.drop_last()) {
            Ok(st) => line_step(st, lines.last()),
            Err(e) => Err(e),
        }
    }
}

/// The targets that a configuration text describes, or why it is refused.
pub open spec fn parse_targets_spec(source: Seq<char>) -> Result<
    Seq<TargetView>,
    (TargetErrorKind, Seq<char>),
> {
    match read_lines(lines_of(source)) {
        Err(e) => Err(e),
        Ok(st) => match flush_spec(st.targets, st.current) {
            Err(e) => Err(e),
            Ok(t) => if t.len() == 0 {
                Err(err_of(TargetErrorKind::NoTargets, Seq::empty()))
            } else {
                Ok(t)
            },
        },
    }
}

/// The message that `TargetError::message` renders for an error.
pub open spec fn target_error_message(kind: TargetErrorKind, d: Seq<char>) -> Seq<char> {
    match kind {
        TargetErrorKind::UnknownConfigField => "unknown target config field: "@ + d,
        TargetErrorKind::ItemOutsideTargets => "target item outside targets list: "@ + d,
        TargetErrorKind::ItemWithoutName => "target list item must start with name: "@ + d,
        TargetErrorKind::ItemFirstKey => "target list item must start with name, got "@ + d,
        TargetErrorKind::FieldBeforeItem => "target field before target item: "@ + d,
        TargetErrorKind::InvalidField => "invalid target field: "@ + d,
        TargetErrorKind::UnknownField => "unknown target field: "@ + d,
        TargetErrorKind::BadIndentation => "unsupported target config indentation: "@ + d,
        TargetErrorKind::NoTargets => "target config must contain at least one target"@,
        TargetErrorKind::NameRequired => "target name is required"@,
        TargetErrorKind::CommandRequired => "target '"@ + d + "' command is required"@,
        TargetErrorKind::TypeRequired => "target '"@ + d + "' type is required"@,
        TargetErrorKind::UnsupportedType => "unsupported target type: "@ + d,
        TargetErrorKind::UnterminatedQuote => "unterminated quote "@ + d + " in args"@,
    }
}

impl TargetError {
    pub fn new(kind: TargetErrorKind, detail: &str) -> (e: TargetError)
        ensures
            e@ == (kind, detail@),
    {
        TargetError { kind, detail: owned(detail) }
    }

    /// The human-readable message of this error.
    pub fn message(&self) -> (m: String)
        ensures
            m@ == target_error_message(self.kind, self.detail@),
    {
        let d = self.detail.as_str();
        match self.kind {
            TargetErrorKind::UnknownConfigField => owned("unknown target config field: ").concat(d),
            TargetErrorKind::ItemOutsideTargets => owned("target item outside targets list: ").concat(d),
            TargetErrorKind::ItemWithoutName => owned("target list item must start with name: ").concat(d),
            TargetErrorKind::ItemFirstKey => owned("target list item must start with name, got ").concat(d),
            TargetErrorKind::FieldBeforeItem => owned("target field before target item: ").concat(d),
            TargetErrorKind::InvalidField => owned("invalid target field: ").concat(d),
            TargetErrorKind::UnknownField => owned("unknown target field: ").concat(d),
            TargetErrorKind::BadIndentation => owned("unsupported target config indentation: ").concat(d),
            TargetErrorKind::NoTargets => owned("target config must contain at least one target"),
            TargetErrorKind::NameRequired => owned("target name is required"),
            TargetErrorKind::CommandRequired => owned("target '").concat(d).concat("' command is required"),
            TargetErrorKind::TypeRequired => owned("target '").concat(d).concat("' type is required"),
            TargetErrorKind::UnsupportedType => owned("unsupported target type: ").concat(d),
            TargetErrorKind::UnterminatedQuote => owned("unterminated quote ").concat(d).concat(" in args"),
        }
    }
}

/// The text of a line before its first `#`.
pub fn trim_comment(line: &str) -> (r: &str)
    ensures
        r@ == trim_comment_spec(line@),
{
    match split_once_char(line, '#') {
        Some((left, _)) => left,
        None => line,
    }
}

/// Removes one pair of enclosing double or single quotes.
pub fn strip_quotes(value: &str) -> (r: &str)
    ensures
        r@ == strip_quotes_spec(value@),
{
    let n = value.unicode_len();
    if n >= 2 {
        let first = value.get_char(0);
        let last = value.get_char(n - 1);
        if (first == '"' && last == '"') || (first == '\'' && last == '\'') {
            return value.substring_char(1, n - 1);
        }
    }
    value
}

/// Splits `key: value` at the first colon.
pub fn split_kv(text: &str) -> (r: Option<(&str, &str)>)
    ensures
        match r {
            Some((k, v)) => split_kv_spec(text@) == Some((k@, v@)),
            None => split_kv_spec(text@) is None,
        },
{
    match split_once_char(text, ':') {
        Some((k, v)) => Some((str_trim(k), strip_quotes(str_trim(v)))),
        None => None,
    }
}

/// Splits an `args` value into words; quotes group words and are removed.
pub fn split_words(value: &str) -> (r: Result<Vec<String>, TargetError>)
    ensures
        match (r, split_words_spec(value@)) {
            (Ok(w), Ok(ws)) => views(w@) == ws,
            (Err(e), Err(q)) => e@ == (TargetErrorKind::UnterminatedQuote, seq![q]),
            _ => false,
        },
{
    let n = value.unicode_len();
    let mut words: Vec<String> = Vec::new();
    let mut current = String::new();
    let mut quote: Option<char> = None;
    let mut i: usize = 0;
    while i < n
        invariant
            n == value@.len(),
            i <= n,
            (views(words@), current@, quote) == words_state(value@.take(i as int)),
        decreases n - i,
    {
        let ch = value.get_char(i);
        proof {
            assert(value@.take(i + 1).drop_last() =~= value@.take(i as int));
            assert(value@.take(i + 1).last() == ch);
        }
        match quote {
            Some(active) => {
                if ch == active {
                    quote = None;
                } else {
                    string_push(&mut current, ch);
                }
            },
            None => {
                if ch == '"' || ch == '\'' {
                    quote = Some(ch);
                } else if char_is_whitespace(ch) {
                    if current.unicode_len() > 0 {
                        proof {
                            assert(views(words@.push(current)) =~= views(words@).push(current@));
                        }
                        words.push(current);
                        current = String::new();
                    }
                } else {
                    string_push(&mut current, ch);
                }
            },
        }
        i = i + 1;
    }
    assert(value@.take(n as int) =~= value@);
    match quote {
        Some(active) => {
            let mut d = String::new();
            string_push(&mut d, active);
            Err(TargetError { kind: TargetErrorKind::UnterminatedQuote, detail: d })
        },
        None => {
            if current.unicode_len() > 0 {
                proof {
                    assert(views(words@.push(current)) =~= views(words@).push(current@));
                }
                words.push(current);
            }
            Ok(words)
        },
    }
}

/// Removes every leading `- ` of `text`.
fn trim_item_marker(text: &str) -> (r: &str)
    ensures
        r@ == strip_dashes(text@),
{
    let n = text.unicode_len();
    let mut i: usize = 0;
    assert(text@.subrange(0, n as int) =~= text@);
    while i < n && n - i >= 2 && text.get_char(i) == '-' && text.get_char(i + 1) == ' '
        invariant
            n == text@.len(),
            i <= n,
            strip_dashes(text@) == strip_dashes(text@.subrange(i as int, n as int)),
        decreases n - i,
    {
        proof {
            let rest = text@.subrange(i as int, n as int);
            assert(rest.subrange(2, rest.len() as int) =~= text@.subrange(i + 2, n as int));
        }
        i = i + 2;
    }
    proof {
        let rest = text@.subrange(i as int, n as int);
        if rest.len() >= 2 {
            assert(rest[0] == text@[i as int]);
            assert(rest[1] == text@[i + 1]);
        }
    }
    text.substring_char(i, n)
}

fn empty_draft(name: &str) -> (d: DraftTarget)
    ensures
        d@ == named_draft(name@),
{
    let d = DraftTarget {
        name: owned(name),
        kind: String::new(),
        agent: None,
        repo: None,
        command: None,
        args: Vec::new(),
        adapter: None,
        session: None,
        pane: None,
    };
    assert(views(d.args@) =~= Seq::empty());
    d
}

/// Finishes the item being read, if any, and appends it to the targets.
pub fn flush_target(config: &mut TargetConfig, current: &mut Option<DraftTarget>) -> (r: Result<
    (),
    TargetError,
>)
    ensures
        final(current).is_none(),
        match (r, flush_spec(old(config)@, match *old(current) {
            Some(d) => Some(d@),
            None => None,
        })) {
            (Ok(_), Ok(t)) => final(config)@ == t,
            (Err(e), Err(ev)) => e@ == ev && *final(config) == *old(config),
            _ => false,
        },
{
    let Some(target) = current.take() else {
        return Ok(());
    };
    if is_blank(target.name.as_str()) {
        proof {
            reveal_strlit("");
        }
        return Err(TargetError::new(TargetErrorKind::NameRequired, ""));
    }
    if str_eq(target.kind.as_str(), "command") {
        let DraftTarget { name, kind: _, agent, repo, command, args, adapter: _, session: _, pane: _ } =
            target;
        match command {
            Some(c) => {
                if is_blank(c.as_str()) {
                    return Err(TargetError { kind: TargetErrorKind::CommandRequired, detail: name });
                }
                let t = DeliveryTarget::Command(CommandTarget { name, agent, repo, command: c, args });
                let ghost tv = t@;
                config.targets.push(t);
                assert(config@ =~= old(config)@.push(tv));
                Ok(())
            },
            None => Err(TargetError { kind: TargetErrorKind::CommandRequired, detail: name }),
        }
    } else if str_eq(target.kind.as_str(), "interactive") {
        let DraftTarget { name, kind: _, agent, repo: _, command: _, args: _, adapter, session, pane } =
            target;
        let t = DeliveryTarget::Interactive(InteractiveTarget { name, agent, adapter, session, pane });
        let ghost tv = t@;
        config.targets.push(t);
        assert(config@ =~= old(config)@.push(tv));
        Ok(())
    } else if target.kind.unicode_len() == 0 {
        Err(TargetError { kind: TargetErrorKind::TypeRequired, detail: target.name })
    } else {
        Err(TargetError { kind: TargetErrorKind::UnsupportedType, detail: target.kind })
    }
}

/// Sets one field of the item being read.
fn set_field(d: DraftTarget, key: &str, value: &str) -> (r: Result<DraftTarget, TargetError>)
    ensures
        match (r, set_field_spec(d@, key@, value@)) {
            (Ok(d2), Ok(v2)) => d2@ == v2,
            (Err(e), Err(ev)) => e@ == ev,
            _ => false,
        },
{
    let mut d = d;
    if str_eq(key, "type") {
        d.kind = owned(value);
    } else if str_eq(key, "agent") {
        d.agent = Some(owned(value));
    } else if str_eq(key, "repo") {
        d.repo = Some(owned(value));
    } else if str_eq(key, "command") {
        d.command = Some(owned(value));
    } else if str_eq(key, "args") {
        match split_words(value) {
            Ok(w) => {
                d.args = w;
            },
            Err(e) => {
                return Err(e);
            },
        }
    } else if str_eq(key, "adapter") {
        d.adapter = Some(owned(value));
    } else if str_eq(key, "session") {
        d.session = Some(owned(value));
    } else if str_eq(key, "pane") {
        d.pane = Some(owned(value));
    } else {
        return Err(TargetError::new(TargetErrorKind::UnknownField, key));
    }
    Ok(d)
}

/// The spec state of the reader's exec state.
pub open spec fn state_view(config: TargetConfig, current: Option<DraftTarget>, in_targets: bool) -> ParseStateView {
    ParseStateView {
        targets: config@,
        current: match current {
            Some(d) => Some(d@),
            None => None,
        },
        in_targets: in_targets,
    }
}

/// Reads one raw line into the reader's state.
fn read_line(
    config: &mut TargetConfig,
    current: &mut Option<DraftTarget>,
    in_targets: &mut bool,
    raw: &str,
) -> (r: Result<(), TargetError>)
    ensures
        match (r, line_step(state_view(*old(config), *old(current), *old(in_targets)), raw@)) {
            (Ok(_), Ok(st)) => state_view(*final(config), *final(current), *final(in_targets)) == st,
            (Err(e), Err(ev)) => e@ == ev,
            _ => false,
        },
{
    let line = trim_comment(raw);
    if is_blank(line) {
        return Ok(());
    }
    let indent = count_leading_spaces(line);
    let text = str_trim(line);
    if indent == 0 {
        match flush_target(config, current) {
            Err(e) => return Err(e),
            Ok(()) => {},
        }
        if str_eq(text, "targets:") {
            *in_targets = true;
            return Ok(());
        } else {
            return Err(TargetError::new(TargetErrorKind::UnknownConfigField, text));
        }
    }
    let dash = starts_with(text, "- ");
    proof {
        reveal_strlit("- ");
        if text@.len() >= 2 && text@[0] == '-' && text@[1] == ' ' {
            assert(text@.subrange(0, 2) =~= "- "@);
        }
        if dash {
            assert(text@.subrange(0, 2)[0] == text@[0]);
            assert(text@.subrange(0, 2)[1] == text@[1]);
        }
    }
    if indent == 2 && dash {
        if !*in_targets {
            return Err(TargetError::new(TargetErrorKind::ItemOutsideTargets, text));
        }
        match flush_target(config, current) {
            Err(e) => return Err(e),
            Ok(()) => {},
        }
        match split_kv(str_trim(trim_item_marker(text))) {
            None => Err(TargetError::new(TargetErrorKind::ItemWithoutName, text)),
            Some((key, value)) => {
                if !str_eq(key, "name") {
                    return Err(TargetError::new(TargetErrorKind::ItemFirstKey, key));
                }
                *current = Some(empty_draft(value));
                Ok(())
            },
        }
    } else if indent == 4 {
        let Some(target) = current.take() else {
            return Err(TargetError::new(TargetErrorKind::FieldBeforeItem, text));
        };
        match split_kv(text) {
            None => Err(TargetError::new(TargetErrorKind::InvalidField, text)),
            Some((key, value)) => match set_field(target, key, value) {
                Err(e) => Err(e),
                Ok(d2) => {
                    *current = Some(d2);
                    Ok(())
                },
            },
        }
    } else {
        Err(TargetError::new(TargetErrorKind::BadIndentation, line))
    }
}

proof fn lemma_read_lines_err_persists(ls: Seq<Seq<char>>, i: int)
    requires
        0 <= i <= ls.len(),
        read_lines(ls.take(i)) is Err,
    ensures
        read_lines(ls) == read_lines(ls.take(i)),
    decreases ls.len() - i,
{
    if i < ls.len() {
        assert(ls.take(i + 1).drop_last() =~= ls.take(i));
        lemma_read_lines_err_persists(ls, i + 1);
    } else {
        assert(ls.take(i) =~= ls);
    }
}

/// Parses a target configuration.
pub fn parse_targets(source: &str) -> (r: Result<TargetConfig, TargetError>)
    ensures
        match (r, parse_targets_spec(source@)) {
            (Ok(c), Ok(t)) => c@ == t,
            (Err(e), Err(ev)) => e@ == ev,
            _ => false,
        },
{
    let lines = split_lines(source);
    let ghost ls = lines_of(source@);
    let mut config = TargetConfig { targets: Vec::new() };
    let mut current: Option<DraftTarget> = None;
    let mut in_targets = false;
    assert(config@ =~= Seq::empty());
    let mut i: usize = 0;
    while i < lines.len()
        invariant
            views(lines@) == ls,
            ls == lines_of(source@),
            i <= lines.len(),
            read_lines(ls.take(i as int)) == Ok::<ParseStateView, (TargetErrorKind, Seq<char>)>(
                state_view(config, current, in_targets),
            ),
        decreases lines.len() - i,
    {
        proof {
            assert(ls.take(i + 1).drop_last() =~= ls.take(i as int));
            assert(ls.take(i + 1).last() == lines@[i as int]@);
        }
        let ghost st0 = state_view(config, current, in_targets);
        match read_line(&mut config, &mut current, &mut in_targets, lines[i].as_str()) {
            Err(e) => {
                proof {
                    assert(read_lines(ls.take(i + 1)) == line_step(st0, ls[i as int]));
                    lemma_read_lines_err_persists(ls, i + 1);
                }
                return Err(e);
            },
            Ok(()) => {},
        }
        i = i + 1;
    }
    assert(ls.take(lines.len() as int) =~= ls);
    match flush_target(&mut config, &mut current) {
        Err(e) => return Err(e),
        Ok(()) => {},
    }
    if config.targets.len() == 0 {
        proof {
            reveal_strlit("");
        }
        return Err(TargetError::new(TargetErrorKind::NoTargets, ""));
    }
    Ok(config)
}

proof fn lemma_flush_keeps_targets_ok(targets: Seq<TargetView>, current: Option<DraftView>)
    requires
        forall|i: int| 0 <= i < targets.len() ==> target_ok(#[trigger] targets[i]),
    ensures
        flush_spec(targets, current) matches Ok(t) ==> forall|i: int|
            0 <= i < t.len() ==> target_ok(#[trigger] t[i]),
{
    if let Ok(t) = flush_spec(targets, current) {
        assert forall|i: int| 0 <= i < t.len() implies target_ok(#[trigger] t[i]) by {
            if i < targets.len() {
                assert(t[i] == targets[i]);
            }
        }
    }
}

proof fn lemma_read_lines_targets_ok(ls: Seq<Seq<char>>)
    ensures
        read_lines(ls) matches Ok(st) ==> forall|i: int|
            0 <= i < st.targets.len() ==> target_ok(#[trigger] st.targets[i]),
    decreases ls.len(),
{
    if ls.len() > 0 {
        lemma_read_lines_targets_ok(ls.drop_last());
        if let Ok(st) = read_lines(ls.drop_last()) {
            lemma_flush_keeps_targets_ok(st.targets, st.current);
        }
    }
}

/// Every target of an accepted configuration has a non-blank name, every
/// command target a non-blank command, and an accepted configuration is
/// never empty.
pub proof fn parsed_targets_are_well_formed(source: Seq<char>)
    ensures
        parse_targets_spec(source) matches Ok(t) ==> t.len() > 0 && forall|i: int|
            0 <= i < t.len() ==> target_ok(#[trigger] t[i]),
{
    lemma_read_lines_targets_ok(lines_of(source));
    if let Ok(st) = read_lines(lines_of(source)) {
        lemma_flush_keeps_targets_ok(st.targets, st.current);
    }
}

/// Index of the first target named `name`.
pub open spec fn first_named(t: Seq<TargetView>, name: Seq<char>) -> Option<int> {
    if exists|i: int| 0 <= i < t.len() && target_name(t[i]) == name {
        Some(
            choose|i: int|
                0 <= i < t.len() && target_name(t[i]) == name && forall|j: int|
                    0 <= j < i ==> target_name(t[j]) != name,
        )
    } else {
        None
    }
}

impl DeliveryTarget {
    /// The target's name.
    pub fn name(&self) -> (r: &str)
        ensures
            r@ == target_name(self@),
    {
        match self {
            DeliveryTarget::Command(c) => c.name.as_str(),
            DeliveryTarget::Interactive(i) => i.name.as_str(),
        }
    }

    /// The agent that the target delivers to, if configured.
    pub fn agent(&self) -> (r: Option<&str>)
        ensures
            match r {
                Some(a) => match self@ {
                    TargetView::Command(c) => c.agent == Some(a@),
                    TargetView::Interactive(i) => i.agent == Some(a@),
                },
                None => match self@ {
                    TargetView::Command(c) => c.agent is None,
                    TargetView::Interactive(i) => i.agent is None,
                },
            },
    {
        match self {
            DeliveryTarget::Command(c) => match &c.agent {
                Some(a) => Some(a.as_str()),
                None => None,
            },
            DeliveryTarget::Interactive(i) => match &i.agent {
                Some(a) => Some(a.as_str()),
                None => None,
            },
        }
    }

    /// The repository of a command target; interactive targets have none.
    pub fn repo(&self) -> (r: Option<&str>)
        ensures
            match r {
                Some(p) => self@ matches TargetView::Command(c) && c.repo == Some(p@),
                None => !(self@ matches TargetView::Command(c) && c.repo is Some),
            },
    {
        match self {
            DeliveryTarget::Command(c) => match &c.repo {
                Some(p) => Some(p.as_str()),
                None => None,
            },
            DeliveryTarget::Interactive(_) => None,
        }
    }
}

impl TargetConfig {
    /// The first target with the given name.
    pub fn find(&self, name: &str) -> (r: Option<&DeliveryTarget>)
        ensures
            match (r, first_named(self@, name@)) {
                (Some(t), Some(i)) => t@ == self@[i],
                (None, None) => true,
                _ => false,
            },
    {
        let mut i: usize = 0;
        while i < self.targets.len()
            invariant
                i <= self.targets.len(),
                forall|j: int| 0 <= j < i ==> target_name(self@[j]) != name@,
            decreases self.targets.len() - i,
        {
            if str_eq(self.targets[i].name(), name) {
                proof {
                    assert(target_name(self@[i as int]) == name@);
                    let k = first_named(self@, name@)->0;
                    assert(k == i as int) by {
                        if k < i as int {
                            assert(target_name(self@[k]) != name@);
                        }
                        if k > i as int {}
                    }
                }
                return Some(&self.targets[i]);
            }
            i = i + 1;
        }
        None
    }
}

/// The other quote character: `"` for `'` and `'` for `"`; any other
/// character stays.
pub open spec fn swap_quote(c: char) -> char {
    if c == '"' {
        '\''
    } else if c == '\'' {
        '"'
    } else {
        c
    }
}

pub open spec fn swap_quotes(s: Seq<char>) -> Seq<char> {
    s.map_values(|c: char| swap_quote(c))
}

pub open spec fn swap_words(w: Seq<Seq<char>>) -> Seq<Seq<char>> {
    w.map_values(|x: Seq<char>| swap_quotes(x))
}

pub open spec fn swap_open(q: Option<char>) -> Option<char> {
    match q {
        Some(c) => Some(swap_quote(c)),
        None => None,
    }
}

proof fn lemma_words_state_swap(s: Seq<char>)
    ensures
        ({
            let (w, cur, q) = words_state(s);
            words_state(swap_quotes(s)) == (swap_words(w), swap_quotes(cur), swap_open(q))
        }),
    decreases s.len(),
{
    if s.len() > 0 {
        lemma_words_state_swap(s.drop_last());
        assert(swap_quotes(s).drop_last() =~= swap_quotes(s.drop_last()));
        assert(swap_quotes(s).last() == swap_quote(s.last()));
        let (w, cur, q) = words_state(s.drop_last());
        let ch = s.last();
        assert(is_ws(swap_quote(ch)) == is_ws(ch));
        assert(swap_quotes(cur.push(ch)) =~= swap_quotes(cur).push(swap_quote(ch)));
        assert(swap_words(w.push(cur)) =~= swap_words(w).push(swap_quotes(cur)));
        assert(swap_quotes(Seq::<char>::empty()) =~= Seq::<char>::empty());
    } else {
        assert(swap_quotes(s) =~= Seq::<char>::empty());
        assert(swap_words(Seq::<Seq<char>>::empty()) =~= Seq::<Seq<char>>::empty());
    }
}

/// Single and double quotes group words alike: exchanging every `'` with
/// `"` in the text exchanges them in the words it splits into (and in the
/// quote an error reports), and changes nothing else.
pub proof fn single_and_double_quotes_split_alike(s: Seq<char>)
    ensures
        match split_words_spec(s) {
            Ok(w) => split_words_spec(swap_quotes(s)) == Ok::<Seq<Seq<char>>, char>(swap_words(w)),
            Err(a) => split_words_spec(swap_quotes(s)) == Err::<Seq<Seq<char>>, char>(swap_quote(a)),
        },
{
    lemma_words_state_swap(s);
    let (w, cur, q) = words_state(s);
    assert(swap_words(w.push(cur)) =~= swap_words(w).push(swap_quotes(cur)));
}

proof fn lemma_quoted_prefix(q: char, w: Seq<char>)
    requires
        q == '"' || q == '\'',
        !w.contains(q),
    ensures
        words_state(seq![q] + w) == (Seq::<Seq<char>>::empty(), w, Some(q)),
    decreases w.len(),
{
    if w.len() == 0 {
        assert((seq![q] + w).drop_last() =~= Seq::<char>::empty());
        assert((seq![q] + w).last() == q);
        assert(w =~= Seq::<char>::empty());
        let e = Seq::<char>::empty();
        assert(words_state(e) == (Seq::<Seq<char>>::empty(), e, None::<char>));
        assert(word_step(Seq::<Seq<char>>::empty(), e, None, q) == (Seq::<Seq<char>>::empty(), e, Some(q)));
        assert(words_state(seq![q] + w) == word_step(Seq::<Seq<char>>::empty(), e, None, q));
    } else {
        assert(!w.drop_last().contains(q)) by {
            if w.drop_last().contains(q) {
                let x = choose|x: int| 0 <= x < w.drop_last().len() && w.drop_last()[x] == q;
                assert(w[x] == q);
            }
        }
        lemma_quoted_prefix(q, w.drop_last());
        assert((seq![q] + w).drop_last() =~= seq![q] + w.drop_last());
        assert((seq![q] + w).last() == w.last());
        assert(w.last() != q) by {
            assert(w[w.len() - 1] == w.last());
        }
        assert(w.drop_last().push(w.last()) =~= w);
        assert(words_state(seq![q] + w) == word_step(
            Seq::<Seq<char>>::empty(),
            w.drop_last(),
            Some(q),
            w.last(),
        ));
    }
}

/// A text in single or double quotes is one word, without its quotes, when
/// the quote does not occur inside it: `'b c'` splits into `b c`. An empty
/// quoted text gives no word.
pub proof fn quoted_text_is_one_word(q: char, w: Seq<char>)
    requires
        q == '"' || q == '\'',
        !w.contains(q),
    ensures
        split_words_spec(seq![q] + w + seq![q]) == Ok::<Seq<Seq<char>>, char>(
            if w.len() > 0 {
                seq![w]
            } else {
                Seq::empty()
            },
        ),
{
    lemma_quoted_prefix(q, w);
    let s = seq![q] + w + seq![q];
    assert(s.drop_last() =~= seq![q] + w);
    assert(s.last() == q);
    assert(Seq::<Seq<char>>::empty().push(w) =~= seq![w]);
}

/// The splitter run on `y` from the state `st`.
pub open spec fn run_words(
    st: (Seq<Seq<char>>, Seq<char>, Option<char>),
    y: Seq<char>,
) -> (Seq<Seq<char>>, Seq<char>, Option<char>)
    decreases y.len(),
{
    if y.len() == 0 {
        st
    } else {
        let (w, cur, q) = run_words(st, y.drop_last());
        word_step(w, cur, q, y.last())
    }
}

proof fn lemma_words_state_append(x: Seq<char>, y: Seq<char>)
    ensures
        words_state(x + y) == run_words(words_state(x), y),
    decreases y.len(),
{
    if y.len() == 0 {
        assert(x + y =~= x);
    } else {
        assert((x + y).drop_last() =~= x + y.drop_last());
        assert((x + y).last() == y.last());
        lemma_words_state_append(x, y.drop_last());
    }
}

proof fn lemma_run_after_words(pre: Seq<Seq<char>>, y: Seq<char>)
    ensures
        ({
            let (w, cur, q) = words_state(y);
            run_words((pre, Seq::empty(), None), y) == (pre + w, cur, q)
        }),
    decreases y.len(),
{
    if y.len() == 0 {
        assert(pre + Seq::<Seq<char>>::empty() =~= pre);
    } else {
        lemma_run_after_words(pre, y.drop_last());
        let (w, cur, q) = words_state(y.drop_last());
        assert((pre + w).push(cur) =~= pre + w.push(cur));
    }
}

/// Whitespace outside quotes ends a word: the words of `a`, a whitespace
/// character and `b` are the words of `a` followed by those of `b`, when
/// `a` leaves no quote open; an open quote in `b` is reported as it is.
pub proof fn words_split_at_whitespace(a: Seq<char>, sep: char, b: Seq<char>)
    requires
        split_words_spec(a) is Ok,
        is_ws(sep),
    ensures
        split_words_spec(a.push(sep) + b) == match split_words_spec(b) {
            Ok(wb) => Ok::<Seq<Seq<char>>, char>(split_words_spec(a)->Ok_0 + wb),
            Err(q) => Err::<Seq<Seq<char>>, char>(q),
        },
{
    let wa = split_words_spec(a)->Ok_0;
    assert(a.push(sep).drop_last() =~= a);
    assert(words_state(a.push(sep)) == (wa, Seq::<char>::empty(), None::<char>));
    lemma_words_state_append(a.push(sep), b);
    lemma_run_after_words(wa, b);
    let (w, cur, q) = words_state(b);
    assert((wa + w).push(cur) =~= wa + w.push(cur));
}

} // verus!
