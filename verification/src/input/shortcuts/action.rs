//! The single action vocabulary.
//!
//! Keyboard chords, touchpad gestures and config rows all resolve to an
//! [`Action`] and go down one dispatch path. No second enum for gestures —
//! that is how "swipe left" and "Super+Tab" drift apart.

use vstd::prelude::*;
use vstd::string::*;

use crate::layout::snap::SnapZone;
use crate::layout::WorkspaceMode;
use crate::numbers::{
    is_float_literal, is_sign, parse_i32, parse_usize, parses_as_float, spec_parse_i32,
    spec_parse_usize,
};
use crate::text::{
    chars_of, join_words, lemma_rejoined_words, split_words, string_from, word_is, words, words_of,
};

verus! {

/// Which way a focus or move operation goes.
#[derive(Debug, Clone, Copy, PartialEq, Eq, Structural)]
pub enum Direction {
    Left,
    Right,
    Up,
    Down,
}

/// A workspace, named absolutely, relative to the current one, or as the one
/// visited before it.
#[derive(Debug, Clone, Copy, PartialEq, Eq, Structural)]
pub enum WorkspaceRef {
    Index(usize),
    Relative(i32),
    Previous,
}

#[derive(Debug, Clone, PartialEq)]
pub enum Action {
    NoAction,
    Quit,
    ReloadConfig,
    Spawn(Vec<String>),
    SwitchVt(i32),
    CloseWindow,
    Focus(Direction),
    MoveWindow(Direction),
    FocusOutput(Direction),
    MoveWindowToOutput(Direction),
    Workspace(WorkspaceRef),
    MoveWindowToWorkspace { target: WorkspaceRef, follow: bool },
    MoveWorkspaceToOutput(Direction),
    ToggleFloating,
    ToggleFullscreen,
    ToggleMaximize,
    /// Flips the focused workspace between tiling and floating.
    ToggleWorkspaceMode,
    SetWorkspaceMode(WorkspaceMode),
    /// Parks the focused window on an edge, as a drag to that edge would.
    SnapWindow(SnapZone),
    /// Dismisses an open application menu.
    CloseMenu,
    OpenWorkspaceView,
    CloseWorkspaceView,
    /// One chord for both, the way a dedicated mission-control key behaves.
    ToggleWorkspaceView,
    /// Grow or shrink the master column by a fraction of the area. Held as
    /// the decimal the user wrote, which always reads as a float.
    ResizeSplit(String),
    /// Into or out of the master column.
    PromoteDemote,
    ResetSize,
    /// Bound to chords only; no spelling of an action names these.
    CycleLayout,
    ToggleLayoutMode,
}

/// An [`Action`] with its strings read as characters.
pub enum ActionView {
    NoAction,
    Quit,
    ReloadConfig,
    Spawn(Seq<Seq<char>>),
    SwitchVt(i32),
    CloseWindow,
    Focus(Direction),
    MoveWindow(Direction),
    FocusOutput(Direction),
    MoveWindowToOutput(Direction),
    Workspace(WorkspaceRef),
    MoveWindowToWorkspace { target: WorkspaceRef, follow: bool },
    MoveWorkspaceToOutput(Direction),
    ToggleFloating,
    ToggleFullscreen,
    ToggleMaximize,
    ToggleWorkspaceMode,
    SetWorkspaceMode(WorkspaceMode),
    SnapWindow(SnapZone),
    CloseMenu,
    OpenWorkspaceView,
    CloseWorkspaceView,
    ToggleWorkspaceView,
    ResizeSplit(Seq<char>),
    PromoteDemote,
    ResetSize,
    CycleLayout,
    ToggleLayoutMode,
}

pub open spec fn strings_view(v: Seq<String>) -> Seq<Seq<char>> {
    v.map_values(|s: String| s@)
}

impl View for Action {
    type V = ActionView;

    open spec fn view(&self) -> ActionView {
        match self {
            Action::NoAction => ActionView::NoAction,
            Action::Quit => ActionView::Quit,
            Action::ReloadConfig => ActionView::ReloadConfig,
            Action::Spawn(argv) => ActionView::Spawn(strings_view(argv@)),
            Action::SwitchVt(vt) => ActionView::SwitchVt(*vt),
            Action::CloseWindow => ActionView::CloseWindow,
            Action::Focus(d) => ActionView::Focus(*d),
            Action::MoveWindow(d) => ActionView::MoveWindow(*d),
            Action::FocusOutput(d) => ActionView::FocusOutput(*d),
            Action::MoveWindowToOutput(d) => ActionView::MoveWindowToOutput(*d),
            Action::Workspace(w) => ActionView::Workspace(*w),
            Action::MoveWindowToWorkspace { target, follow } => ActionView::MoveWindowToWorkspace {
                target: *target,
                follow: *follow,
            },
            Action::MoveWorkspaceToOutput(d) => ActionView::MoveWorkspaceToOutput(*d),
            Action::ToggleFloating => ActionView::ToggleFloating,
            Action::ToggleFullscreen => ActionView::ToggleFullscreen,
            Action::ToggleMaximize => ActionView::ToggleMaximize,
            Action::ToggleWorkspaceMode => ActionView::ToggleWorkspaceMode,
            Action::SetWorkspaceMode(m) => ActionView::SetWorkspaceMode(*m),
            Action::SnapWindow(z) => ActionView::SnapWindow(*z),
            Action::CloseMenu => ActionView::CloseMenu,
            Action::OpenWorkspaceView => ActionView::OpenWorkspaceView,
            Action::CloseWorkspaceView => ActionView::CloseWorkspaceView,
            Action::ToggleWorkspaceView => ActionView::ToggleWorkspaceView,
            Action::ResizeSplit(f) => ActionView::ResizeSplit(f@),
            Action::PromoteDemote => ActionView::PromoteDemote,
            Action::ResetSize => ActionView::ResetSize,
            Action::CycleLayout => ActionView::CycleLayout,
            Action::ToggleLayoutMode => ActionView::ToggleLayoutMode,
        }
    }
}

#[derive(Debug, Clone, PartialEq, Eq)]
pub enum ParseActionError {
    Empty,
    UnknownAction(String),
    BadArgument { what: &'static str, got: String },
    MissingArgument { action: String, what: &'static str },
}

/// A [`ParseActionError`] with its strings read as characters.
pub enum ParseErrorView {
    Empty,
    UnknownAction(Seq<char>),
    BadArgument { what: Seq<char>, got: Seq<char> },
    MissingArgument { action: Seq<char>, what: Seq<char> },
}

impl View for ParseActionError {
    type V = ParseErrorView;

    open spec fn view(&self) -> ParseErrorView {
        match self {
            ParseActionError::Empty => ParseErrorView::Empty,
            ParseActionError::UnknownAction(a) => ParseErrorView::UnknownAction(a@),
            ParseActionError::BadArgument { what, got } => ParseErrorView::BadArgument {
                what: what@,
                got: got@,
            },
            ParseActionError::MissingArgument { action, what } => ParseErrorView::MissingArgument {
                action: action@,
                what: what@,
            },
        }
    }
}

/// The sentence an error reads as.
pub open spec fn spec_message(e: ParseErrorView) -> Seq<char> {
    match e {
        ParseErrorView::Empty => "empty action"@,
        ParseErrorView::UnknownAction(a) => "unknown action `"@ + a + "`"@,
        ParseErrorView::BadArgument { what, got } => "invalid "@ + what + " `"@ + got + "`"@,
        ParseErrorView::MissingArgument { action, what } => "`"@ + action + "` needs a "@ + what,
    }
}

impl ParseActionError {
    pub fn bad_argument(what: &'static str, got: &str) -> (e: Self)
        ensures
            e@ == (ParseErrorView::BadArgument { what: what@, got: got@ }),
    {
        ParseActionError::BadArgument { what, got: got.to_owned() }
    }

    /// What the error says, as a person reads it.
    pub fn message(&self) -> (m: String)
        ensures
            m@ == spec_message(self@),
    {
        match self {
            ParseActionError::Empty => String::from_str("empty action"),
            ParseActionError::UnknownAction(a) => {
                let mut m = String::from_str("unknown action `");
                m.append(a.as_str());
                m.append("`");
                m
            },
            ParseActionError::BadArgument { what, got } => {
                let mut m = String::from_str("invalid ");
                m.append(what);
                m.append(" `");
                m.append(got.as_str());
                m.append("`");
                m
            },
            ParseActionError::MissingArgument { action, what } => {
                let mut m = String::from_str("`");
                m.append(action.as_str());
                m.append("` needs a ");
                m.append(what);
                m
            },
        }
    }
}

pub open spec fn bad(what: Seq<char>, got: Seq<char>) -> ParseErrorView {
    ParseErrorView::BadArgument { what, got }
}

pub open spec fn spec_parse_direction(w: Seq<char>) -> Result<Direction, ParseErrorView> {
    if w == "left"@ {
        Ok(Direction::Left)
    } else if w == "right"@ {
        Ok(Direction::Right)
    } else if w == "up"@ {
        Ok(Direction::Up)
    } else if w == "down"@ {
        Ok(Direction::Down)
    } else {
        Err(bad("direction"@, w))
    }
}

/// `-n` where the magnitude is `i32::MIN` overflows, and is refused.
pub open spec fn negates_min(w: Seq<char>) -> bool {
    w.len() > 0 && w[0] == '-' && spec_parse_i32(w.drop_first()) == Some(i32::MIN)
}

pub open spec fn spec_parse_workspace(w: Seq<char>) -> Result<WorkspaceRef, ParseErrorView> {
    if w == "prev"@ || w == "previous"@ {
        Ok(WorkspaceRef::Previous)
    } else if w.len() > 0 && is_sign(w[0]) {
        match spec_parse_i32(w.drop_first()) {
            Some(m) => Ok(
                WorkspaceRef::Relative(
                    if w[0] == '-' {
                        (-m) as i32
                    } else {
                        m
                    },
                ),
            ),
            None => Err(bad("workspace"@, w)),
        }
    } else {
        match spec_parse_usize(w) {
            Some(i) => Ok(WorkspaceRef::Index(i)),
            None => Err(bad("workspace"@, w)),
        }
    }
}

pub open spec fn spec_parse_mode(w: Seq<char>) -> Result<WorkspaceMode, ParseErrorView> {
    if w == "tiling"@ || w == "tiled"@ {
        Ok(WorkspaceMode::Tiling)
    } else if w == "floating"@ {
        Ok(WorkspaceMode::Floating)
    } else {
        Err(bad("mode"@, w))
    }
}

pub open spec fn spec_parse_zone(w: Seq<char>) -> Result<SnapZone, ParseErrorView> {
    if w == "left"@ {
        Ok(SnapZone::LeftHalf)
    } else if w == "right"@ {
        Ok(SnapZone::RightHalf)
    } else if w == "top-left"@ {
        Ok(SnapZone::TopLeft)
    } else if w == "top-right"@ {
        Ok(SnapZone::TopRight)
    } else if w == "bottom-left"@ {
        Ok(SnapZone::BottomLeft)
    } else if w == "bottom-right"@ {
        Ok(SnapZone::BottomRight)
    } else if w == "maximize"@ || w == "top"@ {
        Ok(SnapZone::Maximize)
    } else {
        Err(bad("zone"@, w))
    }
}

fn parse_direction_word(w: &Vec<char>) -> (r: Result<Direction, ParseActionError>)
    ensures
        match (r, spec_parse_direction(w@)) {
            (Ok(a), Ok(b)) => a == b,
            (Err(a), Err(b)) => a@ == b,
            _ => false,
        },
{
    if word_is(w, "left") {
        Ok(Direction::Left)
    } else if word_is(w, "right") {
        Ok(Direction::Right)
    } else if word_is(w, "up") {
        Ok(Direction::Up)
    } else if word_is(w, "down") {
        Ok(Direction::Down)
    } else {
        Err(ParseActionError::BadArgument { what: "direction", got: string_from(w) })
    }
}

fn parse_workspace_word(w: &Vec<char>) -> (r: Result<WorkspaceRef, ParseActionError>)
    requires
        !negates_min(w@),
    ensures
        match (r, spec_parse_workspace(w@)) {
            (Ok(a), Ok(b)) => a == b,
            (Err(a), Err(b)) => a@ == b,
            _ => false,
        },
{
    if word_is(w, "prev") || word_is(w, "previous") {
        return Ok(WorkspaceRef::Previous);
    }
    if w.len() > 0 && (w[0] == '+' || w[0] == '-') {
        let mut rest: Vec<char> = Vec::new();
        let mut i: usize = 1;
        while i < w.len()
            invariant
                1 <= i <= w.len(),
                rest@ == w@.subrange(1, i as int),
            decreases w.len() - i,
        {
            rest.push(w[i]);
            i = i + 1;
            assert(rest@ =~= w@.subrange(1, i as int));
        }
        assert(rest@ =~= w@.drop_first());
        match parse_i32(&rest) {
            Some(m) => {
                if w[0] == '-' {
                    Ok(WorkspaceRef::Relative(-m))
                } else {
                    Ok(WorkspaceRef::Relative(m))
                }
            },
            None => Err(ParseActionError::BadArgument { what: "workspace", got: string_from(w) }),
        }
    } else {
        match parse_usize(w) {
            Some(i) => Ok(WorkspaceRef::Index(i)),
            None => Err(ParseActionError::BadArgument { what: "workspace", got: string_from(w) }),
        }
    }
}

fn parse_mode_word(w: &Vec<char>) -> (r: Result<WorkspaceMode, ParseActionError>)
    ensures
        match (r, spec_parse_mode(w@)) {
            (Ok(a), Ok(b)) => a == b,
            (Err(a), Err(b)) => a@ == b,
            _ => false,
        },
{
    if word_is(w, "tiling") || word_is(w, "tiled") {
        Ok(WorkspaceMode::Tiling)
    } else if word_is(w, "floating") {
        Ok(WorkspaceMode::Floating)
    } else {
        Err(ParseActionError::BadArgument { what: "mode", got: string_from(w) })
    }
}

fn parse_zone_word(w: &Vec<char>) -> (r: Result<SnapZone, ParseActionError>)
    ensures
        match (r, spec_parse_zone(w@)) {
            (Ok(a), Ok(b)) => a == b,
            (Err(a), Err(b)) => a@ == b,
            _ => false,
        },
{
    if word_is(w, "left") {
        Ok(SnapZone::LeftHalf)
    } else if word_is(w, "right") {
        Ok(SnapZone::RightHalf)
    } else if word_is(w, "top-left") {
        Ok(SnapZone::TopLeft)
    } else if word_is(w, "top-right") {
        Ok(SnapZone::TopRight)
    } else if word_is(w, "bottom-left") {
        Ok(SnapZone::BottomLeft)
    } else if word_is(w, "bottom-right") {
        Ok(SnapZone::BottomRight)
    } else if word_is(w, "maximize") || word_is(w, "top") {
        Ok(SnapZone::Maximize)
    } else {
        Err(ParseActionError::BadArgument { what: "zone", got: string_from(w) })
    }
}

/// Parses a direction word: `left`, `right`, `up` or `down`.
pub fn parse_direction(s: &str) -> (r: Result<Direction, ParseActionError>)
    ensures
        match (r, spec_parse_direction(s@)) {
            (Ok(a), Ok(b)) => a == b,
            (Err(a), Err(b)) => a@ == b,
            _ => false,
        },
{
    parse_direction_word(&chars_of(s))
}

/// Parses a workspace reference: `prev`/`previous`, a signed offset, or an
/// absolute index.
pub fn parse_workspace(s: &str) -> (r: Result<WorkspaceRef, ParseActionError>)
    requires
        !negates_min(s@),
    ensures
        match (r, spec_parse_workspace(s@)) {
            (Ok(a), Ok(b)) => a == b,
            (Err(a), Err(b)) => a@ == b,
            _ => false,
        },
{
    parse_workspace_word(&chars_of(s))
}

/// Parses the `set-mode` argument. The spellings are the config's own, in
/// kebab case.
pub fn parse_mode(s: &str) -> (r: Result<WorkspaceMode, ParseActionError>)
    ensures
        match (r, spec_parse_mode(s@)) {
            (Ok(a), Ok(b)) => a == b,
            (Err(a), Err(b)) => a@ == b,
            _ => false,
        },
{
    parse_mode_word(&chars_of(s))
}

/// Parses the `snap` argument.
pub fn parse_zone(s: &str) -> (r: Result<SnapZone, ParseActionError>)
    ensures
        match (r, spec_parse_zone(s@)) {
            (Ok(a), Ok(b)) => a == b,
            (Err(a), Err(b)) => a@ == b,
            _ => false,
        },
{
    parse_zone_word(&chars_of(s))
}

pub open spec fn missing(action: Seq<char>, what: Seq<char>) -> ParseErrorView {
    ParseErrorView::MissingArgument { action, what }
}

/// The direction named by the word after the action's name.
pub open spec fn direction_arg(name: Seq<char>, rest: Seq<Seq<char>>) -> Result<
    Direction,
    ParseErrorView,
> {
    if rest.len() == 0 {
        Err(missing(name, "direction"@))
    } else {
        spec_parse_direction(rest[0])
    }
}

/// The five actions that take a direction, by position.
pub open spec fn directed(which: int, d: Direction) -> ActionView {
    if which == 0 {
        ActionView::Focus(d)
    } else if which == 1 {
        ActionView::MoveWindow(d)
    } else if which == 2 {
        ActionView::FocusOutput(d)
    } else if which == 3 {
        ActionView::MoveWindowToOutput(d)
    } else {
        ActionView::MoveWorkspaceToOutput(d)
    }
}

/// The action a direction word completes, when it parses.
pub open spec fn with_direction(name: Seq<char>, rest: Seq<Seq<char>>, which: int) -> Result<
    ActionView,
    ParseErrorView,
> {
    match direction_arg(name, rest) {
        Ok(d) => Ok(directed(which, d)),
        Err(e) => Err(e),
    }
}

/// Whether any word after the target asks to follow the window.
pub open spec fn follows(rest: Seq<Seq<char>>) -> bool {
    exists|j: int| 1 <= j < rest.len() && rest[j] == "follow"@
}

/// The action `words` spells, first word the name and the rest its
/// arguments.
pub open spec fn spec_parse_words(t: Seq<Seq<char>>) -> Result<ActionView, ParseErrorView> {
    if t.len() == 0 {
        Err(ParseErrorView::Empty)
    } else {
        let name = t[0];
        let rest = t.drop_first();
        if name == "none"@ {
            Ok(ActionView::NoAction)
        } else if name == "quit"@ || name == "exit"@ {
            Ok(ActionView::Quit)
        } else if name == "reload-config"@ {
            Ok(ActionView::ReloadConfig)
        } else if name == "spawn"@ {
            if rest.len() == 0 {
                Err(missing(name, "program"@))
            } else {
                Ok(ActionView::Spawn(rest))
            }
        } else if name == "switch-vt"@ {
            if rest.len() == 0 {
                Err(missing(name, "vt"@))
            } else {
                match spec_parse_i32(rest[0]) {
                    Some(vt) => Ok(ActionView::SwitchVt(vt)),
                    None => Err(bad("vt"@, rest[0])),
                }
            }
        } else if name == "close-window"@ || name == "close"@ {
            Ok(ActionView::CloseWindow)
        } else if name == "focus"@ {
            with_direction(name, rest, 0)
        } else if name == "move"@ || name == "move-window"@ {
            with_direction(name, rest, 1)
        } else if name == "focus-output"@ {
            with_direction(name, rest, 2)
        } else if name == "move-to-output"@ {
            with_direction(name, rest, 3)
        } else if name == "move-workspace-to-output"@ {
            with_direction(name, rest, 4)
        } else if name == "workspace"@ {
            if rest.len() == 0 {
                Err(missing(name, "workspace"@))
            } else {
                match spec_parse_workspace(rest[0]) {
                    Ok(w) => Ok(ActionView::Workspace(w)),
                    Err(e) => Err(e),
                }
            }
        } else if name == "move-to-workspace"@ {
            if rest.len() == 0 {
                Err(missing(name, "workspace"@))
            } else {
                match spec_parse_workspace(rest[0]) {
                    Ok(w) => Ok(ActionView::MoveWindowToWorkspace { target: w, follow: follows(rest) }),
                    Err(e) => Err(e),
                }
            }
        } else if name == "toggle-float"@ || name == "toggle-floating"@ {
            Ok(ActionView::ToggleFloating)
        } else if name == "toggle-fullscreen"@ {
            Ok(ActionView::ToggleFullscreen)
        } else if name == "toggle-maximize"@ {
            Ok(ActionView::ToggleMaximize)
        } else if name == "toggle-mode"@ || name == "toggle-workspace-mode"@ {
            Ok(ActionView::ToggleWorkspaceMode)
        } else if name == "set-mode"@ {
            if rest.len() == 0 {
                Err(missing(name, "mode"@))
            } else {
                match spec_parse_mode(rest[0]) {
                    Ok(m) => Ok(ActionView::SetWorkspaceMode(m)),
                    Err(e) => Err(e),
                }
            }
        } else if name == "snap"@ {
            if rest.len() == 0 {
                Err(missing(name, "zone"@))
            } else {
                match spec_parse_zone(rest[0]) {
                    Ok(z) => Ok(ActionView::SnapWindow(z)),
                    Err(e) => Err(e),
                }
            }
        } else if name == "close-menu"@ {
            Ok(ActionView::CloseMenu)
        } else if name == "open-workspace-view"@ {
            Ok(ActionView::OpenWorkspaceView)
        } else if name == "close-workspace-view"@ {
            Ok(ActionView::CloseWorkspaceView)
        } else if name == "toggle-workspace-view"@ {
            Ok(ActionView::ToggleWorkspaceView)
        } else if name == "resize-split"@ {
            if rest.len() == 0 {
                Err(missing(name, "fraction"@))
            } else if is_float_literal(rest[0]) {
                Ok(ActionView::ResizeSplit(rest[0]))
            } else {
                Err(bad("fraction"@, rest[0]))
            }
        } else if name == "promote"@ || name == "demote"@ {
            Ok(ActionView::PromoteDemote)
        } else if name == "reset-size"@ {
            Ok(ActionView::ResetSize)
        } else {
            Err(ParseErrorView::UnknownAction(name))
        }
    }
}

/// What `s` parses to as an action.
pub open spec fn spec_parse_action(s: Seq<char>) -> Result<ActionView, ParseErrorView> {
    spec_parse_words(words(s))
}

/// The one input the parser refuses: a workspace target written as a
/// negated `i32::MIN`, whose negation overflows.
pub open spec fn action_overflows(s: Seq<char>) -> bool {
    let t = words(s);
    t.len() >= 2 && (t[0] == "workspace"@ || t[0] == "move-to-workspace"@) && negates_min(t[1])
}

/// The result relates to the spec's answer.
pub open spec fn parsed_as(
    r: Result<Action, ParseActionError>,
    expected: Result<ActionView, ParseErrorView>,
) -> bool {
    match (r, expected) {
        (Ok(a), Ok(b)) => a@ == b,
        (Err(a), Err(b)) => a@ == b,
        _ => false,
    }
}

fn missing_argument(name: &Vec<char>, what: &'static str) -> (e: ParseActionError)
    ensures
        e@ == missing(name@, what@),
{
    ParseActionError::MissingArgument { action: string_from(name), what }
}

fn strings_from(words: &Vec<Vec<char>>, from: usize) -> (v: Vec<String>)
    requires
        from <= words.len(),
    ensures
        strings_view(v@) == words_of(words@).skip(from as int),
{
    let mut v: Vec<String> = Vec::new();
    let mut i = from;
    while i < words.len()
        invariant
            from <= i <= words.len(),
            strings_view(v@) == words_of(words@).subrange(from as int, i as int),
        decreases words.len() - i,
    {
        let s = string_from(&words[i]);
        let ghost before = v@;
        v.push(s);
        i = i + 1;
        assert(strings_view(v@) =~= strings_view(before).push(words@[i - 1]@));
        assert(words_of(words@).subrange(from as int, i as int) =~= words_of(words@).subrange(
            from as int,
            i - 1,
        ).push(words@[i - 1]@));
    }
    assert(words_of(words@).subrange(from as int, words.len() as int) =~= words_of(words@).skip(
        from as int,
    ));
    v
}

fn direction_action(name: &Vec<char>, words: &Vec<Vec<char>>, which: u8) -> (r: Result<
    Action,
    ParseActionError,
>)
    requires
        words.len() >= 1,
        words@[0] == name,
        which < 5,
    ensures
        parsed_as(r, with_direction(name@, words_of(words@).drop_first(), which as int)),
{
    let ghost rest = words_of(words@).drop_first();
    if words.len() < 2 {
        return Err(missing_argument(name, "direction"));
    }
    assert(rest[0] == words@[1]@);
    match parse_direction_word(&words[1]) {
        Ok(d) => {
            let a = if which == 0 {
                Action::Focus(d)
            } else if which == 1 {
                Action::MoveWindow(d)
            } else if which == 2 {
                Action::FocusOutput(d)
            } else if which == 3 {
                Action::MoveWindowToOutput(d)
            } else {
                Action::MoveWorkspaceToOutput(d)
            };
            Ok(a)
        },
        Err(e) => Err(e),
    }
}

fn any_follow(words: &Vec<Vec<char>>) -> (b: bool)
    requires
        words.len() >= 2,
    ensures
        b == follows(words_of(words@).drop_first()),
{
    let ghost rest = words_of(words@).drop_first();
    let mut i: usize = 2;
    while i < words.len()
        invariant
            2 <= i <= words.len(),
            rest == words_of(words@).drop_first(),
            forall|j: int| 1 <= j < i - 1 ==> rest[j] != "follow"@,
        decreases words.len() - i,
    {
        if word_is(&words[i], "follow") {
            assert(rest[i - 1] == words@[i as int]@);
            return true;
        }
        assert(rest[i - 1] == words@[i as int]@);
        i = i + 1;
    }
    false
}

impl Action {
    /// Reads an action the way a config row or an IPC request writes it:
    /// its name, then whatever arguments that name takes, separated by
    /// whitespace.
    pub fn parse(s: &str) -> (r: Result<Action, ParseActionError>)
        requires
            !action_overflows(s@),
        ensures
            parsed_as(r, spec_parse_action(s@)),
    {
        let chars = chars_of(s);
        let ws = split_words(&chars);
        let ghost t = words_of(ws@);
        assert(t == words(s@));
        if ws.len() == 0 {
            return Err(ParseActionError::Empty);
        }
        let name = &ws[0];
        assert(t[0] == name@);
        let ghost rest = t.drop_first();
        let has_arg = ws.len() >= 2;
        if has_arg {
            assert(rest[0] == ws@[1]@);
        }
        if word_is(name, "none") {
            Ok(Action::NoAction)
        } else if word_is(name, "quit") || word_is(name, "exit") {
            Ok(Action::Quit)
        } else if word_is(name, "reload-config") {
            Ok(Action::ReloadConfig)
        } else if word_is(name, "spawn") {
            if !has_arg {
                Err(missing_argument(name, "program"))
            } else {
                Ok(Action::Spawn(strings_from(&ws, 1)))
            }
        } else if word_is(name, "switch-vt") {
            if !has_arg {
                Err(missing_argument(name, "vt"))
            } else {
                match parse_i32(&ws[1]) {
                    Some(vt) => Ok(Action::SwitchVt(vt)),
                    None => Err(
                        ParseActionError::BadArgument { what: "vt", got: string_from(&ws[1]) },
                    ),
                }
            }
        } else if word_is(name, "close-window") || word_is(name, "close") {
            Ok(Action::CloseWindow)
        } else if word_is(name, "focus") {
            direction_action(name, &ws, 0)
        } else if word_is(name, "move") || word_is(name, "move-window") {
            direction_action(name, &ws, 1)
        } else if word_is(name, "focus-output") {
            direction_action(name, &ws, 2)
        } else if word_is(name, "move-to-output") {
            direction_action(name, &ws, 3)
        } else if word_is(name, "move-workspace-to-output") {
            direction_action(name, &ws, 4)
        } else if word_is(name, "workspace") {
            if !has_arg {
                Err(missing_argument(name, "workspace"))
            } else {
                match parse_workspace_word(&ws[1]) {
                    Ok(w) => Ok(Action::Workspace(w)),
                    Err(e) => Err(e),
                }
            }
        } else if word_is(name, "move-to-workspace") {
            if !has_arg {
                Err(missing_argument(name, "workspace"))
            } else {
                match parse_workspace_word(&ws[1]) {
                    Ok(w) => Ok(Action::MoveWindowToWorkspace { target: w, follow: any_follow(&ws) }),
                    Err(e) => Err(e),
                }
            }
        } else if word_is(name, "toggle-float") || word_is(name, "toggle-floating") {
            Ok(Action::ToggleFloating)
        } else if word_is(name, "toggle-fullscreen") {
            Ok(Action::ToggleFullscreen)
        } else if word_is(name, "toggle-maximize") {
            Ok(Action::ToggleMaximize)
        } else if word_is(name, "toggle-mode") || word_is(name, "toggle-workspace-mode") {
            Ok(Action::ToggleWorkspaceMode)
        } else if word_is(name, "set-mode") {
            if !has_arg {
                Err(missing_argument(name, "mode"))
            } else {
                match parse_mode_word(&ws[1]) {
                    Ok(m) => Ok(Action::SetWorkspaceMode(m)),
                    Err(e) => Err(e),
                }
            }
        } else if word_is(name, "snap") {
            if !has_arg {
                Err(missing_argument(name, "zone"))
            } else {
                match parse_zone_word(&ws[1]) {
                    Ok(z) => Ok(Action::SnapWindow(z)),
                    Err(e) => Err(e),
                }
            }
        } else if word_is(name, "close-menu") {
            Ok(Action::CloseMenu)
        } else if word_is(name, "open-workspace-view") {
            Ok(Action::OpenWorkspaceView)
        } else if word_is(name, "close-workspace-view") {
            Ok(Action::CloseWorkspaceView)
        } else if word_is(name, "toggle-workspace-view") {
            Ok(Action::ToggleWorkspaceView)
        } else if word_is(name, "resize-split") {
            if !has_arg {
                Err(missing_argument(name, "fraction"))
            } else if parses_as_float(&ws[1]) {
                Ok(Action::ResizeSplit(string_from(&ws[1])))
            } else {
                Err(ParseActionError::BadArgument { what: "fraction", got: string_from(&ws[1]) })
            }
        } else if word_is(name, "promote") || word_is(name, "demote") {
            Ok(Action::PromoteDemote)
        } else if word_is(name, "reset-size") {
            Ok(Action::ResetSize)
        } else {
            Err(ParseActionError::UnknownAction(string_from(name)))
        }
    }
}

fn clone_strings(v: &Vec<String>) -> (r: Vec<String>)
    ensures
        strings_view(r@) == strings_view(v@),
{
    let mut r: Vec<String> = Vec::new();
    let mut i: usize = 0;
    while i < v.len()
        invariant
            i <= v.len(),
            strings_view(r@) == strings_view(v@.take(i as int)),
        decreases v.len() - i,
    {
        let ghost before = r@;
        let c = v[i].clone();
        assert(c@ == v@[i as int]@);
        r.push(c);
        i = i + 1;
        assert(strings_view(r@) =~= strings_view(v@.take(i as int))) by {
            assert(strings_view(r@) =~= strings_view(before).push(v@[i - 1]@));
            assert(v@.take(i as int) =~= v@.take(i - 1).push(v@[i - 1]));
            assert(strings_view(v@.take(i as int)) =~= strings_view(v@.take(i - 1)).push(v@[i - 1]@));
        }
    }
    assert(v@.take(v.len() as int) =~= v@);
    r
}

impl Action {
    /// An equal copy, as far as what the action does goes.
    pub fn duplicate(&self) -> (r: Action)
        ensures
            r@ == self@,
    {
        match self {
            Action::NoAction => Action::NoAction,
            Action::Quit => Action::Quit,
            Action::ReloadConfig => Action::ReloadConfig,
            Action::Spawn(argv) => Action::Spawn(clone_strings(argv)),
            Action::SwitchVt(vt) => Action::SwitchVt(*vt),
            Action::CloseWindow => Action::CloseWindow,
            Action::Focus(d) => Action::Focus(*d),
            Action::MoveWindow(d) => Action::MoveWindow(*d),
            Action::FocusOutput(d) => Action::FocusOutput(*d),
            Action::MoveWindowToOutput(d) => Action::MoveWindowToOutput(*d),
            Action::Workspace(w) => Action::Workspace(*w),
            Action::MoveWindowToWorkspace { target, follow } => Action::MoveWindowToWorkspace {
                target: *target,
                follow: *follow,
            },
            Action::MoveWorkspaceToOutput(d) => Action::MoveWorkspaceToOutput(*d),
            Action::ToggleFloating => Action::ToggleFloating,
            Action::ToggleFullscreen => Action::ToggleFullscreen,
            Action::ToggleMaximize => Action::ToggleMaximize,
            Action::ToggleWorkspaceMode => Action::ToggleWorkspaceMode,
            Action::SetWorkspaceMode(m) => Action::SetWorkspaceMode(*m),
            Action::SnapWindow(z) => Action::SnapWindow(*z),
            Action::CloseMenu => Action::CloseMenu,
            Action::OpenWorkspaceView => Action::OpenWorkspaceView,
            Action::CloseWorkspaceView => Action::CloseWorkspaceView,
            Action::ToggleWorkspaceView => Action::ToggleWorkspaceView,
            Action::ResizeSplit(f) => Action::ResizeSplit(f.clone()),
            Action::PromoteDemote => Action::PromoteDemote,
            Action::ResetSize => Action::ResetSize,
            Action::CycleLayout => Action::CycleLayout,
            Action::ToggleLayoutMode => Action::ToggleLayoutMode,
        }
    }

    /// Whether this is the action that binds nothing.
    pub fn is_none(&self) -> (b: bool)
        ensures
            b == (self@ is NoAction),
    {
        match self {
            Action::NoAction => true,
            _ => false,
        }
    }
}

/// The word that names a direction.
pub open spec fn direction_word(d: Direction) -> Seq<char> {
    match d {
        Direction::Left => "left"@,
        Direction::Right => "right"@,
        Direction::Up => "up"@,
        Direction::Down => "down"@,
    }
}

proof fn lemma_direction_word_parses(d: Direction)
    ensures
        spec_parse_direction(direction_word(d)) == Ok::<Direction, ParseErrorView>(d),
{
    reveal_strlit("left");
    reveal_strlit("right");
    reveal_strlit("up");
    reveal_strlit("down");
    assert("right"@ != "left"@) by {
        assert("right"@.len() != "left"@.len());
    }
    assert("up"@ != "left"@) by {
        assert("up"@.len() != "left"@.len());
    }
    assert("up"@ != "right"@) by {
        assert("up"@.len() != "right"@.len());
    }
    assert("down"@ != "left"@) by {
        assert("down"@[0] != "left"@[0]);
    }
    assert("down"@ != "right"@) by {
        assert("down"@.len() != "right"@.len());
    }
    assert("down"@ != "up"@) by {
        assert("down"@.len() != "up"@.len());
    }
}

proof fn lemma_directed_focus(t: Seq<Seq<char>>, d: Direction)
    requires
        t.len() >= 2,
        t[0] == "focus"@,
        t[1] == direction_word(d),
    ensures
        spec_parse_words(t) == Ok::<ActionView, ParseErrorView>(ActionView::Focus(d)),
{
    reveal_strlit("focus");
    reveal_strlit("none");
    assert(t[0] != "none"@) by {
        assert(t[0].len() != "none"@.len());
    }
    reveal_strlit("quit");
    assert(t[0] != "quit"@) by {
        assert(t[0].len() != "quit"@.len());
    }
    reveal_strlit("exit");
    assert(t[0] != "exit"@) by {
        assert(t[0].len() != "exit"@.len());
    }
    reveal_strlit("reload-config");
    assert(t[0] != "reload-config"@) by {
        assert(t[0].len() != "reload-config"@.len());
    }
    reveal_strlit("spawn");
    assert(t[0] != "spawn"@) by {
        assert(t[0][0] != "spawn"@[0]);
    }
    reveal_strlit("switch-vt");
    assert(t[0] != "switch-vt"@) by {
        assert(t[0].len() != "switch-vt"@.len());
    }
    reveal_strlit("close-window");
    assert(t[0] != "close-window"@) by {
        assert(t[0].len() != "close-window"@.len());
    }
    reveal_strlit("close");
    assert(t[0] != "close"@) by {
        assert(t[0][0] != "close"@[0]);
    }
    lemma_direction_word_parses(d);
    assert(t.drop_first()[0] == t[1]);
}

proof fn lemma_directed_move(t: Seq<Seq<char>>, d: Direction)
    requires
        t.len() >= 2,
        t[0] == "move"@,
        t[1] == direction_word(d),
    ensures
        spec_parse_words(t) == Ok::<ActionView, ParseErrorView>(ActionView::MoveWindow(d)),
{
    reveal_strlit("move");
    reveal_strlit("none");
    assert(t[0] != "none"@) by {
        assert(t[0][0] != "none"@[0]);
    }
    reveal_strlit("quit");
    assert(t[0] != "quit"@) by {
        assert(t[0][0] != "quit"@[0]);
    }
    reveal_strlit("exit");
    assert(t[0] != "exit"@) by {
        assert(t[0][0] != "exit"@[0]);
    }
    reveal_strlit("reload-config");
    assert(t[0] != "reload-config"@) by {
        assert(t[0].len() != "reload-config"@.len());
    }
    reveal_strlit("spawn");
    assert(t[0] != "spawn"@) by {
        assert(t[0].len() != "spawn"@.len());
    }
    reveal_strlit("switch-vt");
    assert(t[0] != "switch-vt"@) by {
        assert(t[0].len() != "switch-vt"@.len());
    }
    reveal_strlit("close-window");
    assert(t[0] != "close-window"@) by {
        assert(t[0].len() != "close-window"@.len());
    }
    reveal_strlit("close");
    assert(t[0] != "close"@) by {
        assert(t[0].len() != "close"@.len());
    }
    reveal_strlit("focus");
    assert(t[0] != "focus"@) by {
        assert(t[0].len() != "focus"@.len());
    }
    lemma_direction_word_parses(d);
    assert(t.drop_first()[0] == t[1]);
}

proof fn lemma_directed_move_window(t: Seq<Seq<char>>, d: Direction)
    requires
        t.len() >= 2,
        t[0] == "move-window"@,
        t[1] == direction_word(d),
    ensures
        spec_parse_words(t) == Ok::<ActionView, ParseErrorView>(ActionView::MoveWindow(d)),
{
    reveal_strlit("move-window");
    reveal_strlit("none");
    assert(t[0] != "none"@) by {
        assert(t[0].len() != "none"@.len());
    }
    reveal_strlit("quit");
    assert(t[0] != "quit"@) by {
        assert(t[0].len() != "quit"@.len());
    }
    reveal_strlit("exit");
    assert(t[0] != "exit"@) by {
        assert(t[0].len() != "exit"@.len());
    }
    reveal_strlit("reload-config");
    assert(t[0] != "reload-config"@) by {
        assert(t[0].len() != "reload-config"@.len());
    }
    reveal_strlit("spawn");
    assert(t[0] != "spawn"@) by {
        assert(t[0].len() != "spawn"@.len());
    }
    reveal_strlit("switch-vt");
    assert(t[0] != "switch-vt"@) by {
        assert(t[0].len() != "switch-vt"@.len());
    }
    reveal_strlit("close-window");
    assert(t[0] != "close-window"@) by {
        assert(t[0].len() != "close-window"@.len());
    }
    reveal_strlit("close");
    assert(t[0] != "close"@) by {
        assert(t[0].len() != "close"@.len());
    }
    reveal_strlit("focus");
    assert(t[0] != "focus"@) by {
        assert(t[0].len() != "focus"@.len());
    }
    reveal_strlit("move");
    assert(t[0] != "move"@) by {
        assert(t[0].len() != "move"@.len());
    }
    lemma_direction_word_parses(d);
    assert(t.drop_first()[0] == t[1]);
}

proof fn lemma_directed_focus_output(t: Seq<Seq<char>>, d: Direction)
    requires
        t.len() >= 2,
        t[0] == "focus-output"@,
        t[1] == direction_word(d),
    ensures
        spec_parse_words(t) == Ok::<ActionView, ParseErrorView>(ActionView::FocusOutput(d)),
{
    reveal_strlit("focus-output");
    reveal_strlit("none");
    assert(t[0] != "none"@) by {
        assert(t[0].len() != "none"@.len());
    }
    reveal_strlit("quit");
    assert(t[0] != "quit"@) by {
        assert(t[0].len() != "quit"@.len());
    }
    reveal_strlit("exit");
    assert(t[0] != "exit"@) by {
        assert(t[0].len() != "exit"@.len());
    }
    reveal_strlit("reload-config");
    assert(t[0] != "reload-config"@) by {
        assert(t[0].len() != "reload-config"@.len());
    }
    reveal_strlit("spawn");
    assert(t[0] != "spawn"@) by {
        assert(t[0].len() != "spawn"@.len());
    }
    reveal_strlit("switch-vt");
    assert(t[0] != "switch-vt"@) by {
        assert(t[0].len() != "switch-vt"@.len());
    }
    reveal_strlit("close-window");
    assert(t[0] != "close-window"@) by {
        assert(t[0][0] != "close-window"@[0]);
    }
    reveal_strlit("close");
    assert(t[0] != "close"@) by {
        assert(t[0].len() != "close"@.len());
    }
    reveal_strlit("focus");
    assert(t[0] != "focus"@) by {
        assert(t[0].len() != "focus"@.len());
    }
    reveal_strlit("move");
    assert(t[0] != "move"@) by {
        assert(t[0].len() != "move"@.len());
    }
    reveal_strlit("move-window");
    assert(t[0] != "move-window"@) by {
        assert(t[0].len() != "move-window"@.len());
    }
    lemma_direction_word_parses(d);
    assert(t.drop_first()[0] == t[1]);
}

proof fn lemma_directed_move_to_output(t: Seq<Seq<char>>, d: Direction)
    requires
        t.len() >= 2,
        t[0] == "move-to-output"@,
        t[1] == direction_word(d),
    ensures
        spec_parse_words(t) == Ok::<ActionView, ParseErrorView>(ActionView::MoveWindowToOutput(d)),
{
    reveal_strlit("move-to-output");
    reveal_strlit("none");
    assert(t[0] != "none"@) by {
        assert(t[0].len() != "none"@.len());
    }
    reveal_strlit("quit");
    assert(t[0] != "quit"@) by {
        assert(t[0].len() != "quit"@.len());
    }
    reveal_strlit("exit");
    assert(t[0] != "exit"@) by {
        assert(t[0].len() != "exit"@.len());
    }
    reveal_strlit("reload-config");
    assert(t[0] != "reload-config"@) by {
        assert(t[0].len() != "reload-config"@.len());
    }
    reveal_strlit("spawn");
    assert(t[0] != "spawn"@) by {
        assert(t[0].len() != "spawn"@.len());
    }
    reveal_strlit("switch-vt");
    assert(t[0] != "switch-vt"@) by {
        assert(t[0].len() != "switch-vt"@.len());
    }
    reveal_strlit("close-window");
    assert(t[0] != "close-window"@) by {
        assert(t[0].len() != "close-window"@.len());
    }
    reveal_strlit("close");
    assert(t[0] != "close"@) by {
        assert(t[0].len() != "close"@.len());
    }
    reveal_strlit("focus");
    assert(t[0] != "focus"@) by {
        assert(t[0].len() != "focus"@.len());
    }
    reveal_strlit("move");
    assert(t[0] != "move"@) by {
        assert(t[0].len() != "move"@.len());
    }
    reveal_strlit("move-window");
    assert(t[0] != "move-window"@) by {
        assert(t[0].len() != "move-window"@.len());
    }
    reveal_strlit("focus-output");
    assert(t[0] != "focus-output"@) by {
        assert(t[0].len() != "focus-output"@.len());
    }
    lemma_direction_word_parses(d);
    assert(t.drop_first()[0] == t[1]);
}

proof fn lemma_directed_move_workspace_to_output(t: Seq<Seq<char>>, d: Direction)
    requires
        t.len() >= 2,
        t[0] == "move-workspace-to-output"@,
        t[1] == direction_word(d),
    ensures
        spec_parse_words(t) == Ok::<ActionView, ParseErrorView>(ActionView::MoveWorkspaceToOutput(d)),
{
    reveal_strlit("move-workspace-to-output");
    reveal_strlit("none");
    assert(t[0] != "none"@) by {
        assert(t[0].len() != "none"@.len());
    }
    reveal_strlit("quit");
    assert(t[0] != "quit"@) by {
        assert(t[0].len() != "quit"@.len());
    }
    reveal_strlit("exit");
    assert(t[0] != "exit"@) by {
        assert(t[0].len() != "exit"@.len());
    }
    reveal_strlit("reload-config");
    assert(t[0] != "reload-config"@) by {
        assert(t[0].len() != "reload-config"@.len());
    }
    reveal_strlit("spawn");
    assert(t[0] != "spawn"@) by {
        assert(t[0].len() != "spawn"@.len());
    }
    reveal_strlit("switch-vt");
    assert(t[0] != "switch-vt"@) by {
        assert(t[0].len() != "switch-vt"@.len());
    }
    reveal_strlit("close-window");
    assert(t[0] != "close-window"@) by {
        assert(t[0].len() != "close-window"@.len());
    }
    reveal_strlit("close");
    assert(t[0] != "close"@) by {
        assert(t[0].len() != "close"@.len());
    }
    reveal_strlit("focus");
    assert(t[0] != "focus"@) by {
        assert(t[0].len() != "focus"@.len());
    }
    reveal_strlit("move");
    assert(t[0] != "move"@) by {
        assert(t[0].len() != "move"@.len());
    }
    reveal_strlit("move-window");
    assert(t[0] != "move-window"@) by {
        assert(t[0].len() != "move-window"@.len());
    }
    reveal_strlit("focus-output");
    assert(t[0] != "focus-output"@) by {
        assert(t[0].len() != "focus-output"@.len());
    }
    reveal_strlit("move-to-output");
    assert(t[0] != "move-to-output"@) by {
        assert(t[0].len() != "move-to-output"@.len());
    }
    lemma_direction_word_parses(d);
    assert(t.drop_first()[0] == t[1]);
}

/// An action that takes a direction goes the way its direction word says,
/// and each name keeps its own meaning: `focus d` moves focus, `move d` and
/// `move-window d` move the window, `focus-output d` and `move-to-output d`
/// reach the next output, and `move-workspace-to-output d` carries the
/// workspace — all towards `d`. Words after the direction change nothing.
pub proof fn lemma_directions_go_where_they_say(s: Seq<char>, d: Direction)
    requires
        words(s).len() >= 2,
        words(s)[1] == direction_word(d),
    ensures
        words(s)[0] == "focus"@ ==> spec_parse_action(s) == Ok::<ActionView, ParseErrorView>(
            ActionView::Focus(d),
        ),
        words(s)[0] == "move"@ || words(s)[0] == "move-window"@ ==> spec_parse_action(s) == Ok::<
            ActionView,
            ParseErrorView,
        >(ActionView::MoveWindow(d)),
        words(s)[0] == "focus-output"@ ==> spec_parse_action(s) == Ok::<ActionView, ParseErrorView>(
            ActionView::FocusOutput(d),
        ),
        words(s)[0] == "move-to-output"@ ==> spec_parse_action(s) == Ok::<
            ActionView,
            ParseErrorView,
        >(ActionView::MoveWindowToOutput(d)),
        words(s)[0] == "move-workspace-to-output"@ ==> spec_parse_action(s) == Ok::<
            ActionView,
            ParseErrorView,
        >(ActionView::MoveWorkspaceToOutput(d)),
{
    let t = words(s);
    if t[0] == "focus"@ {
        lemma_directed_focus(t, d);
    }
    if t[0] == "move"@ {
        lemma_directed_move(t, d);
    }
    if t[0] == "move-window"@ {
        lemma_directed_move_window(t, d);
    }
    if t[0] == "focus-output"@ {
        lemma_directed_focus_output(t, d);
    }
    if t[0] == "move-to-output"@ {
        lemma_directed_move_to_output(t, d);
    }
    if t[0] == "move-workspace-to-output"@ {
        lemma_directed_move_workspace_to_output(t, d);
    }
}

/// Only the whitespace-separated words of an action matter: the words written
/// back out with single spaces parse to the same action or the same error, and
/// a string with no words at all is `Empty`.
pub proof fn lemma_only_words_matter(s: Seq<char>)
    ensures
        spec_parse_action(join_words(words(s))) == spec_parse_action(s),
        words(s).len() == 0 ==> spec_parse_action(s) == Err::<ActionView, ParseErrorView>(
            ParseErrorView::Empty,
        ),
{
    lemma_rejoined_words(s);
}

} // verus!
