//! Config rows, turned into overrides on the default table.

use vstd::prelude::*;
use vstd::string::*;

use crate::input::shortcuts::action::{
    action_overflows, spec_message, spec_parse_action, Action, ActionView, ParseActionError,
    ParseErrorView,
};
use crate::input::shortcuts::chord::{spec_chord_of, Chord, Keybind};

verus! {

/// One `keybinds` row of the config: its shortcut, already read by the
/// config's own keybind parser (or the sentence that parser refused it with),
/// and its action as written.
#[derive(Debug, PartialEq)]
pub struct BindingRow {
    pub keys: Result<Keybind, String>,
    pub action: String,
}

/// One row that made it through parsing.
#[derive(Debug, PartialEq)]
pub struct Override {
    pub chord: Chord,
    pub action: Action,
}

#[derive(Debug, PartialEq)]
pub enum ParseBindingError {
    /// The shortcut half is wrong; the keybind parser's own sentence.
    Keys(String),
    /// The action half is wrong.
    Action(ParseActionError),
}

/// What a row reads as, or `None` when either half fails.
pub open spec fn spec_row_override(r: BindingRow) -> Option<(Chord, ActionView)> {
    match r.keys {
        Err(_) => None,
        Ok(k) => match spec_parse_action(r.action@) {
            Ok(a) => Some((spec_chord_of(k), a)),
            Err(_) => None,
        },
    }
}

/// Every row that parses, in file order.
pub open spec fn spec_overrides(rows: Seq<BindingRow>) -> Seq<(Chord, ActionView)>
    decreases rows.len(),
{
    if rows.len() == 0 {
        Seq::empty()
    } else {
        let before = spec_overrides(rows.drop_last());
        match spec_row_override(rows.last()) {
            Some(o) => before.push(o),
            None => before,
        }
    }
}

/// No row's action is the one spelling the parser refuses.
pub open spec fn rows_parseable(rows: Seq<BindingRow>) -> bool {
    forall|i: int| 0 <= i < rows.len() ==> !action_overflows(#[trigger] rows[i].action@)
}

impl ParseBindingError {
    /// What the error says, as a person reads it.
    pub fn message(&self) -> (m: String)
        ensures
            m@ == match self {
                ParseBindingError::Keys(k) => "invalid shortcut: "@ + k@,
                ParseBindingError::Action(a) => "invalid action: "@ + spec_message(a@),
            },
    {
        match self {
            ParseBindingError::Keys(k) => {
                let mut m = String::from_str("invalid shortcut: ");
                m.append(k.as_str());
                m
            },
            ParseBindingError::Action(a) => {
                let mut m = String::from_str("invalid action: ");
                let inner = a.message();
                m.append(inner.as_str());
                m
            },
        }
    }
}

impl Override {
    /// Reads one row: the shortcut first, then the action.
    pub fn try_from_row(row: &BindingRow) -> (r: Result<Override, ParseBindingError>)
        requires
            !action_overflows(row.action@),
        ensures
            match r {
                Ok(o) => spec_row_override(*row) == Some((o.chord, o.action@)),
                Err(ParseBindingError::Keys(k)) => row.keys == Err::<Keybind, String>(k),
                Err(ParseBindingError::Action(e)) => row.keys is Ok && spec_parse_action(
                    row.action@,
                ) == Err::<ActionView, ParseErrorView>(e@),
            },
    {
        let keybind = match &row.keys {
            Ok(k) => *k,
            Err(e) => {
                return Err(ParseBindingError::Keys(e.clone()));
            },
        };
        match Action::parse(row.action.as_str()) {
            Ok(action) => Ok(Override { chord: Chord::from_keybind(keybind), action }),
            Err(e) => Err(ParseBindingError::Action(e)),
        }
    }
}

/// Every row that parses, in file order.
///
/// A row that does not is dropped: one typo must not take the rest of the
/// file with it, and least of all the defaults it was laid over.
pub fn overrides(rows: &Vec<BindingRow>) -> (v: Vec<Override>)
    requires
        rows_parseable(rows@),
    ensures
        v@.map_values(|o: Override| (o.chord, o.action@)) == spec_overrides(rows@),
{
    let mut v: Vec<Override> = Vec::new();
    let mut i: usize = 0;
    while i < rows.len()
        invariant
            i <= rows.len(),
            rows_parseable(rows@),
            v@.map_values(|o: Override| (o.chord, o.action@)) == spec_overrides(rows@.take(i as int)),
        decreases rows.len() - i,
    {
        proof {
            assert(rows@.take(i + 1).drop_last() =~= rows@.take(i as int));
            assert(rows@.take(i + 1).last() == rows@[i as int]);
        }
        let ghost before = v@;
        match Override::try_from_row(&rows[i]) {
            Ok(o) => {
                v.push(o);
                assert(v@.map_values(|o: Override| (o.chord, o.action@)) =~= before.map_values(
                    |o: Override| (o.chord, o.action@),
                ).push(spec_row_override(rows@[i as int])->0));
            },
            Err(_) => {},
        }
        i = i + 1;
    }
    assert(rows@.take(rows.len() as int) =~= rows@);
    v
}

} // verus!
