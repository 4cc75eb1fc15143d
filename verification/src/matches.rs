//! What was given on a command line, once it was read: the values of the
//! arguments, and the sub-command with what was given to it.

use crate::api::views;
use vstd::prelude::*;

verus! {

/// The value that was given for one argument.
#[derive(Debug, Clone, PartialEq, Eq)]
pub struct ArgValue {
    pub id: String,
    pub value: String,
}

/// A sub-command that was given, with what was given to it.
#[derive(Debug, PartialEq, Eq)]
pub struct Subcommand {
    pub name: String,
    pub matches: Matches,
}

/// What was given to a command: the values of its arguments, and its
/// sub-command where one was given.
#[derive(Debug, PartialEq, Eq)]
pub struct Matches {
    pub values: Vec<ArgValue>,
    pub subcommand: Option<Box<Subcommand>>,
}

impl View for ArgValue {
    type V = (Seq<char>, Seq<char>);

    open spec fn view(&self) -> (Seq<char>, Seq<char>) {
        (self.id@, self.value@)
    }
}

/// What a value of [`Matches`] is in contracts: for each value the name of
/// its argument and the value, and the sub-command by its name with what
/// was given to it.
pub struct MatchesView {
    pub values: Seq<(Seq<char>, Seq<char>)>,
    pub subcommand: Option<(Seq<char>, Box<MatchesView>)>,
}

/// The view of `matches`.
pub open spec fn matches_view(matches: Matches) -> MatchesView
    decreases matches,
{
    MatchesView {
        values: views(matches.values@),
        subcommand: match matches.subcommand {
            Some(sub) => Some((sub.name@, Box::new(matches_view(sub.matches)))),
            None => None,
        },
    }
}

impl View for Matches {
    type V = MatchesView;

    open spec fn view(&self) -> MatchesView {
        matches_view(*self)
    }
}

/// The value of the first of `values` that belongs to the argument `id`.
pub open spec fn first_value(values: Seq<(Seq<char>, Seq<char>)>, id: Seq<char>) -> Option<
    Seq<char>,
>
    decreases values.len(),
{
    if values.len() == 0 {
        None
    } else if values[0].0 == id {
        Some(values[0].1)
    } else {
        first_value(values.drop_first(), id)
    }
}

/// Whether the entry at the place `at` is the first of `values` that
/// belongs to the argument `id`.
pub open spec fn is_first_of(values: Seq<(Seq<char>, Seq<char>)>, id: Seq<char>, at: int) -> bool {
    &&& 0 <= at < values.len()
    &&& values[at].0 == id
    &&& forall|j: int| 0 <= j < at ==> (#[trigger] values[j]).0 != id
}

/// The value of an argument is the value of the first entry that belongs
/// to it; an argument has no value where no entry belongs to it.
pub proof fn lemma_first_value(values: Seq<(Seq<char>, Seq<char>)>, id: Seq<char>)
    ensures
        match first_value(values, id) {
            Some(value) => exists|at: int| #[trigger]
                is_first_of(values, id, at) && values[at].1 == value,
            None => forall|at: int| 0 <= at < values.len() ==> (#[trigger] values[at]).0 != id,
        },
    decreases values.len(),
{
    if values.len() == 0 {
    } else if values[0].0 == id {
        assert(is_first_of(values, id, 0));
    } else {
        let rest = values.drop_first();
        lemma_first_value(rest, id);
        match first_value(rest, id) {
            Some(value) => {
                let at = choose|at: int| #[trigger]
                    is_first_of(rest, id, at) && rest[at].1 == value;
                assert forall|j: int| 0 <= j < at + 1 implies (#[trigger] values[j]).0 != id by {
                    if j > 0 {
                        assert(values[j] == rest[j - 1]);
                    }
                }
                assert(values[at + 1] == rest[at]);
                assert(is_first_of(values, id, at + 1));
            },
            None => {
                assert forall|at: int| 0 <= at < values.len() implies (#[trigger] values[at]).0
                    != id by {
                    if at > 0 {
                        assert(values[at] == rest[at - 1]);
                    }
                }
            },
        }
    }
}

impl MatchesView {
    /// The value that was given for the argument `id`, if any.
    pub open spec fn value_of(self, id: Seq<char>) -> Option<Seq<char>> {
        first_value(self.values, id)
    }

    /// The value that was given for the argument `id`, or the empty text.
    pub open spec fn text_of(self, id: Seq<char>) -> Seq<char> {
        match self.value_of(id) {
            Some(value) => value,
            None => Seq::empty(),
        }
    }

    /// The name of the sub-command that was given, if any.
    pub open spec fn subcommand_name(self) -> Option<Seq<char>> {
        match self.subcommand {
            Some(sub) => Some(sub.0),
            None => None,
        }
    }
}

impl Matches {
    /// What was given to a command without arguments and without a
    /// sub-command.
    pub fn new() -> (r: Matches)
        ensures
            r@ == (MatchesView { values: Seq::empty(), subcommand: None }),
    {
        let r = Matches { values: Vec::new(), subcommand: None };
        assert(r@.values =~= Seq::empty());
        r
    }

    /// The value that was given for the argument `id`, if any.
    pub fn get_one(&self, id: &str) -> (r: Option<&String>)
        ensures
            match r {
                Some(value) => self@.value_of(id@) == Some(value@),
                None => self@.value_of(id@) is None,
            },
    {
        let ghost values = self@.values;
        let mut i: usize = 0;
        assert(values.skip(0) =~= values);
        while i < self.values.len()
            invariant
                values == views(self.values@),
                i <= values.len(),
                first_value(values, id@) == first_value(values.skip(i as int), id@),
            decreases values.len() - i,
        {
            let ghost rest = values.skip(i as int);
            assert(rest[0] == self.values@[i as int]@);
            assert(rest.drop_first() =~= values.skip(i + 1));
            if *self.values[i].id.as_str() == *id {
                return Some(&self.values[i].value);
            }
            i += 1;
        }
        None
    }

    /// The sub-command that was given and what was given to it, if any.
    pub fn subcommand(&self) -> (r: Option<(&str, &Matches)>)
        ensures
            match r {
                Some((name, matches)) => self@.subcommand == Some((name@, Box::new(matches@))),
                None => self@.subcommand is None,
            },
    {
        match &self.subcommand {
            Some(sub) => Some((sub.name.as_str(), &sub.matches)),
            None => None,
        }
    }
}

} // verus!
