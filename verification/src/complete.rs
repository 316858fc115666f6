//! Matching of command-tree actions for argument completion.
//!
//! The surrounding application obtains the available action matches from its
//! command tree and hands them over as plain text; this module decides, for
//! a line being edited, which action the line addresses and which argument
//! slice of it is being completed.

use vstd::prelude::*;
use vstd::string::StrSliceExecFns;
use crate::text::{str_eq, str_starts_with, word_break_start, word_start};

verus! {

/// Match string and qualified name of one action of the command tree.
pub struct ActionMatch {
    /// The match string, space delimited from the current path, with a
    /// trailing space.
    pub completestr: String,
    /// Qualified action name from the root, as the command tree renders it.
    pub qualified_path: String,
    /// The help message of the action.
    pub help_msg: String,
}

/// Mathematical image of an [`ActionMatch`].
pub ghost struct ActionMatchV {
    pub completestr: Seq<char>,
    pub qualified_path: Seq<char>,
    pub help_msg: Seq<char>,
}

impl View for ActionMatch {
    type V = ActionMatchV;

    open spec fn view(&self) -> ActionMatchV {
        ActionMatchV {
            completestr: self.completestr@,
            qualified_path: self.qualified_path@,
            help_msg: self.help_msg@,
        }
    }
}

/// The argument scoped inputs for completing.
///
/// The information here is scoped to the argument slice of a line, ie
/// if the line was `some action arg1 arg2` then the `line` would be
/// "arg1 arg2", the `word` would be "arg2" (and if say it was partial it
/// would only return the partial part), and the `word_start` would be 5.
#[derive(Debug, PartialEq)]
pub struct ArgComplete {
    /// The complete line, scoped to argument section.
    pub line: String,
    /// The final word, broken on spaces.
    pub word: String,
    /// The start index inside `line` of `word`.
    pub word_start: usize,
    /// The help message of the command action.
    pub help_msg: String,
}

/// Whether `m`'s match string is a prefix of the line.
pub open spec fn line_matches(m: ActionMatchV, line: Seq<char>) -> bool {
    m.completestr.len() <= line.len() && line.subrange(0, m.completestr.len() as int)
        == m.completestr
}

/// The argument slice of `line` behind `m`'s match string.
pub open spec fn arg_slice(m: ActionMatchV, line: Seq<char>) -> Seq<char> {
    line.subrange(m.completestr.len() as int, line.len() as int)
}

/// Whether `path` occurs among the valid qualified paths.
pub open spec fn path_valid(valid: Seq<&str>, path: Seq<char>) -> bool {
    exists|k: int| 0 <= k < valid.len() && valid[k]@ == path
}

/// Matching of command tree actions.
pub struct ActionArgComplete {
    /// All actions available in current state.
    pub items: Vec<ActionMatch>,
}

impl ActionArgComplete {
    /// Determine if the current line matches any available actions. Checks
    /// that the qualified path is within `valid`. Returns the argument scope
    /// completion inputs, such as line, word.
    ///
    /// Only the first action whose match string prefixes the line is
    /// considered; the result carries the argument slice of the line, its
    /// last word, where that word starts, and the action's help message.
    pub fn find(&self, line: &str, valid: &Vec<&str>) -> (r: Option<ArgComplete>)
        ensures
            (match r {
                Option::Some(a) => exists|i: int|
                    0 <= i < self.items@.len() && line_matches(#[trigger] self.items@[i]@, line@)
                        && (forall|j: int|
                        0 <= j < i ==> !line_matches(#[trigger] self.items@[j]@, line@))
                        && path_valid(valid@, self.items@[i]@.qualified_path) && ({
                        let rest = arg_slice(self.items@[i]@, line@);
                        let ws = word_start(rest, seq![' ']);
                        a.line@ == rest && a.word_start == ws && a.word@ == rest.subrange(
                            ws,
                            rest.len() as int,
                        ) && a.help_msg@ == self.items@[i]@.help_msg
                    }),
                Option::None => (forall|i: int|
                    0 <= i < self.items@.len() ==> !line_matches(
                        #[trigger] self.items@[i]@,
                        line@,
                    )) || (exists|i: int|
                    0 <= i < self.items@.len() && line_matches(#[trigger] self.items@[i]@, line@)
                        && (forall|j: int|
                        0 <= j < i ==> !line_matches(#[trigger] self.items@[j]@, line@))
                        && !path_valid(valid@, self.items@[i]@.qualified_path)),
            }),
    {
        let mut i: usize = 0;
        while i < self.items.len()
            invariant
                i <= self.items@.len(),
                forall|j: int| 0 <= j < i ==> !line_matches(#[trigger] self.items@[j]@, line@),
            decreases self.items@.len() - i,
        {
            let x = &self.items[i];
            if str_starts_with(line, x.completestr.as_str()) {
                assert(line_matches(self.items@[i as int]@, line@));
                if Self::contains_path(valid, x.qualified_path.as_str()) {
                    let line_len = line.unicode_len();
                    let cs_len = x.completestr.as_str().unicode_len();
                    let rest = line.substring_char(cs_len, line_len);
                    let rest_len = rest.unicode_len();
                    let seps = vec![' '];
                    let ws = word_break_start(rest, &seps);
                    let word = rest.substring_char(ws, rest_len);
                    proof {
                        assert(rest@ == arg_slice(self.items@[i as int]@, line@));
                        assert(seps@ =~= seq![' ']);
                    }
                    return Option::Some(
                        ArgComplete {
                            line: rest.to_owned(),
                            word: word.to_owned(),
                            word_start: ws,
                            help_msg: x.help_msg.clone(),
                        },
                    );
                } else {
                    return Option::None;
                }
            }
            i += 1;
        }
        Option::None
    }

    /// Whether `path` occurs among `valid`.
    fn contains_path(valid: &Vec<&str>, path: &str) -> (r: bool)
        ensures
            r == path_valid(valid@, path@),
    {
        let mut k: usize = 0;
        while k < valid.len()
            invariant
                k <= valid@.len(),
                forall|j: int| 0 <= j < k ==> valid@[j]@ != path@,
            decreases valid@.len() - k,
        {
            if str_eq(valid[k], path) {
                assert(valid@[k as int]@ == path@);
                return true;
            }
            k += 1;
        }
        false
    }
}

} // verus!
