//! The command picker shown while the prompt starts with `/`: a prefix
//! filter over the available commands and a wrapping selection.

use vstd::prelude::*;
use crate::filenav::{lower_of, starts_with, to_lower};

verus! {

/// One command the picker can complete.
#[derive(Clone, Debug)]
pub struct CommandSuggestion {
    pub command: String,
    pub description: String,
    pub args: Vec<String>,
}

/// Which way to move the selection.
#[derive(Clone, Copy, Debug, PartialEq, Eq, Structural)]
pub enum NavDirection {
    Up,
    Down,
}

/// The command picker's state.
pub struct CommandNav {
    pub suggestions: Vec<CommandSuggestion>,
    pub filtered_suggestions: Vec<CommandSuggestion>,
    pub selected_index: usize,
    pub is_visible: bool,
    pub filter_text: String,
    /// The row the list widget highlights.
    pub list_selection: Option<usize>,
    pub max_lines: u16,
    pub view_offset: usize,
}

/// The suggestions whose command starts with the filter, ignoring case.
pub open spec fn prefix_hits(all: Seq<CommandSuggestion>, filter: Seq<char>) -> Seq<CommandSuggestion>
    decreases all.len(),
{
    if all.len() == 0 {
        Seq::empty()
    } else if starts_with(lower_of(all.last().command@), lower_of(filter)) {
        prefix_hits(all.drop_last(), filter).push(all.last())
    } else {
        prefix_hits(all.drop_last(), filter)
    }
}

/// What the picker lists for a filter: everything for an empty filter or a
/// lone `/`.
pub open spec fn listed_for(all: Seq<CommandSuggestion>, filter: Seq<char>) -> Seq<CommandSuggestion> {
    if filter.len() == 0 || filter == "/"@ { all } else { prefix_hits(all, filter) }
}

fn lower_starts_with(s: &str, lowered_prefix: &str) -> (r: bool)
    ensures
        r == starts_with(lower_of(s@), lowered_prefix@),
{
    let l = to_lower(s);
    let n = lowered_prefix.unicode_len();
    if n > l.unicode_len() {
        return false;
    }
    let mut i: usize = 0;
    while i < n
        invariant
            n == lowered_prefix@.len(),
            n <= l@.len(),
            l@ == lower_of(s@),
            i <= n,
            forall|j: int| 0 <= j < i ==> l@[j] == lowered_prefix@[j],
        decreases n - i,
    {
        if l.as_str().get_char(i) != lowered_prefix.get_char(i) {
            assert(l@.subrange(0, n as int)[i as int] != lowered_prefix@[i as int]);
            return false;
        }
        i += 1;
    }
    assert(l@.subrange(0, n as int) =~= lowered_prefix@);
    true
}

impl CommandNav {
    pub open spec fn wf(&self) -> bool {
        &&& self.max_lines == 8
    }

    pub open spec fn showing(&self) -> bool {
        self.is_visible && self.filtered_suggestions@.len() > 0
    }

    /// A picker over the given commands, hidden.
    pub fn new(commands: Vec<CommandSuggestion>) -> (r: CommandNav)
        ensures
            r.wf(),
            !r.is_visible,
            r.suggestions@ == commands@,
            r.filtered_suggestions@.len() == 0,
            r.selected_index == 0,
    {
        CommandNav {
            suggestions: commands,
            filtered_suggestions: Vec::new(),
            selected_index: 0,
            is_visible: false,
            filter_text: String::new(),
            list_selection: None,
            max_lines: 8,
            view_offset: 0,
        }
    }

    fn filter_commands(&self, filter: &str) -> (r: Vec<CommandSuggestion>)
        ensures
            r@.len() <= self.suggestions@.len(),
            forall|i: int| 0 <= i < r@.len() ==> (#[trigger] r@[i]).command@ == listed_for(self.suggestions@, filter@)[i].command@,
            r@.len() == listed_for(self.suggestions@, filter@).len(),
    {
        let all = &self.suggestions;
        let is_slash = filter.unicode_len() == 1 && filter.get_char(0) == '/';
        proof {
            reveal_strlit("/");
            if filter@.len() == 1 && filter@[0] == '/' {
                assert(filter@ =~= "/"@);
            }
            if filter@ == "/"@ {
                assert(filter@.len() == 1 && filter@[0] == '/');
            }
        }
        let mut r: Vec<CommandSuggestion> = Vec::new();
        if filter.unicode_len() == 0 || is_slash {
            let mut i: usize = 0;
            while i < all.len()
                invariant
                    i <= all@.len(),
                    r@.len() == i,
                    forall|j: int| 0 <= j < i ==> (#[trigger] r@[j]).command@ == all@[j].command@,
                decreases all@.len() - i,
            {
                let c = &all[i];
                r.push(CommandSuggestion { command: c.command.clone(), description: c.description.clone(), args: c.args.clone() });
                i += 1;
            }
            return r;
        }
        let lowered = to_lower(filter);
        let mut i: usize = 0;
        while i < all.len()
            invariant
                i <= all@.len(),
                lowered@ == lower_of(filter@),
                r@.len() == prefix_hits(all@.subrange(0, i as int), filter@).len(),
                r@.len() <= i,
                forall|j: int| 0 <= j < r@.len() ==> (#[trigger] r@[j]).command@ == prefix_hits(all@.subrange(0, i as int), filter@)[j].command@,
            decreases all@.len() - i,
        {
            proof {
                let pre = all@.subrange(0, i + 1);
                assert(pre.drop_last() =~= all@.subrange(0, i as int));
                assert(pre.last() == all@[i as int]);
            }
            let c = &all[i];
            if lower_starts_with(c.command.as_str(), lowered.as_str()) {
                r.push(CommandSuggestion { command: c.command.clone(), description: c.description.clone(), args: c.args.clone() });
            }
            i += 1;
        }
        proof {
            assert(all@.subrange(0, all@.len() as int) =~= all@);
        }
        r
    }

    /// Filters the commands by the prompt's text and shows them from the
    /// top, or hides the picker when nothing matches.
    pub fn show_suggestions(&mut self, current_text: &str)
        requires
            old(self).wf(),
        ensures
            final(self).wf(),
            final(self).suggestions == old(self).suggestions,
            final(self).filter_text@ == current_text@,
            final(self).filtered_suggestions@.len() == listed_for(old(self).suggestions@, current_text@).len(),
            forall|i: int| 0 <= i < final(self).filtered_suggestions@.len() ==>
                (#[trigger] final(self).filtered_suggestions@[i]).command@ == listed_for(old(self).suggestions@, current_text@)[i].command@,
            final(self).selected_index == 0,
            final(self).is_visible == (final(self).filtered_suggestions@.len() > 0),
    {
        self.filter_text = String::from_str(current_text);
        self.filtered_suggestions = self.filter_commands(current_text);
        self.selected_index = 0;
        self.view_offset = 0;
        if self.filtered_suggestions.len() > 0 {
            self.is_visible = true;
            self.list_selection = Some(0);
        } else {
            self.is_visible = false;
        }
    }

    pub fn hide_suggestions(&mut self)
        requires
            old(self).wf(),
        ensures
            final(self).wf(),
            !final(self).is_visible,
            final(self).filtered_suggestions@.len() == 0,
            final(self).filter_text@.len() == 0,
            final(self).selected_index == 0,
            final(self).suggestions == old(self).suggestions,
    {
        self.is_visible = false;
        self.filter_text = String::new();
        self.filtered_suggestions = Vec::new();
        self.selected_index = 0;
        self.view_offset = 0;
    }

    /// Moves the selection one row, wrapping at either end.
    pub fn navigate(&mut self, direction: NavDirection)
        requires
            old(self).wf(),
            old(self).selected_index < old(self).filtered_suggestions@.len() || old(self).filtered_suggestions@.len() == 0,
        ensures
            final(self).wf(),
            final(self).filtered_suggestions == old(self).filtered_suggestions,
            !old(self).showing() ==> final(self).selected_index == old(self).selected_index,
            old(self).showing() && direction == NavDirection::Up ==> final(self).selected_index == (if old(self).selected_index > 0 {
                old(self).selected_index - 1
            } else {
                old(self).filtered_suggestions@.len() - 1
            }),
            old(self).showing() && direction == NavDirection::Down ==> final(self).selected_index == (
                if old(self).selected_index + 1 < old(self).filtered_suggestions@.len() {
                    old(self).selected_index + 1
                } else {
                    0
                }),
            old(self).showing() ==> final(self).list_selection == Some(final(self).selected_index),
    {
        if !self.is_visible || self.filtered_suggestions.len() == 0 {
            return;
        }
        let len = self.filtered_suggestions.len();
        match direction {
            NavDirection::Up => {
                if self.selected_index > 0 {
                    self.selected_index -= 1;
                } else {
                    self.selected_index = len - 1;
                }
                if self.selected_index < self.view_offset {
                    self.view_offset = self.selected_index;
                }
            }
            NavDirection::Down => {
                if self.selected_index + 1 < len {
                    self.selected_index += 1;
                } else {
                    self.selected_index = 0;
                    self.view_offset = 0;
                }
                let max = self.max_lines as usize;
                if self.selected_index >= max && self.selected_index - max >= self.view_offset {
                    self.view_offset = self.selected_index + 1 - max;
                }
            }
        }
        self.list_selection = Some(self.selected_index);
    }

    /// The command to complete the prompt with.
    pub fn get_selected_completion(&self) -> (r: Option<String>)
        ensures
            !self.showing() ==> r is None,
            self.showing() && self.selected_index < self.filtered_suggestions@.len()
                ==> (r matches Some(c) && c@ == self.filtered_suggestions@[self.selected_index as int].command@),
    {
        if !self.is_visible || self.filtered_suggestions.len() == 0 {
            return None;
        }
        if self.selected_index < self.filtered_suggestions.len() {
            Some(self.filtered_suggestions[self.selected_index].command.clone())
        } else {
            None
        }
    }

    pub fn is_showing(&self) -> (r: bool)
        ensures
            r == self.showing(),
    {
        self.is_visible && self.filtered_suggestions.len() > 0
    }

    /// Rows the picker takes: none when hidden, else the list up to a page.
    pub fn height(&self) -> (r: u16)
        requires
            self.wf(),
        ensures
            !self.showing() ==> r == 0,
            self.showing() && self.filtered_suggestions@.len() < 8 ==> r as int == self.filtered_suggestions@.len(),
            self.showing() && self.filtered_suggestions@.len() >= 8 ==> r == 8,
    {
        if !self.is_showing() {
            return 0;
        }
        let len = self.filtered_suggestions.len();
        if len < self.max_lines as usize { len as u16 } else { self.max_lines }
    }

    /// Whether the selected command takes arguments.
    pub fn selected_has_args(&self) -> (r: bool)
        ensures
            !self.showing() ==> !r,
            self.showing() && self.selected_index < self.filtered_suggestions@.len()
                ==> r == (self.filtered_suggestions@[self.selected_index as int].args@.len() > 0),
    {
        if !self.is_showing() {
            return false;
        }
        if self.selected_index < self.filtered_suggestions.len() {
            self.filtered_suggestions[self.selected_index].args.len() > 0
        } else {
            false
        }
    }
}

} // verus!
