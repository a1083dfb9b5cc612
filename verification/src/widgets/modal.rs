//! The command palette: the typed command line, optional suggestions and a
//! selection index. Drawing the surrounding modal is left to the
//! surrounding binary.

use vstd::prelude::*;

verus! {

/// The command palette's state.
pub struct CommandPalette {
    pub input: String,
    pub suggestions: Vec<String>,
    pub selected: usize,
    pub focused: bool,
}

impl CommandPalette {
    /// A focused palette over the given input, with no suggestions.
    pub fn new(input: &str) -> (r: CommandPalette)
        ensures
            r.input@ == input@,
            r.suggestions@ == Seq::<String>::empty(),
            r.selected == 0,
            r.focused,
    {
        CommandPalette {
            input: input.to_owned(),
            suggestions: Vec::new(),
            selected: 0,
            focused: true,
        }
    }

    /// The same palette with these suggestions.
    pub fn suggestions(self, suggestions: Vec<String>) -> (r: CommandPalette)
        ensures
            r.input == self.input,
            r.suggestions@ == suggestions@,
            r.selected == self.selected,
            r.focused == self.focused,
    {
        CommandPalette { suggestions, ..self }
    }

    /// The same palette with the selection moved, clamped to the last
    /// suggestion.
    pub fn selected(self, selected: usize) -> (r: CommandPalette)
        ensures
            r.input == self.input,
            r.suggestions@ == self.suggestions@,
            r.selected as int == vstd::math::min(
                selected as int,
                vstd::math::max(self.suggestions@.len() as int - 1, 0),
            ),
            r.focused == self.focused,
    {
        let limit = if self.suggestions.len() >= 1 {
            self.suggestions.len() - 1
        } else {
            0
        };
        let selected = if selected < limit {
            selected
        } else {
            limit
        };
        CommandPalette { selected, ..self }
    }

    /// The same palette focused or not.
    pub fn focused(self, focused: bool) -> (r: CommandPalette)
        ensures
            r.input == self.input,
            r.suggestions@ == self.suggestions@,
            r.selected == self.selected,
            r.focused == focused,
    {
        CommandPalette { focused, ..self }
    }
}

} // verus!
