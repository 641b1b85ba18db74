//! Autocomplete interaction support.
//!
//! When a user is typing a slash-command option marked as
//! `autocomplete = true`, Discord sends an `ApplicationCommandAutocomplete`
//! interaction.  Respond with an [`AutocompleteResponse`] containing up to
//! 25 choices.

use vstd::prelude::*;
use crate::models::interaction::AutocompleteChoice;

verus! {

/// The choices offered in answer to an autocomplete interaction.
#[derive(Debug, Clone)]
pub struct AutocompleteResponse {
    pub choices: Vec<AutocompleteChoice>,
}

impl AutocompleteResponse {
    /// An answer offering `choices`, in order.
    pub fn new(choices: Vec<AutocompleteChoice>) -> (r: Self)
        ensures
            r.choices == choices,
    {
        AutocompleteResponse { choices }
    }

    /// Offer one more choice, after the others.
    pub fn push(&mut self, choice: AutocompleteChoice)
        ensures
            final(self).choices@ == old(self).choices@.push(choice),
    {
        self.choices.push(choice);
    }
}

} // verus!
