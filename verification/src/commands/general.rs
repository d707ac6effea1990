//! The pages of the help.

use crate::text::str_eq;
use vstd::prelude::*;

verus! {

/// The pages of the help.
#[derive(Clone, Copy, PartialEq, Eq, Structural, Debug)]
pub enum HelpPage {
    Home,
    General,
    Fun,
    Security,
    Moderation,
    /// A category that the help does not know.
    Unknown,
}

/// The page of the category that goes by the name `category`.
pub open spec fn category_named(category: Seq<char>) -> HelpPage {
    if category == "help_cat_general"@ {
        HelpPage::General
    } else if category == "help_cat_fun"@ {
        HelpPage::Fun
    } else if category == "help_cat_security"@ {
        HelpPage::Security
    } else if category == "help_cat_moderation"@ {
        HelpPage::Moderation
    } else {
        HelpPage::Unknown
    }
}

/// The page that the component with the id `custom_id` asks for, given the
/// value that was selected where the component is the select menu; `None`
/// for a component that asks for no page.
pub open spec fn page_for(custom_id: Seq<char>, selected: Seq<char>) -> Option<HelpPage> {
    if custom_id == "help_home"@ {
        Some(HelpPage::Home)
    } else if custom_id == "help_category_select"@ {
        Some(category_named(selected))
    } else if custom_id == "help_cat_general"@ || custom_id == "help_cat_fun"@ || custom_id
        == "help_cat_security"@ || custom_id == "help_cat_moderation"@ {
        Some(category_named(custom_id))
    } else {
        None
    }
}

/// Finds the page of a category.
pub fn category_page(category: &str) -> (page: HelpPage)
    ensures
        page == category_named(category@),
{
    if str_eq(category, "help_cat_general") {
        HelpPage::General
    } else if str_eq(category, "help_cat_fun") {
        HelpPage::Fun
    } else if str_eq(category, "help_cat_security") {
        HelpPage::Security
    } else if str_eq(category, "help_cat_moderation") {
        HelpPage::Moderation
    } else {
        HelpPage::Unknown
    }
}

/// Finds the page that an interaction with the help asks for. `selected` is
/// the first of the selected values, empty where nothing was selected.
pub fn handle_help_interaction(custom_id: &str, selected: &str) -> (page: Option<HelpPage>)
    ensures
        page == page_for(custom_id@, selected@),
{
    if str_eq(custom_id, "help_home") {
        Some(HelpPage::Home)
    } else if str_eq(custom_id, "help_category_select") {
        Some(category_page(selected))
    } else if str_eq(custom_id, "help_cat_general") || str_eq(custom_id, "help_cat_fun") || str_eq(
        custom_id,
        "help_cat_security",
    ) || str_eq(custom_id, "help_cat_moderation") {
        Some(category_page(custom_id))
    } else {
        None
    }
}

} // verus!
