//! Screen identities. A `ScreenContext` says where the user is; detail
//! screens carry, by value, the list screen to return to on back-navigation.

use vstd::prelude::*;

verus! {

/// A screen that a detail view can be entered from and returned to. Detail
/// screens store one of these as their back target, so a back target can
/// never itself be a detail screen: the restriction lives in the type, not
/// in a runtime check.
#[derive(Clone, Copy, PartialEq, Eq, Structural, Debug)]
pub enum ListContext {
    /// The feed that mixes every channel's items.
    MixedFeed,
    /// One channel's own feed, identified by the channel's index.
    FeedChannel(usize),
}

/// Where the user currently is. Detail screens (`PlayerView`,
/// `InformationView`) carry the item they show and a copy of the list
/// screen that led to them.
#[derive(Clone, Copy, PartialEq, Eq, Structural, Debug)]
pub enum ScreenContext {
    /// The feed that mixes every channel's items.
    MixedFeed,
    /// One channel's own feed, identified by the channel's index.
    FeedChannel(usize),
    /// The player for one item, with the list screen to return to.
    PlayerView(usize, ListContext),
    /// The metadata screen for one item, with the list screen to return to.
    InformationView(usize, ListContext),
}

impl ListContext {
    /// The screen a list context stands for.
    pub open spec fn spec_to_screen(self) -> ScreenContext {
        match self {
            ListContext::MixedFeed => ScreenContext::MixedFeed,
            ListContext::FeedChannel(channel) => ScreenContext::FeedChannel(channel),
        }
    }

    /// Turns a back target into the screen it names.
    pub fn to_screen(self) -> (s: ScreenContext)
        ensures
            s == self.spec_to_screen(),
    {
        match self {
            ListContext::MixedFeed => ScreenContext::MixedFeed,
            ListContext::FeedChannel(channel) => ScreenContext::FeedChannel(channel),
        }
    }
}

} // verus!
