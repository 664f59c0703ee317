//! The view-transition state machine: one input event on one screen yields
//! exactly one outcome — stay (possibly with a report or a command-runner
//! request), move to another screen, or quit. Every input on every screen
//! is covered; nothing is left unhandled.

use vstd::prelude::*;

use crate::context::{ListContext, ScreenContext};
use crate::input::InputEvent;
use crate::page::Page;

verus! {

/// What a `Stay` outcome carries: nothing, a report of input that had no
/// meaning on the current screen, or a request to the external command
/// runner. Requests never change the screen; the caller performs them and
/// displays their result.
#[derive(Clone, Copy, PartialEq, Eq, Structural, Debug)]
pub enum Notice {
    /// Nothing to report.
    Nothing,
    /// The character is not a meaningful command on the current screen.
    InvalidOption(char),
    /// A number arrived where only command characters are meaningful.
    InvalidNumber(usize),
    /// A numeric selection that does not name a visible item.
    InvalidSelection(usize),
    /// Ask the command runner to play the item and await the result.
    PlayRequest(usize),
    /// Ask the command runner to download the item and await the result.
    DownloadRequest(usize),
    /// Ask the command runner to play the item detached, fire-and-forget.
    DetachRequest(usize),
}

/// The result of one routing decision. Produced fresh per input event and
/// never stored.
#[derive(Clone, Copy, PartialEq, Eq, Structural, Debug)]
pub enum Outcome {
    /// Remain on the current screen.
    Stay(Notice),
    /// Leave the current screen for the one named.
    Transition(ScreenContext),
    /// End the application.
    Quit,
}

/// What a command character does on a list screen (quitting is handled
/// before this): `n` and `p` page the window, `c` from the mixed feed
/// enters the channel that the pending numeric selection names, and
/// anything else is reported back as invalid.
pub open spec fn decide_list_command(
    lc: ListContext,
    page: Page,
    entries: Seq<Option<usize>>,
    c: char,
    selection: Option<usize>,
) -> (Page, Outcome) {
    if c == 'n' {
        (page.next_state(), Outcome::Stay(Notice::Nothing))
    } else if c == 'p' {
        (page.prev_state(), Outcome::Stay(Notice::Nothing))
    } else if c == 'c' && lc is MixedFeed {
        match selection {
            Some(k) => {
                if page.spec_visible(k as int) && k < entries.len() && entries[k as int] is Some {
                    (page, Outcome::Transition(ScreenContext::FeedChannel(entries[k as int]->0)))
                } else {
                    (page, Outcome::Stay(Notice::InvalidSelection(k)))
                }
            },
            None => (page, Outcome::Stay(Notice::InvalidOption(c))),
        }
    } else {
        (page, Outcome::Stay(Notice::InvalidOption(c)))
    }
}

/// What a numeric selection does on a list screen: a visible index that the
/// list really has opens the player for that item, carrying the list screen
/// as the back target; anything else is an invalid selection. On an empty
/// list every selection is invalid.
pub open spec fn decide_list_number(
    lc: ListContext,
    page: Page,
    entries: Seq<Option<usize>>,
    n: usize,
) -> Outcome {
    if page.spec_visible(n as int) && n < entries.len() {
        Outcome::Transition(ScreenContext::PlayerView(n, lc))
    } else {
        Outcome::Stay(Notice::InvalidSelection(n))
    }
}

/// What a command character does on the player screen (quitting is handled
/// before this): `b` returns to the stored back target, `i` opens the
/// information screen for the same item with the same back target, and
/// `p`/`s`/`d` are local actions — requests to the command runner that
/// never change the screen.
pub open spec fn decide_player_command(item: usize, back: ListContext, c: char) -> Outcome {
    if c == 'b' {
        Outcome::Transition(back.spec_to_screen())
    } else if c == 'i' {
        Outcome::Transition(ScreenContext::InformationView(item, back))
    } else if c == 'p' {
        Outcome::Stay(Notice::PlayRequest(item))
    } else if c == 's' {
        Outcome::Stay(Notice::DownloadRequest(item))
    } else if c == 'd' {
        Outcome::Stay(Notice::DetachRequest(item))
    } else {
        Outcome::Stay(Notice::InvalidOption(c))
    }
}

/// What a command character does on the information screen (quitting is
/// handled before this): `b` returns to the stored back target — the list
/// screen, not the player that led here — and anything else is invalid.
pub open spec fn decide_information_command(item: usize, back: ListContext, c: char) -> Outcome {
    if c == 'b' {
        Outcome::Transition(back.spec_to_screen())
    } else {
        Outcome::Stay(Notice::InvalidOption(c))
    }
}

/// The full decision table: the new window state paired with the outcome of
/// one input event on one screen. `q` quits from every screen; only `n` and
/// `p` on a list screen move the window; every other input leaves it alone.
pub open spec fn decide_spec(
    ctx: ScreenContext,
    page: Page,
    entries: Seq<Option<usize>>,
    input: InputEvent,
    selection: Option<usize>,
) -> (Page, Outcome) {
    match input {
        InputEvent::Command(c) => {
            if c == 'q' {
                (page, Outcome::Quit)
            } else {
                match ctx {
                    ScreenContext::MixedFeed => decide_list_command(
                        ListContext::MixedFeed,
                        page,
                        entries,
                        c,
                        selection,
                    ),
                    ScreenContext::FeedChannel(channel) => decide_list_command(
                        ListContext::FeedChannel(channel),
                        page,
                        entries,
                        c,
                        selection,
                    ),
                    ScreenContext::PlayerView(item, back) => (
                        page,
                        decide_player_command(item, back, c),
                    ),
                    ScreenContext::InformationView(item, back) => (
                        page,
                        decide_information_command(item, back, c),
                    ),
                }
            }
        },
        InputEvent::Number(n) => {
            match ctx {
                ScreenContext::MixedFeed => (
                    page,
                    decide_list_number(ListContext::MixedFeed, page, entries, n),
                ),
                ScreenContext::FeedChannel(channel) => (
                    page,
                    decide_list_number(ListContext::FeedChannel(channel), page, entries, n),
                ),
                ScreenContext::PlayerView(_, _) => (page, Outcome::Stay(Notice::InvalidNumber(n))),
                ScreenContext::InformationView(_, _) => (
                    page,
                    Outcome::Stay(Notice::InvalidNumber(n)),
                ),
            }
        },
    }
}

/// Law: selecting a visible item `k` on a list screen opens the player for
/// `k` with that screen stored as the back target, and `b` on that player
/// returns exactly the originating screen — the window untouched
/// throughout, with no state drift.
pub proof fn lemma_select_then_back(
    lc: ListContext,
    page: Page,
    entries: Seq<Option<usize>>,
    k: usize,
    sel1: Option<usize>,
    sel2: Option<usize>,
)
    requires
        page.wf(),
        entries.len() == page.count_total,
        page.spec_visible(k as int),
        k < entries.len(),
    ensures
        ({
            let r1 = decide_spec(lc.spec_to_screen(), page, entries, InputEvent::Number(k), sel1);
            let r2 = decide_spec(
                ScreenContext::PlayerView(k, lc),
                r1.0,
                entries,
                InputEvent::Command('b'),
                sel2,
            );
            &&& r1.1 == Outcome::Transition(ScreenContext::PlayerView(k, lc))
            &&& r1.0 == page
            &&& r2.1 == Outcome::Transition(lc.spec_to_screen())
            &&& r2.0 == page
        }),
{
}

/// Law: from a player opened from list screen `lc`, `i` opens the
/// information view for the same item with the same back target, and `b`
/// on the information view returns directly to `lc` — skipping the player,
/// because the information view stores the pre-player screen, never the
/// player itself.
pub proof fn lemma_information_back_skips_player(
    lc: ListContext,
    page: Page,
    entries: Seq<Option<usize>>,
    k: usize,
    sel1: Option<usize>,
    sel2: Option<usize>,
)
    requires
        page.wf(),
        entries.len() == page.count_total,
    ensures
        ({
            let r1 = decide_spec(
                ScreenContext::PlayerView(k, lc),
                page,
                entries,
                InputEvent::Command('i'),
                sel1,
            );
            let r2 = decide_spec(
                ScreenContext::InformationView(k, lc),
                r1.0,
                entries,
                InputEvent::Command('b'),
                sel2,
            );
            &&& r1.1 == Outcome::Transition(ScreenContext::InformationView(k, lc))
            &&& r1.0 == page
            &&& r2.1 == Outcome::Transition(lc.spec_to_screen())
            &&& r2.0 == page
        }),
{
}

/// Law: `q` quits from every screen, whatever the window, the entries and
/// the pending selection, and changes nothing else.
pub proof fn lemma_quit_everywhere(
    ctx: ScreenContext,
    page: Page,
    entries: Seq<Option<usize>>,
    selection: Option<usize>,
)
    ensures
        decide_spec(ctx, page, entries, InputEvent::Command('q'), selection) == (
            page,
            Outcome::Quit,
        ),
{
}

/// Routes one input event on a list screen's command characters.
fn route_list_command(
    lc: ListContext,
    page: &mut Page,
    entries: &Vec<Option<usize>>,
    c: char,
    selection: Option<usize>,
) -> (out: Outcome)
    requires
        old(page).wf(),
        entries@.len() == old(page).count_total,
        c != 'q',
    ensures
        (*final(page), out) == decide_list_command(lc, *old(page), entries@, c, selection),
        final(page).wf(),
{
    if c == 'n' {
        page.next_page();
        Outcome::Stay(Notice::Nothing)
    } else if c == 'p' {
        page.prev_page();
        Outcome::Stay(Notice::Nothing)
    } else if c == 'c' && matches!(lc, ListContext::MixedFeed) {
        match selection {
            Some(k) => {
                if page.item_is_at_index(k) && k < entries.len() {
                    match entries[k] {
                        Some(channel) => Outcome::Transition(ScreenContext::FeedChannel(channel)),
                        None => Outcome::Stay(Notice::InvalidSelection(k)),
                    }
                } else {
                    Outcome::Stay(Notice::InvalidSelection(k))
                }
            },
            None => Outcome::Stay(Notice::InvalidOption(c)),
        }
    } else {
        Outcome::Stay(Notice::InvalidOption(c))
    }
}

/// Routes one numeric selection on a list screen.
fn route_list_number(lc: ListContext, page: &Page, entries: &Vec<Option<usize>>, n: usize) -> (out:
    Outcome)
    requires
        page.wf(),
        entries@.len() == page.count_total,
    ensures
        out == decide_list_number(lc, *page, entries@, n),
{
    if page.item_is_at_index(n) && n < entries.len() {
        Outcome::Transition(ScreenContext::PlayerView(n, lc))
    } else {
        Outcome::Stay(Notice::InvalidSelection(n))
    }
}

/// Routes one command character on the player screen.
fn route_player_command(item: usize, back: ListContext, c: char) -> (out: Outcome)
    requires
        c != 'q',
    ensures
        out == decide_player_command(item, back, c),
{
    if c == 'b' {
        Outcome::Transition(back.to_screen())
    } else if c == 'i' {
        Outcome::Transition(ScreenContext::InformationView(item, back))
    } else if c == 'p' {
        Outcome::Stay(Notice::PlayRequest(item))
    } else if c == 's' {
        Outcome::Stay(Notice::DownloadRequest(item))
    } else if c == 'd' {
        Outcome::Stay(Notice::DetachRequest(item))
    } else {
        Outcome::Stay(Notice::InvalidOption(c))
    }
}

/// Routes one command character on the information screen.
fn route_information_command(item: usize, back: ListContext, c: char) -> (out: Outcome)
    requires
        c != 'q',
    ensures
        out == decide_information_command(item, back, c),
{
    if c == 'b' {
        Outcome::Transition(back.to_screen())
    } else {
        Outcome::Stay(Notice::InvalidOption(c))
    }
}

/// Decides what one input event does on the current screen. `page` is the
/// window of the active list; `entries` gives, for each absolute list
/// index, the channel that entry stands for, if it is a channel;
/// `selection` is the numeric selector the caller's input loop has
/// accumulated, consulted only by the enter-channel command. Performs no
/// I/O: command-runner work is handed back as a request inside `Stay`.
pub fn decide(
    ctx: &ScreenContext,
    page: &mut Page,
    entries: &Vec<Option<usize>>,
    input: InputEvent,
    selection: Option<usize>,
) -> (out: Outcome)
    requires
        old(page).wf(),
        entries@.len() == old(page).count_total,
    ensures
        (*final(page), out) == decide_spec(*ctx, *old(page), entries@, input, selection),
        final(page).wf(),
        final(page).count_per_page == old(page).count_per_page,
        final(page).count_total == old(page).count_total,
        input == InputEvent::Command('q') ==> out == Outcome::Quit && *final(page) == *old(page),
{
    match input {
        InputEvent::Command(c) => {
            if c == 'q' {
                return Outcome::Quit;
            }
            match ctx {
                ScreenContext::MixedFeed => route_list_command(
                    ListContext::MixedFeed,
                    page,
                    entries,
                    c,
                    selection,
                ),
                ScreenContext::FeedChannel(channel) => route_list_command(
                    ListContext::FeedChannel(*channel),
                    page,
                    entries,
                    c,
                    selection,
                ),
                ScreenContext::PlayerView(item, back) => route_player_command(*item, *back, c),
                ScreenContext::InformationView(item, back) => route_information_command(
                    *item,
                    *back,
                    c,
                ),
            }
        },
        InputEvent::Number(n) => {
            match ctx {
                ScreenContext::MixedFeed => route_list_number(
                    ListContext::MixedFeed,
                    page,
                    entries,
                    n,
                ),
                ScreenContext::FeedChannel(channel) => route_list_number(
                    ListContext::FeedChannel(*channel),
                    page,
                    entries,
                    n,
                ),
                ScreenContext::PlayerView(_, _) => Outcome::Stay(Notice::InvalidNumber(n)),
                ScreenContext::InformationView(_, _) => Outcome::Stay(Notice::InvalidNumber(n)),
            }
        },
    }
}

} // verus!
