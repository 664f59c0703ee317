use yt_feeds::context::{ListContext, ScreenContext};
use yt_feeds::input::InputEvent;
use yt_feeds::page::Page;
use yt_feeds::router::{decide, Notice, Outcome};

fn plain_entries(n: usize) -> Vec<Option<usize>> {
    vec![None; n]
}

#[test]
fn round_trip_mixed_feed() {
    let mut page = Page::new(25, 3, 40);
    let entries = plain_entries(25);
    let out = decide(&ScreenContext::MixedFeed, &mut page, &entries, InputEvent::Number(3), None);
    assert_eq!(
        out,
        Outcome::Transition(ScreenContext::PlayerView(3, ListContext::MixedFeed))
    );
    let out = decide(
        &ScreenContext::PlayerView(3, ListContext::MixedFeed),
        &mut page,
        &entries,
        InputEvent::Command('b'),
        None,
    );
    assert_eq!(out, Outcome::Transition(ScreenContext::MixedFeed));
}

#[test]
fn round_trip_feed_channel() {
    let mut page = Page::new(25, 3, 40);
    let entries = plain_entries(25);
    let out = decide(
        &ScreenContext::FeedChannel(7),
        &mut page,
        &entries,
        InputEvent::Number(5),
        None,
    );
    assert_eq!(
        out,
        Outcome::Transition(ScreenContext::PlayerView(5, ListContext::FeedChannel(7)))
    );
    let out = decide(
        &ScreenContext::PlayerView(5, ListContext::FeedChannel(7)),
        &mut page,
        &entries,
        InputEvent::Command('b'),
        None,
    );
    assert_eq!(out, Outcome::Transition(ScreenContext::FeedChannel(7)));
}

#[test]
fn information_back_skips_player() {
    let mut page = Page::new(25, 3, 40);
    let entries = plain_entries(25);
    let out = decide(
        &ScreenContext::PlayerView(2, ListContext::FeedChannel(3)),
        &mut page,
        &entries,
        InputEvent::Command('i'),
        None,
    );
    assert_eq!(
        out,
        Outcome::Transition(ScreenContext::InformationView(2, ListContext::FeedChannel(3)))
    );
    let out = decide(
        &ScreenContext::InformationView(2, ListContext::FeedChannel(3)),
        &mut page,
        &entries,
        InputEvent::Command('b'),
        None,
    );
    // Directly back to the channel feed, not to the player.
    assert_eq!(out, Outcome::Transition(ScreenContext::FeedChannel(3)));
}

#[test]
fn unknown_command_reports_the_input() {
    let mut page = Page::new(25, 3, 40);
    let entries = plain_entries(25);
    let out = decide(&ScreenContext::MixedFeed, &mut page, &entries, InputEvent::Command('x'), None);
    assert_eq!(out, Outcome::Stay(Notice::InvalidOption('x')));
}

#[test]
fn quit_from_every_screen() {
    let contexts = [
        ScreenContext::MixedFeed,
        ScreenContext::FeedChannel(4),
        ScreenContext::PlayerView(1, ListContext::MixedFeed),
        ScreenContext::InformationView(1, ListContext::FeedChannel(2)),
    ];
    for ctx in contexts {
        let mut page = Page::new(25, 3, 40);
        let entries = plain_entries(25);
        let out = decide(&ctx, &mut page, &entries, InputEvent::Command('q'), None);
        assert_eq!(out, Outcome::Quit);
        assert_eq!(page.current_index, 0);
    }
}

#[test]
fn selection_outside_window_is_invalid() {
    let mut page = Page::new(25, 3, 40);
    let entries = plain_entries(25);
    // Window is [0, 9): 20 is not visible.
    let out = decide(&ScreenContext::MixedFeed, &mut page, &entries, InputEvent::Number(20), None);
    assert_eq!(out, Outcome::Stay(Notice::InvalidSelection(20)));
}

#[test]
fn selection_on_empty_list_is_invalid() {
    let mut page = Page::new(0, 1, 40);
    let entries = plain_entries(0);
    let out = decide(&ScreenContext::MixedFeed, &mut page, &entries, InputEvent::Number(0), None);
    assert_eq!(out, Outcome::Stay(Notice::InvalidSelection(0)));
}

#[test]
fn paging_commands_move_the_window() {
    let mut page = Page::new(25, 3, 40);
    let entries = plain_entries(25);
    let out = decide(&ScreenContext::FeedChannel(1), &mut page, &entries, InputEvent::Command('n'), None);
    assert_eq!(out, Outcome::Stay(Notice::Nothing));
    assert_eq!(page.current_index, 9);
    let out = decide(&ScreenContext::FeedChannel(1), &mut page, &entries, InputEvent::Command('p'), None);
    assert_eq!(out, Outcome::Stay(Notice::Nothing));
    assert_eq!(page.current_index, 0);
}

#[test]
fn enter_channel_from_mixed_feed() {
    let mut page = Page::new(5, 1, 40);
    let mut entries = plain_entries(5);
    entries[3] = Some(42);
    // A visible entry that is a channel: enter it.
    let out = decide(
        &ScreenContext::MixedFeed,
        &mut page,
        &entries,
        InputEvent::Command('c'),
        Some(3),
    );
    assert_eq!(out, Outcome::Transition(ScreenContext::FeedChannel(42)));
    // A visible entry that is not a channel: invalid selection.
    let out = decide(
        &ScreenContext::MixedFeed,
        &mut page,
        &entries,
        InputEvent::Command('c'),
        Some(2),
    );
    assert_eq!(out, Outcome::Stay(Notice::InvalidSelection(2)));
    // No pending selection: the command itself is reported.
    let out = decide(&ScreenContext::MixedFeed, &mut page, &entries, InputEvent::Command('c'), None);
    assert_eq!(out, Outcome::Stay(Notice::InvalidOption('c')));
    // Enter-channel means nothing on a channel's own feed.
    let out = decide(
        &ScreenContext::FeedChannel(1),
        &mut page,
        &entries,
        InputEvent::Command('c'),
        Some(3),
    );
    assert_eq!(out, Outcome::Stay(Notice::InvalidOption('c')));
}

#[test]
fn player_local_actions_stay() {
    let ctx = ScreenContext::PlayerView(6, ListContext::MixedFeed);
    let mut page = Page::new(25, 3, 40);
    let entries = plain_entries(25);
    let out = decide(&ctx, &mut page, &entries, InputEvent::Command('p'), None);
    assert_eq!(out, Outcome::Stay(Notice::PlayRequest(6)));
    let out = decide(&ctx, &mut page, &entries, InputEvent::Command('s'), None);
    assert_eq!(out, Outcome::Stay(Notice::DownloadRequest(6)));
    let out = decide(&ctx, &mut page, &entries, InputEvent::Command('d'), None);
    assert_eq!(out, Outcome::Stay(Notice::DetachRequest(6)));
    assert_eq!(page.current_index, 0);
}

#[test]
fn numbers_mean_nothing_on_detail_screens() {
    let mut page = Page::new(25, 3, 40);
    let entries = plain_entries(25);
    let out = decide(
        &ScreenContext::PlayerView(6, ListContext::MixedFeed),
        &mut page,
        &entries,
        InputEvent::Number(5),
        None,
    );
    assert_eq!(out, Outcome::Stay(Notice::InvalidNumber(5)));
    let out = decide(
        &ScreenContext::InformationView(6, ListContext::MixedFeed),
        &mut page,
        &entries,
        InputEvent::Number(8),
        None,
    );
    assert_eq!(out, Outcome::Stay(Notice::InvalidNumber(8)));
}

#[test]
fn information_rejects_unknown_commands() {
    let mut page = Page::new(25, 3, 40);
    let entries = plain_entries(25);
    let out = decide(
        &ScreenContext::InformationView(6, ListContext::MixedFeed),
        &mut page,
        &entries,
        InputEvent::Command('z'),
        None,
    );
    assert_eq!(out, Outcome::Stay(Notice::InvalidOption('z')));
}
