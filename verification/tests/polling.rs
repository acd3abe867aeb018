use bazaar_watch::catalog::{CatalogEntry, OrderBookSnapshot};
use bazaar_watch::polling::{Event, LoopState, Notice, Phase, PollingLoop, Reaction, Request};
use bazaar_watch::price::{PriceExtrema, ProductSnapshot, EMPTY_LOW};
use bazaar_watch::window::Sample;

fn market(products: &[(&str, &[u64], &[u64])]) -> Event {
    Event::Snapshot(OrderBookSnapshot {
        products: products
            .iter()
            .map(|(id, sell, buy)| CatalogEntry {
                product_id: id.to_string(),
                snapshot: ProductSnapshot {
                    sell_summary: sell.to_vec(),
                    buy_summary: buy.to_vec(),
                },
            })
            .collect(),
    })
}

fn line(text: &str) -> Event {
    Event::Line(text.to_string())
}

fn reaction(notice: Notice, request: Request) -> Reaction {
    Reaction { notice, request }
}

/// A loop that follows WHEAT and awaits a tick, after `ticks` recorded ticks.
fn active_loop(ticks: u64) -> PollingLoop {
    let mut polling = PollingLoop::new();
    polling.step(line("wheat\n"));
    polling.step(market(&[("WHEAT", &[10, 5], &[20, 8])]));
    for i in 0..ticks {
        polling.step(Event::Tick);
        polling.step(market(&[("WHEAT", &[100 + i], &[50 + i])]));
    }
    polling
}

#[test]
fn new_loop_awaits_input() {
    let polling = PollingLoop::new();
    assert_eq!(polling.phase(), Phase::AwaitingInput);
    assert_eq!(polling.state(), LoopState::Resolving);
    assert_eq!(polling.pending(), Request::Prompt);
    assert_eq!(polling.product_id(), "");
    assert_eq!(polling.stage(), 0);
    assert_eq!(polling.window().capacity(), 200);
    assert!(polling.window().is_empty());
    assert!(polling.can_step());
    assert_eq!(PollingLoop::with_capacity(7).window().capacity(), 7);
}

#[test]
fn a_line_starts_the_search_at_stage_zero() {
    let mut polling = PollingLoop::new();
    let answer = polling.step(line("Enchanted Book\n"));
    assert_eq!(answer, reaction(Notice::Silent, Request::Fetch));
    assert_eq!(polling.phase(), Phase::Probing);
    assert_eq!(polling.state(), LoopState::Resolving);
    assert_eq!(polling.product_id(), "ENCHANTED_BOOK");
    assert_eq!(polling.stage(), 0);
}

#[test]
fn rejections_walk_the_stages_and_exhaust_after_the_eighth() {
    let expected = [
        "ENCHANTED_BOOK",
        "ENCHANTED_BOOK_ITEM",
        "ENCHANTMENT_ULTIMATE_ENCHANTED_BOOK",
        "ENCHANTMENT_ENCHANTED_BOOK",
        "ENCHANTED_BOOK_SCROLL",
        "ENCHANTED_BOOK_GEM",
        "ENCHANTED_BOOK_ORE",
        "DUNGEON_ENCHANTED_BOOK",
    ];
    let mut polling = PollingLoop::new();
    polling.step(line("Enchanted Book"));
    for stage in 0..7 {
        assert_eq!(polling.product_id(), expected[stage]);
        assert_eq!(polling.stage() as usize, stage);
        let answer = polling.step(market(&[("WHEAT", &[1], &[1])]));
        assert_eq!(answer, reaction(Notice::Rejected, Request::Fetch));
        assert_eq!(polling.phase(), Phase::Probing);
        assert!(polling.window().is_empty());
    }
    assert_eq!(polling.product_id(), expected[7]);
    let answer = polling.step(market(&[("WHEAT", &[1], &[1])]));
    assert_eq!(answer, reaction(Notice::Exhausted, Request::Prompt));
    assert_eq!(polling.phase(), Phase::AwaitingInput);
    assert_eq!(polling.state(), LoopState::Resolving);

    let answer = polling.step(line("wheat"));
    assert_eq!(answer, reaction(Notice::Silent, Request::Fetch));
    assert_eq!(polling.product_id(), "WHEAT");
    assert_eq!(polling.stage(), 0);
}

#[test]
fn a_candidate_of_a_later_stage_is_accepted() {
    let mut polling = PollingLoop::new();
    polling.step(line("enchanted book"));
    polling.step(market(&[("ENCHANTED_BOOK_ITEM", &[10, 5], &[20, 8])]));
    assert_eq!(polling.product_id(), "ENCHANTED_BOOK_ITEM");
    let answer = polling.step(market(&[("ENCHANTED_BOOK_ITEM", &[10, 5], &[20, 8])]));
    let extrema = PriceExtrema { min_buy: 8, max_buy: 20, min_sell: 5, max_sell: 10 };
    assert_eq!(answer, reaction(Notice::Quote(extrema), Request::AwaitTick));
    assert_eq!(polling.phase(), Phase::Accepted);
    assert_eq!(polling.state(), LoopState::Active);
    assert_eq!(polling.stage(), 1);
    assert_eq!(
        polling.window().samples(),
        &vec![Sample { timestamp: 0, buy_price: 8, sell_price: 10 }]
    );
    assert_eq!(polling.window().time_bounds(), (0, 1));
}

#[test]
fn a_failed_fetch_while_probing_retries_the_same_candidate() {
    let mut polling = PollingLoop::new();
    polling.step(line("wheat"));
    polling.step(market(&[]));
    assert_eq!(polling.stage(), 1);
    let answer = polling.step(Event::FetchFailed);
    assert_eq!(answer, reaction(Notice::FetchFailed, Request::Fetch));
    assert_eq!(polling.phase(), Phase::Probing);
    assert_eq!(polling.stage(), 1);
    assert_eq!(polling.product_id(), "WHEAT_ITEM");
}

#[test]
fn the_first_tick_starts_the_history_afresh() {
    let mut polling = active_loop(0);
    assert_eq!(polling.window().len(), 1);
    let answer = polling.step(Event::Tick);
    assert_eq!(answer, reaction(Notice::Silent, Request::Fetch));
    assert_eq!(polling.phase(), Phase::Fetching);
    assert!(polling.window().is_empty());
    assert_eq!(polling.window().time_bounds(), (0, 0));
    assert_eq!(polling.product_id(), "WHEAT");
}

#[test]
fn each_tick_records_lowest_buy_and_highest_sell() {
    let mut polling = active_loop(0);
    polling.step(Event::Tick);
    let answer = polling.step(market(&[("OTHER", &[1], &[1]), ("WHEAT", &[30, 70, 40], &[9, 6])]));
    let extrema = PriceExtrema { min_buy: 6, max_buy: 9, min_sell: 30, max_sell: 70 };
    assert_eq!(answer, reaction(Notice::Quote(extrema), Request::AwaitTick));
    assert_eq!(polling.phase(), Phase::Waiting);
    polling.step(Event::Tick);
    assert_eq!(polling.window().len(), 1);
    polling.step(market(&[("WHEAT", &[], &[])]));
    assert_eq!(
        polling.window().samples(),
        &vec![
            Sample { timestamp: 0, buy_price: 6, sell_price: 70 },
            Sample { timestamp: 1, buy_price: EMPTY_LOW, sell_price: 0 },
        ]
    );
    assert_eq!(polling.window().time_bounds(), (0, 2));
}

#[test]
fn the_active_window_slides_at_capacity() {
    let mut polling = PollingLoop::with_capacity(3);
    polling.step(line("wheat"));
    polling.step(market(&[("WHEAT", &[1], &[1])]));
    for i in 0..5u64 {
        assert_eq!(polling.step(Event::Tick).request, Request::Fetch);
        polling.step(market(&[("WHEAT", &[100 + i], &[50 + i])]));
    }
    assert_eq!(polling.window().len(), 3);
    assert_eq!(polling.window().time_bounds(), (2, 5));
    assert_eq!(polling.window().buy_series(), vec![(2, 52), (3, 53), (4, 54)]);
    assert_eq!(polling.window().sell_series(), vec![(2, 102), (3, 103), (4, 104)]);
}

#[test]
fn a_failed_fetch_leaves_the_window_unchanged() {
    let mut polling = active_loop(3);
    let before = polling.window().samples().clone();
    let bounds = polling.window().time_bounds();
    assert_eq!(before.len(), 3);
    polling.step(Event::Tick);
    let answer = polling.step(Event::FetchFailed);
    assert_eq!(answer, reaction(Notice::FetchFailed, Request::AwaitTick));
    assert_eq!(polling.phase(), Phase::Waiting);
    assert_eq!(polling.state(), LoopState::Active);
    assert_eq!(polling.window().samples(), &before);
    assert_eq!(polling.window().len(), 3);
    assert_eq!(polling.window().time_min(), bounds.0);
    assert_eq!(polling.window().time_bounds(), bounds);

    polling.step(Event::Tick);
    polling.step(market(&[("WHEAT", &[7], &[3])]));
    assert_eq!(polling.window().len(), 4);
    assert_eq!(polling.window().samples()[3], Sample { timestamp: 3, buy_price: 3, sell_price: 7 });
}

#[test]
fn a_product_gone_from_the_catalog_leaves_the_window_unchanged() {
    let mut polling = active_loop(2);
    let before = polling.window().samples().clone();
    polling.step(Event::Tick);
    let answer = polling.step(market(&[("WHEAT_ITEM", &[1], &[1])]));
    assert_eq!(answer, reaction(Notice::Absent, Request::AwaitTick));
    assert_eq!(polling.phase(), Phase::Waiting);
    assert_eq!(polling.window().samples(), &before);
    assert_eq!(polling.product_id(), "WHEAT");
}

#[test]
fn an_interrupt_while_waiting_terminates_and_restores_once() {
    let mut polling = active_loop(2);
    assert_eq!(polling.pending(), Request::AwaitTick);
    let before = polling.window().samples().clone();
    let answer = polling.step(Event::Interrupt);
    assert_eq!(answer, reaction(Notice::Silent, Request::Restore));
    assert_eq!(polling.phase(), Phase::Terminated);
    assert_eq!(polling.state(), LoopState::Terminated);
    assert_eq!(polling.window().samples(), &before);

    let later = [
        polling.step(Event::Tick),
        polling.step(Event::Interrupt),
        polling.step(market(&[("WHEAT", &[1], &[1])])),
        polling.step(Event::FetchFailed),
        polling.step(line("wheat")),
    ];
    for answer in later {
        assert_eq!(answer, reaction(Notice::Silent, Request::Halt));
    }
    assert_eq!(polling.phase(), Phase::Terminated);
    assert_eq!(polling.pending(), Request::Halt);
    assert_eq!(polling.window().samples(), &before);
}

#[test]
fn an_interrupt_right_after_acceptance_terminates() {
    let mut polling = active_loop(0);
    assert_eq!(polling.phase(), Phase::Accepted);
    let answer = polling.step(Event::Interrupt);
    assert_eq!(answer, reaction(Notice::Silent, Request::Restore));
    assert_eq!(polling.state(), LoopState::Terminated);
}

#[test]
fn an_interrupt_during_a_fetch_discards_the_answer() {
    let mut polling = active_loop(1);
    polling.step(Event::Tick);
    assert_eq!(polling.phase(), Phase::Fetching);
    let answer = polling.step(Event::Interrupt);
    assert_eq!(answer, reaction(Notice::Silent, Request::Restore));
    assert_eq!(polling.state(), LoopState::Terminated);
    let answer = polling.step(market(&[("WHEAT", &[1], &[1])]));
    assert_eq!(answer, reaction(Notice::Silent, Request::Halt));
    assert_eq!(polling.window().len(), 1);
}

#[test]
fn a_resolving_loop_is_not_ended_by_an_interrupt() {
    let mut polling = PollingLoop::new();
    let answer = polling.step(Event::Interrupt);
    assert_eq!(answer, reaction(Notice::Silent, Request::Prompt));
    assert_eq!(polling.phase(), Phase::AwaitingInput);
    polling.step(line("wheat"));
    let answer = polling.step(Event::Interrupt);
    assert_eq!(answer, reaction(Notice::Silent, Request::Fetch));
    assert_eq!(polling.phase(), Phase::Probing);
    assert_eq!(polling.stage(), 0);
}

#[test]
fn events_out_of_turn_change_nothing() {
    let mut polling = PollingLoop::new();
    assert_eq!(polling.step(Event::Tick), reaction(Notice::Silent, Request::Prompt));
    assert_eq!(polling.step(Event::FetchFailed), reaction(Notice::Silent, Request::Prompt));
    assert_eq!(polling.step(market(&[])), reaction(Notice::Silent, Request::Prompt));
    assert_eq!(polling.phase(), Phase::AwaitingInput);

    polling.step(line("wheat"));
    assert_eq!(polling.step(Event::Tick), reaction(Notice::Silent, Request::Fetch));
    assert_eq!(polling.step(line("carrot")), reaction(Notice::Silent, Request::Fetch));
    assert_eq!(polling.product_id(), "WHEAT");

    let mut polling = active_loop(1);
    assert_eq!(polling.step(line("carrot")), reaction(Notice::Silent, Request::AwaitTick));
    assert_eq!(polling.step(Event::FetchFailed), reaction(Notice::Silent, Request::AwaitTick));
    assert_eq!(polling.step(market(&[])), reaction(Notice::Silent, Request::AwaitTick));
    assert_eq!(polling.phase(), Phase::Waiting);
    assert_eq!(polling.window().len(), 1);

    polling.step(Event::Tick);
    assert_eq!(polling.step(Event::Tick), reaction(Notice::Silent, Request::Fetch));
    assert_eq!(polling.step(line("carrot")), reaction(Notice::Silent, Request::Fetch));
    assert_eq!(polling.phase(), Phase::Fetching);
    assert_eq!(polling.product_id(), "WHEAT");
}
