//! The state that the loops of the game share: the line of customers, the
//! player, the buttons on offer, and the two flags that every loop reads on
//! each tick.
//!
//! Each operation is one step on that state. Callers that run the loops in
//! parallel serialise the steps; what is proved here holds of every order
//! in which they do so.

use vstd::prelude::*;
use crate::config::{decimal, find_menu, items_view, Config, ConfigView};
use crate::customer::{Customer, CustomerView};
use crate::events::Event;
use crate::hoverable::{Hoverable, HoverableView};
use crate::player::{Player, PlayerView};

verus! {

/// How long the dispatcher waits for an event before it looks at the
/// flags again: a tenth of a second, in nanoseconds.
pub const RECEIVE_TIMEOUT_NANOS: u128 = 100_000_000;

/// How long the buttons rest between two refreshes: a second, in
/// nanoseconds.
pub const BUTTONS_REFRESH_NANOS: u128 = 1_000_000_000;

/// The shared state of a running game.
#[derive(Debug)]
pub struct Store {
    customers: Vec<Customer>,
    player: Player,
    buttons: Vec<Vec<Hoverable>>,
    running: bool,
    spawning_enabled: bool,
    max_line_size: usize,
}

/// The shared state as plain values.
pub struct SharedView {
    /// The line, its head first.
    pub customers: Seq<CustomerView>,
    pub player: PlayerView,
    /// The rows of buttons that the player can choose from.
    pub buttons: Seq<Seq<HoverableView>>,
    /// Whether the loops go on.
    pub running: bool,
    /// Whether new customers may arrive.
    pub spawning_enabled: bool,
    /// How many customers the line can hold.
    pub max_line_size: nat,
}

/// The rows of buttons for a player on `level`: a single row, which holds
/// the drinks of that level, and nothing where the settings hold no menu
/// for it.
pub open spec fn buttons_for(cfg: ConfigView, level: nat) -> Seq<Seq<HoverableView>> {
    seq![
        match find_menu(cfg.drinks, decimal(level)) {
            Some(items) => items,
            None => Seq::empty(),
        },
    ]
}

/// The customer who joins the line on arrival.
pub open spec fn newcomer() -> CustomerView {
    CustomerView { desired_drink: 0 }
}

impl SharedView {
    /// The line holds no more customers than it has room for.
    pub open spec fn line_fits(self) -> bool {
        self.customers.len() <= self.max_line_size
    }

    /// The state in which a game starts: an empty line, a new player, one
    /// empty row of buttons, both flags set.
    pub open spec fn initial(max_line_size: nat) -> SharedView {
        SharedView {
            customers: Seq::empty(),
            player: PlayerView { level: 0, customers_served: 0 },
            buttons: seq![Seq::empty()],
            running: true,
            spawning_enabled: true,
            max_line_size,
        }
    }

    /// Whether there is room for one more customer.
    pub open spec fn has_room(self) -> bool {
        self.customers.len() < self.max_line_size
    }

    /// The state after an arrival: with room, the newcomer stands at the
    /// end of the line; without, nothing has changed.
    pub open spec fn enqueued(self) -> SharedView {
        if self.has_room() {
            SharedView { customers: self.customers.push(newcomer()), ..self }
        } else {
            self
        }
    }

    /// The state after `count` arrivals in a row.
    pub open spec fn enqueued_times(self, count: nat) -> SharedView
        decreases count,
    {
        if count == 0 {
            self
        } else {
            self.enqueued_times((count - 1) as nat).enqueued()
        }
    }

    /// The state after an event has been handled.
    pub open spec fn dispatched(self, event: Event) -> SharedView {
        match event {
            Event::Quit => SharedView { running: false, ..self },
            Event::StopCustomerSpawning => SharedView { spawning_enabled: false, ..self },
            Event::SpawnCustomer => if self.has_room() {
                self.enqueued()
            } else {
                SharedView { running: false, ..self }
            },
        }
    }

    /// The state after a sequence of events has been handled, first to
    /// last.
    pub open spec fn dispatched_all(self, events: Seq<Event>) -> SharedView
        decreases events.len(),
    {
        if events.len() == 0 {
            self
        } else {
            self.dispatched_all(events.drop_last()).dispatched(events.last())
        }
    }
}

impl View for Store {
    type V = SharedView;

    closed spec fn view(&self) -> SharedView {
        SharedView {
            customers: Seq::new(self.customers@.len(), |i: int| self.customers@[i]@),
            player: self.player@,
            buttons: Seq::new(self.buttons@.len(), |r: int| items_view(self.buttons@[r]@)),
            running: self.running,
            spawning_enabled: self.spawning_enabled,
            max_line_size: self.max_line_size as nat,
        }
    }
}

impl Store {
    #[verifier::type_invariant]
    spec fn line_within_limit(self) -> bool {
        self.customers@.len() <= self.max_line_size
    }

    /// The state in which a game with these settings starts.
    pub fn new(cfg: &Config) -> (store: Store)
        ensures
            store@ == SharedView::initial(cfg@.max_line_size),
            store@.line_fits(),
    {
        let mut buttons: Vec<Vec<Hoverable>> = Vec::new();
        buttons.push(Vec::new());
        let store = Store {
            customers: Vec::new(),
            player: Player::new(),
            buttons,
            running: true,
            spawning_enabled: true,
            max_line_size: cfg.max_line_size,
        };
        proof {
            assert(store@.customers =~= Seq::empty());
            assert(store@.buttons[0] =~= Seq::empty());
            assert(store@.buttons =~= seq![Seq::empty()]);
        }
        store
    }

    /// Lets a new customer join the line if there is room, and says
    /// whether there was. A line that is full stays as it is.
    pub fn enqueue_customer(&mut self) -> (admitted: bool)
        ensures
            admitted == old(self)@.has_room(),
            final(self)@ == old(self)@.enqueued(),
            final(self)@.line_fits(),
    {
        proof {
            use_type_invariant(&*self);
        }
        if self.customers.len() < self.max_line_size {
            // The line is taken out of the store while it grows, so that
            // the store is whole at every moment.
            let mut line: Vec<Customer> = Vec::new();
            core::mem::swap(&mut self.customers, &mut line);
            line.push(Customer::new());
            core::mem::swap(&mut self.customers, &mut line);
            proof {
                assert(self@.customers =~= old(self)@.customers.push(newcomer()));
            }
            true
        } else {
            false
        }
    }

    /// How many customers stand in the line.
    pub fn queue_length(&self) -> (length: usize)
        ensures
            length == self@.customers.len(),
            self@.line_fits(),
    {
        proof {
            use_type_invariant(self);
        }
        self.customers.len()
    }

    /// The level the player is on.
    pub fn player_level(&self) -> (level: u8)
        ensures
            level == self@.player.level,
    {
        self.player.level()
    }

    /// The rows of buttons that the player can choose from.
    pub fn buttons(&self) -> (rows: &Vec<Vec<Hoverable>>)
        ensures
            rows@.len() == self@.buttons.len(),
            forall|r: int| 0 <= r < rows@.len() ==> items_view((#[trigger] rows@[r])@) == self@.buttons[r],
    {
        &self.buttons
    }

    /// Brings the buttons up to the level the player is on: afterwards
    /// there is one row, which offers the drinks that the settings list
    /// for that level.
    pub fn refresh_buttons(&mut self, cfg: &Config)
        ensures
            final(self)@ == (SharedView {
                buttons: buttons_for(cfg@, old(self)@.player.level),
                ..old(self)@
            }),
    {
        proof {
            use_type_invariant(&*self);
        }
        let mut row: Vec<Hoverable> = Vec::new();
        match cfg.menu_for_level(self.player.level()) {
            Some(items) => {
                let mut i: usize = 0;
                while i < items.len()
                    invariant
                        i <= items.len(),
                        row@.len() == i,
                        forall|k: int| 0 <= k < i ==> (#[trigger] row@[k])@ == items@[k]@,
                    decreases items.len() - i,
                {
                    row.push(items[i].clone());
                    i += 1;
                }
                proof {
                    assert(items_view(row@) =~= items_view(items@));
                }
            },
            None => {
                proof {
                    assert(items_view(row@) =~= Seq::empty());
                }
            },
        }
        let mut rows: Vec<Vec<Hoverable>> = Vec::new();
        rows.push(row);
        self.buttons = rows;
        proof {
            assert(self@.buttons =~= buttons_for(cfg@, old(self)@.player.level));
        }
    }

    /// Whether the loops go on.
    pub fn is_running(&self) -> (running: bool)
        ensures
            running == self@.running,
    {
        self.running
    }

    /// Tells the loops to go on or to stop.
    pub fn set_running(&mut self, running: bool)
        ensures
            final(self)@ == (SharedView { running, ..old(self)@ }),
    {
        proof {
            use_type_invariant(&*self);
        }
        self.running = running;
    }

    /// Whether new customers may arrive.
    pub fn is_spawning_enabled(&self) -> (enabled: bool)
        ensures
            enabled == self@.spawning_enabled,
    {
        self.spawning_enabled
    }

    /// Lets customers arrive, or keeps them from arriving.
    pub fn set_spawning_enabled(&mut self, enabled: bool)
        ensures
            final(self)@ == (SharedView { spawning_enabled: enabled, ..old(self)@ }),
    {
        proof {
            use_type_invariant(&*self);
        }
        self.spawning_enabled = enabled;
    }

    /// Handles one event taken from the bus and says whether the
    /// sleeping loops have to be woken.
    ///
    /// `Quit` stops the game and wakes the sleepers. `StopCustomerSpawning`
    /// keeps further customers from arriving. `SpawnCustomer` lets a
    /// customer join the line; if the line is full the game is over, and
    /// the loops are told to stop.
    pub fn dispatch(&mut self, event: Event) -> (wake: bool)
        ensures
            final(self)@ == old(self)@.dispatched(event),
            wake == (event == Event::Quit),
            final(self)@.line_fits(),
    {
        proof {
            use_type_invariant(&*self);
        }
        match event {
            Event::Quit => {
                self.set_running(false);
                true
            },
            Event::StopCustomerSpawning => {
                self.set_spawning_enabled(false);
                false
            },
            Event::SpawnCustomer => {
                if !self.enqueue_customer() {
                    self.set_running(false);
                }
                false
            },
        }
    }
}

/// However many events are handled, and whichever they are, the line
/// never holds more customers than it has room for.
pub proof fn lemma_line_never_overflows(start: SharedView, events: Seq<Event>)
    requires
        start.line_fits(),
    ensures
        start.dispatched_all(events).line_fits(),
        start.dispatched_all(events).max_line_size == start.max_line_size,
    decreases events.len(),
{
    if events.len() > 0 {
        lemma_line_never_overflows(start, events.drop_last());
    }
}

/// An arrival at a full line changes nothing, and an arrival at any other
/// line makes it longer by exactly one customer.
pub proof fn lemma_arrival(state: SharedView)
    requires
        state.line_fits(),
    ensures
        !state.has_room() ==> state.enqueued() == state,
        state.has_room() ==> state.enqueued().customers.len() == state.customers.len() + 1,
        state.enqueued().line_fits(),
{
}

/// However many customers arrive, the line never holds more of them than
/// it has room for: it grows by one with each arrival until it is full,
/// and stays as it is from then on.
pub proof fn lemma_line_never_exceeds_limit(state: SharedView, count: nat)
    requires
        state.line_fits(),
    ensures
        state.enqueued_times(count).line_fits(),
        state.enqueued_times(count).customers.len() == if state.customers.len() + count
            <= state.max_line_size {
            state.customers.len() + count
        } else {
            state.max_line_size
        },
        state.enqueued_times(count).max_line_size == state.max_line_size,
    decreases count,
{
    if count > 0 {
        lemma_line_never_exceeds_limit(state, (count - 1) as nat);
    }
}

/// A run of `count` arrivals and nothing else.
pub open spec fn arrivals(count: nat) -> Seq<Event> {
    Seq::new(count, |i: int| Event::SpawnCustomer)
}

/// A game in which customers only arrive goes on for as long as the line
/// has room: each arrival makes the line longer by one until it is full,
/// and the first arrival at the full line ends the game.
pub proof fn lemma_arrivals_fill_the_line(max_line_size: nat, count: nat)
    ensures
        ({
            let end = SharedView::initial(max_line_size).dispatched_all(arrivals(count));
            &&& end.customers.len() == if count <= max_line_size {
                count
            } else {
                max_line_size
            }
            &&& end.running == (count <= max_line_size)
            &&& end.spawning_enabled
            &&& end.max_line_size == max_line_size
        }),
    decreases count,
{
    if count > 0 {
        lemma_arrivals_fill_the_line(max_line_size, (count - 1) as nat);
        assert(arrivals(count).drop_last() =~= arrivals((count - 1) as nat));
    }
}

/// Once customers have been kept from arriving, no event lets them arrive
/// again.
pub proof fn lemma_spawning_stays_disabled(start: SharedView, events: Seq<Event>)
    requires
        !start.spawning_enabled,
    ensures
        !start.dispatched_all(events).spawning_enabled,
    decreases events.len(),
{
    if events.len() > 0 {
        lemma_spawning_stays_disabled(start, events.drop_last());
    }
}

/// Once the game has been stopped, no event starts it again.
pub proof fn lemma_stopped_stays_stopped(start: SharedView, events: Seq<Event>)
    requires
        !start.running,
    ensures
        !start.dispatched_all(events).running,
    decreases events.len(),
{
    if events.len() > 0 {
        lemma_stopped_stays_stopped(start, events.drop_last());
    }
}

} // verus!
