//! The order aggregate: it turns commands into sequenced events, applies
//! events to the typed state, and replays history through the very same
//! application function.

use vstd::prelude::*;

use crate::aggregate_root::{AggregateRoot, SequencedEvent};
use crate::errors::OrderError;
use crate::non_empty_cart::{CartLine, NonEmptyCart};
use crate::order_state::{
    AddressView, Completed, DeliveryAddress, Empty, Invoice, Money, OrderState, StateView,
    WithAddress, WithCart,
};

verus! {

/// A recorded change of one order.
#[derive(Debug, PartialEq, Eq)]
pub enum OrderEvent {
    /// First cart, or a replacement while no address exists.
    UpdatedCart { cart: NonEmptyCart },
    /// Address first set, or replaced while one exists.
    UpdatedDeliveryAddress { delivery_address: DeliveryAddress, shipping_cost: Money, tax: Money },
    /// Cart replaced while an address exists; carries the new prices.
    UpdatedCartOnExistingDeliveryAddress { cart: NonEmptyCart, shipping_cost: Money, tax: Money },
    /// Terminal transition.
    Completed { invoice: Invoice },
}

/// The mathematical content of an event.
pub enum EventView {
    UpdatedCart { cart: Seq<CartLine> },
    UpdatedDeliveryAddress { address: AddressView, shipping_cost: Money, tax: Money },
    UpdatedCartOnExistingDeliveryAddress { cart: Seq<CartLine>, shipping_cost: Money, tax: Money },
    Completed { invoice: Invoice },
}

impl View for OrderEvent {
    type V = EventView;

    open spec fn view(&self) -> EventView {
        match self {
            OrderEvent::UpdatedCart { cart } => EventView::UpdatedCart { cart: cart@ },
            OrderEvent::UpdatedDeliveryAddress { delivery_address, shipping_cost, tax } =>
                EventView::UpdatedDeliveryAddress {
                    address: delivery_address@,
                    shipping_cost: *shipping_cost,
                    tax: *tax,
                },
            OrderEvent::UpdatedCartOnExistingDeliveryAddress { cart, shipping_cost, tax } =>
                EventView::UpdatedCartOnExistingDeliveryAddress {
                    cart: cart@,
                    shipping_cost: *shipping_cost,
                    tax: *tax,
                },
            OrderEvent::Completed { invoice } => EventView::Completed { invoice: *invoice },
        }
    }
}

impl Clone for OrderEvent {
    fn clone(&self) -> (r: Self)
        ensures
            r@ == self@,
    {
        match self {
            OrderEvent::UpdatedCart { cart } => OrderEvent::UpdatedCart { cart: cart.clone() },
            OrderEvent::UpdatedDeliveryAddress { delivery_address, shipping_cost, tax } =>
                OrderEvent::UpdatedDeliveryAddress {
                    delivery_address: delivery_address.clone(),
                    shipping_cost: *shipping_cost,
                    tax: *tax,
                },
            OrderEvent::UpdatedCartOnExistingDeliveryAddress { cart, shipping_cost, tax } =>
                OrderEvent::UpdatedCartOnExistingDeliveryAddress {
                    cart: cart.clone(),
                    shipping_cost: *shipping_cost,
                    tax: *tax,
                },
            OrderEvent::Completed { invoice } => OrderEvent::Completed { invoice: *invoice },
        }
    }
}

impl crate::events_journal::ViewClone for OrderEvent {
    fn clone_view(&self) -> (r: Self) {
        self.clone()
    }
}

/// The aggregate's command vocabulary. Prices are resolved by the caller,
/// so the aggregate stays a pure function of state and command.
#[derive(Debug, PartialEq, Eq)]
pub enum OrderEntityCommand {
    AddCart { cart: NonEmptyCart },
    UpdateCart { cart: NonEmptyCart, shipping_cost: Money, tax: Money },
    UpdateDeliveryAddress { delivery_address: DeliveryAddress, shipping_cost: Money, tax: Money },
    Complete { invoice: Invoice },
}

/// The mathematical content of a command.
pub enum CommandView {
    AddCart { cart: Seq<CartLine> },
    UpdateCart { cart: Seq<CartLine>, shipping_cost: Money, tax: Money },
    UpdateDeliveryAddress { address: AddressView, shipping_cost: Money, tax: Money },
    Complete { invoice: Invoice },
}

impl View for OrderEntityCommand {
    type V = CommandView;

    open spec fn view(&self) -> CommandView {
        match self {
            OrderEntityCommand::AddCart { cart } => CommandView::AddCart { cart: cart@ },
            OrderEntityCommand::UpdateCart { cart, shipping_cost, tax } => CommandView::UpdateCart {
                cart: cart@,
                shipping_cost: *shipping_cost,
                tax: *tax,
            },
            OrderEntityCommand::UpdateDeliveryAddress { delivery_address, shipping_cost, tax } =>
                CommandView::UpdateDeliveryAddress {
                    address: delivery_address@,
                    shipping_cost: *shipping_cost,
                    tax: *tax,
                },
            OrderEntityCommand::Complete { invoice } => CommandView::Complete { invoice: *invoice },
        }
    }
}

/// The applicability table: which event kinds a state accepts, and the
/// state that results. `None` stands for *event not applicable*.
pub open spec fn apply_event_view(state: StateView, event: EventView) -> Option<StateView> {
    match state {
        StateView::Empty => match event {
            EventView::UpdatedCart { cart } => Some(StateView::WithCart { cart }),
            _ => None,
        },
        StateView::WithCart { cart } => match event {
            EventView::UpdatedCart { cart: new_cart } => Some(
                StateView::WithCart { cart: new_cart },
            ),
            EventView::UpdatedDeliveryAddress { address, shipping_cost, tax } => Some(
                StateView::WithAddress { cart, address, shipping_cost, tax },
            ),
            _ => None,
        },
        StateView::WithAddress { cart, address, shipping_cost, tax } => match event {
            EventView::UpdatedCart { .. } => None,
            EventView::UpdatedCartOnExistingDeliveryAddress {
                cart: new_cart,
                shipping_cost: new_shipping,
                tax: new_tax,
            } => Some(
                StateView::WithAddress {
                    cart: new_cart,
                    address,
                    shipping_cost: new_shipping,
                    tax: new_tax,
                },
            ),
            EventView::UpdatedDeliveryAddress {
                address: new_address,
                shipping_cost: new_shipping,
                tax: new_tax,
            } => Some(
                StateView::WithAddress {
                    cart,
                    address: new_address,
                    shipping_cost: new_shipping,
                    tax: new_tax,
                },
            ),
            EventView::Completed { invoice } => Some(
                StateView::Completed { cart, address, shipping_cost, tax, invoice },
            ),
        },
        StateView::Completed { .. } => None,
    }
}

/// The command table: the event and state a command produces, or the exact
/// error it is rejected with.
pub open spec fn handle_view(state: StateView, command: CommandView) -> Result<
    (StateView, EventView),
    OrderError,
> {
    match state {
        StateView::Empty => match command {
            CommandView::AddCart { cart } => Ok(
                (StateView::WithCart { cart }, EventView::UpdatedCart { cart }),
            ),
            CommandView::UpdateCart { .. } => Err(OrderError::InvalidState),
            CommandView::UpdateDeliveryAddress { .. } => Err(OrderError::AddressOnEmpty),
            CommandView::Complete { .. } => Err(OrderError::NotReady),
        },
        StateView::WithCart { .. } => match command {
            CommandView::AddCart { cart } => Ok(
                (StateView::WithCart { cart }, EventView::UpdatedCart { cart }),
            ),
            CommandView::UpdateCart { .. } => Err(OrderError::InvalidState),
            CommandView::UpdateDeliveryAddress { address, shipping_cost, tax } => Ok(
                (
                    apply_event_view(
                        state,
                        EventView::UpdatedDeliveryAddress { address, shipping_cost, tax },
                    ).unwrap(),
                    EventView::UpdatedDeliveryAddress { address, shipping_cost, tax },
                ),
            ),
            CommandView::Complete { .. } => Err(OrderError::NotReady),
        },
        StateView::WithAddress { .. } => match command {
            CommandView::AddCart { .. } => Err(OrderError::InvalidState),
            CommandView::UpdateCart { cart, shipping_cost, tax } => Ok(
                (
                    apply_event_view(
                        state,
                        EventView::UpdatedCartOnExistingDeliveryAddress {
                            cart,
                            shipping_cost,
                            tax,
                        },
                    ).unwrap(),
                    EventView::UpdatedCartOnExistingDeliveryAddress { cart, shipping_cost, tax },
                ),
            ),
            CommandView::UpdateDeliveryAddress { address, shipping_cost, tax } => Ok(
                (
                    apply_event_view(
                        state,
                        EventView::UpdatedDeliveryAddress { address, shipping_cost, tax },
                    ).unwrap(),
                    EventView::UpdatedDeliveryAddress { address, shipping_cost, tax },
                ),
            ),
            CommandView::Complete { invoice } => Ok(
                (
                    apply_event_view(state, EventView::Completed { invoice }).unwrap(),
                    EventView::Completed { invoice },
                ),
            ),
        },
        StateView::Completed { .. } => Err(OrderError::OrderCompleted),
    }
}

/// Replay: apply events front to back, moving the watermark to each event's
/// sequence number; stop at the first inapplicable event. The third
/// component says whether the whole history applied.
pub open spec fn replay_view(state: StateView, watermark: int, events: Seq<(int, EventView)>) -> (
    StateView,
    int,
    bool,
)
    decreases events.len(),
{
    if events.len() == 0 {
        (state, watermark, true)
    } else {
        match apply_event_view(state, events.first().1) {
            Some(next) => replay_view(next, events.first().0, events.drop_first()),
            None => (state, watermark, false),
        }
    }
}

/// The aggregate model: the state and the sequence-number watermark.
pub struct EntityView {
    pub state: StateView,
    pub seq: int,
}

/// The order aggregate. It owns its state and watermark; events handed
/// back to callers are owned values, never references into the aggregate.
#[derive(Debug)]
pub struct OrderEntity {
    order_state: OrderState,
    sequence_number: i64,
}

impl View for OrderEntity {
    type V = EntityView;

    closed spec fn view(&self) -> EntityView {
        EntityView { state: self.order_state@, seq: self.sequence_number as int }
    }
}

impl Default for OrderEntity {
    fn default() -> (r: Self)
        ensures
            r@.state is Empty,
            r@.seq == 0,
    {
        OrderEntity { order_state: OrderState::Empty(Empty {}), sequence_number: 0 }
    }
}

impl AggregateRoot for OrderEntity {
    type State = OrderState;

    type Command = OrderEntityCommand;

    type Error = OrderError;

    type Event = OrderEvent;

    open spec fn can_number_next(&self) -> bool {
        self@.seq < i64::MAX as int
    }

    fn restore_from_events(&mut self, events: Vec<SequencedEvent<OrderEvent>>) -> (r: Result<
        OrderState,
        OrderError,
    >)
        ensures
            ({
                let rep = replay_view(
                    old(self)@.state,
                    old(self)@.seq,
                    crate::events_journal::views_of(events@),
                );
                &&& final(self)@.state == rep.0
                &&& final(self)@.seq == rep.1
                &&& match r {
                    Ok(s) => rep.2 && s@ == rep.0,
                    Err(e) => !rep.2 && e == OrderError::EventNotApplicable,
                }
            }),
    {
        let ghost evs = crate::events_journal::views_of(events@);
        proof {
            assert(evs.skip(0) =~= evs);
        }
        let mut i: usize = 0;
        while i < events.len()
            invariant
                i <= events@.len(),
                evs == crate::events_journal::views_of(events@),
                replay_view(old(self)@.state, old(self)@.seq, evs) == replay_view(
                    self@.state,
                    self@.seq,
                    evs.skip(i as int),
                ),
            decreases events@.len() - i,
        {
            let seq_event = &events[i];
            let event = seq_event.event.clone();
            let mut current_state = OrderState::default();
            core::mem::swap(&mut current_state, &mut self.order_state);
            proof {
                assert(evs.skip(i as int).first() == evs[i as int]);
                assert(evs.skip(i as int).drop_first() =~= evs.skip(i as int + 1));
            }
            match Self::apply_event(current_state, event) {
                Ok(new_state) => {
                    self.order_state = new_state;
                    self.sequence_number = seq_event.sequence_number;
                },
                Err((current_state, err)) => {
                    self.order_state = current_state;
                    proof {
                        assert(evs.skip(i as int).len() > 0);
                    }
                    return Err(err);
                },
            }
            i += 1;
        }
        proof {
            assert(evs.skip(events@.len() as int) =~= Seq::<(int, EventView)>::empty());
        }
        Ok(self.order_state.clone())
    }

    fn get_state(&self) -> (r: &OrderState)
        ensures
            r@ == self@.state,
    {
        &self.order_state
    }

    fn handle_command(&mut self, command: OrderEntityCommand) -> (r: Result<
        (OrderState, Vec<SequencedEvent<OrderEvent>>),
        OrderError,
    >)
        ensures
            match r {
                Ok(p) => {
                    &&& handle_view(old(self)@.state, command@) matches Ok(step)
                        && final(self)@.state == step.0 && p.0@ == step.0 && p.1@.len() == 1
                        && p.1@[0]@ == (old(self)@.seq + 1, step.1)
                    &&& final(self)@.seq == old(self)@.seq + 1
                },
                Err(e) => {
                    &&& handle_view(old(self)@.state, command@) matches Err(expected) && e
                        == expected
                    &&& final(self)@ == old(self)@
                },
            },
    {
        let mut current_state = OrderState::default();
        core::mem::swap(&mut current_state, &mut self.order_state);
        match self.handle_command_with_state(current_state, command) {
            Ok((new_state, event)) => {
                self.order_state = new_state;
                self.sequence_number = self.sequence_number + 1;
                let mut seq_events: Vec<SequencedEvent<OrderEvent>> = Vec::new();
                seq_events.push(
                    SequencedEvent { sequence_number: self.sequence_number, event },
                );
                Ok((self.order_state.clone(), seq_events))
            },
            Err((prior_state, err)) => {
                self.order_state = prior_state;
                Err(err)
            },
        }
    }
}

impl OrderEntity {
    /// The highest sequence number this aggregate has assigned or replayed.
    pub fn watermark(&self) -> (r: i64)
        ensures
            r == self@.seq,
    {
        self.sequence_number
    }

    /// Route a command to the handler of the current state variant.
    fn handle_command_with_state(
        &self,
        current_state: OrderState,
        command: OrderEntityCommand,
    ) -> (r: Result<(OrderState, OrderEvent), (OrderState, OrderError)>)
        ensures
            handle_result_matches(current_state@, command@, r),
    {
        match current_state {
            OrderState::Empty(order_empty) => self.empty_order_command_handler(
                order_empty,
                command,
            ),
            OrderState::WithCart(order_with_cart) => self.with_cart_command_handler(
                order_with_cart,
                command,
            ),
            OrderState::WithAddress(order_with_addr) => self.with_addr_command_handler(
                order_with_addr,
                command,
            ),
            OrderState::Completed(completed_order) => self.with_completed_order(
                completed_order,
                command,
            ),
        }
    }

    /// Commands legal on an empty order: only the first cart.
    fn empty_order_command_handler(&self, order_empty: Empty, command: OrderEntityCommand) -> (r:
        Result<(OrderState, OrderEvent), (OrderState, OrderError)>)
        ensures
            handle_result_matches(StateView::Empty, command@, r),
    {
        match command {
            OrderEntityCommand::AddCart { cart } => {
                let event_cart = cart.clone();
                let new_state = OrderState::WithCart(order_empty.add_cart(cart));
                Ok((new_state, OrderEvent::UpdatedCart { cart: event_cart }))
            },
            OrderEntityCommand::UpdateCart { .. } => Err(
                (OrderState::Empty(order_empty), OrderError::InvalidState),
            ),
            OrderEntityCommand::UpdateDeliveryAddress { .. } => Err(
                (OrderState::Empty(order_empty), OrderError::AddressOnEmpty),
            ),
            OrderEntityCommand::Complete { .. } => Err(
                (OrderState::Empty(order_empty), OrderError::NotReady),
            ),
        }
    }

    /// Commands legal while only a cart exists: replace it or add the
    /// first address.
    fn with_cart_command_handler(
        &self,
        order_with_cart: WithCart,
        command: OrderEntityCommand,
    ) -> (r: Result<(OrderState, OrderEvent), (OrderState, OrderError)>)
        ensures
            handle_result_matches(
                StateView::WithCart { cart: order_with_cart@ },
                command@,
                r,
            ),
    {
        match command {
            OrderEntityCommand::AddCart { cart } => {
                let event_cart = cart.clone();
                let new_state = OrderState::WithCart(order_with_cart.update_cart(cart));
                Ok((new_state, OrderEvent::UpdatedCart { cart: event_cart }))
            },
            OrderEntityCommand::UpdateCart { .. } => Err(
                (OrderState::WithCart(order_with_cart), OrderError::InvalidState),
            ),
            OrderEntityCommand::UpdateDeliveryAddress { delivery_address, shipping_cost, tax } => {
                let event_address = delivery_address.clone();
                let new_state = OrderState::WithAddress(
                    order_with_cart.add_delivery_address(delivery_address, shipping_cost, tax),
                );
                Ok(
                    (
                        new_state,
                        OrderEvent::UpdatedDeliveryAddress {
                            delivery_address: event_address,
                            shipping_cost,
                            tax,
                        },
                    ),
                )
            },
            OrderEntityCommand::Complete { .. } => Err(
                (OrderState::WithCart(order_with_cart), OrderError::NotReady),
            ),
        }
    }

    /// Commands legal once an address exists: re-price the cart, move the
    /// address, or complete.
    fn with_addr_command_handler(
        &self,
        order_with_addr: WithAddress,
        command: OrderEntityCommand,
    ) -> (r: Result<(OrderState, OrderEvent), (OrderState, OrderError)>)
        ensures
            handle_result_matches(
                StateView::WithAddress {
                    cart: order_with_addr@.0,
                    address: order_with_addr@.1,
                    shipping_cost: order_with_addr@.2,
                    tax: order_with_addr@.3,
                },
                command@,
                r,
            ),
    {
        match command {
            OrderEntityCommand::AddCart { .. } => Err(
                (OrderState::WithAddress(order_with_addr), OrderError::InvalidState),
            ),
            OrderEntityCommand::UpdateCart { cart, shipping_cost, tax } => {
                let event_cart = cart.clone();
                let new_state = OrderState::WithAddress(
                    order_with_addr.update_cart(cart, shipping_cost, tax),
                );
                Ok(
                    (
                        new_state,
                        OrderEvent::UpdatedCartOnExistingDeliveryAddress {
                            cart: event_cart,
                            shipping_cost,
                            tax,
                        },
                    ),
                )
            },
            OrderEntityCommand::UpdateDeliveryAddress { delivery_address, shipping_cost, tax } => {
                let event_address = delivery_address.clone();
                let new_state = OrderState::WithAddress(
                    order_with_addr.update_delivery_address(delivery_address, shipping_cost, tax),
                );
                Ok(
                    (
                        new_state,
                        OrderEvent::UpdatedDeliveryAddress {
                            delivery_address: event_address,
                            shipping_cost,
                            tax,
                        },
                    ),
                )
            },
            OrderEntityCommand::Complete { invoice } => {
                let new_state = OrderState::Completed(order_with_addr.complete_order(invoice));
                Ok((new_state, OrderEvent::Completed { invoice }))
            },
        }
    }

    /// From the terminal state every command fails.
    fn with_completed_order(&self, completed_order: Completed, _command: OrderEntityCommand) -> (r:
        Result<(OrderState, OrderEvent), (OrderState, OrderError)>)
        ensures
            r matches Err(p) && p.0@ == (StateView::Completed {
                cart: completed_order@.0,
                address: completed_order@.1,
                shipping_cost: completed_order@.2,
                tax: completed_order@.3,
                invoice: completed_order@.4,
            }) && p.1 == OrderError::OrderCompleted,
    {
        Err((OrderState::Completed(completed_order), OrderError::OrderCompleted))
    }

    /// Apply one event to an owned state, handing the state back untouched
    /// when the event's kind is not legal there. Replay and live handling
    /// both go through this single function.
    fn apply_event(order_state: OrderState, order_event: OrderEvent) -> (r: Result<
        OrderState,
        (OrderState, OrderError),
    >)
        ensures
            match apply_event_view(order_state@, order_event@) {
                Some(next) => r matches Ok(s) && s@ == next,
                None => r matches Err(p) && p.0@ == order_state@ && p.1
                    == OrderError::EventNotApplicable,
            },
    {
        match order_state {
            OrderState::Empty(empty_order) => match order_event {
                OrderEvent::UpdatedCart { cart } => Ok(
                    OrderState::WithCart(empty_order.add_cart(cart)),
                ),
                _ => Err((OrderState::Empty(empty_order), OrderError::EventNotApplicable)),
            },
            OrderState::WithCart(with_cart) => match order_event {
                OrderEvent::UpdatedCart { cart } => Ok(
                    OrderState::WithCart(with_cart.update_cart(cart)),
                ),
                OrderEvent::UpdatedDeliveryAddress { delivery_address, shipping_cost, tax } => Ok(
                    OrderState::WithAddress(
                        with_cart.add_delivery_address(delivery_address, shipping_cost, tax),
                    ),
                ),
                _ => Err((OrderState::WithCart(with_cart), OrderError::EventNotApplicable)),
            },
            OrderState::WithAddress(with_addr) => match order_event {
                OrderEvent::UpdatedCart { .. } => Err(
                    (OrderState::WithAddress(with_addr), OrderError::EventNotApplicable),
                ),
                OrderEvent::UpdatedCartOnExistingDeliveryAddress { cart, shipping_cost, tax } =>
                    Ok(OrderState::WithAddress(with_addr.update_cart(cart, shipping_cost, tax))),
                OrderEvent::UpdatedDeliveryAddress { delivery_address, shipping_cost, tax } => Ok(
                    OrderState::WithAddress(
                        with_addr.update_delivery_address(delivery_address, shipping_cost, tax),
                    ),
                ),
                OrderEvent::Completed { invoice } => Ok(
                    OrderState::Completed(with_addr.complete_order(invoice)),
                ),
            },
            OrderState::Completed(_) => Err((order_state, OrderError::EventNotApplicable)),
        }
    }
}

/// The model of a fresh aggregate: empty state, watermark zero.
pub open spec fn fresh_entity() -> EntityView {
    EntityView { state: StateView::Empty, seq: 0 }
}

/// A whole run of commands against an aggregate model: each accepted
/// command advances the state and appends its sequenced event; a rejected
/// command changes nothing and leaves no trace.
pub open spec fn run_commands(entity: EntityView, commands: Seq<CommandView>) -> (
    EntityView,
    Seq<(int, EventView)>,
)
    decreases commands.len(),
{
    if commands.len() == 0 {
        (entity, Seq::empty())
    } else {
        match handle_view(entity.state, commands.first()) {
            Ok(step) => {
                let next = EntityView { state: step.0, seq: entity.seq + 1 };
                let rest = run_commands(next, commands.drop_first());
                (rest.0, seq![(entity.seq + 1, step.1)] + rest.1)
            },
            Err(_) => run_commands(entity, commands.drop_first()),
        }
    }
}

/// The event of an accepted command applies to the state the command was
/// issued in, and yields exactly the state the command produced: live
/// handling and replay cannot diverge.
pub proof fn lemma_handle_apply_coherent(state: StateView, command: CommandView)
    ensures
        handle_view(state, command) matches Ok(step) ==> apply_event_view(state, step.1)
            == Some(step.0),
{
}

/// Numbering law, from any starting watermark: a run of commands yields
/// events numbered consecutively from one past the watermark, and moves
/// the watermark by their count.
pub proof fn lemma_run_numbering(entity: EntityView, commands: Seq<CommandView>)
    ensures
        ({
            let r = run_commands(entity, commands);
            &&& r.0.seq == entity.seq + r.1.len()
            &&& forall|i: int| 0 <= i < r.1.len() ==> (#[trigger] r.1[i]).0 == entity.seq + 1 + i
        }),
    decreases commands.len(),
{
    if commands.len() > 0 {
        match handle_view(entity.state, commands.first()) {
            Ok(step) => {
                let next = EntityView { state: step.0, seq: entity.seq + 1 };
                lemma_run_numbering(next, commands.drop_first());
            },
            Err(_) => {
                lemma_run_numbering(entity, commands.drop_first());
            },
        }
    }
}

/// For every sequence of commands against a fresh entity, the events
/// produced carry strictly increasing sequence numbers starting at 1 with
/// no gaps.
pub proof fn lemma_sequence_numbers_from_fresh(commands: Seq<CommandView>)
    ensures
        ({
            let r = run_commands(fresh_entity(), commands);
            forall|i: int| 0 <= i < r.1.len() ==> (#[trigger] r.1[i]).0 == i + 1
        }),
{
    lemma_run_numbering(fresh_entity(), commands);
}

/// Replay law, from any starting point: replaying the exact events a run
/// of commands produced, beginning in the state and watermark the run
/// started from, reaches the post-run state and watermark in full.
pub proof fn lemma_run_replay(entity: EntityView, commands: Seq<CommandView>)
    ensures
        ({
            let r = run_commands(entity, commands);
            replay_view(entity.state, entity.seq, r.1) == (r.0.state, r.0.seq, true)
        }),
    decreases commands.len(),
{
    let r = run_commands(entity, commands);
    if commands.len() > 0 {
        match handle_view(entity.state, commands.first()) {
            Ok(step) => {
                let next = EntityView { state: step.0, seq: entity.seq + 1 };
                let rest = run_commands(next, commands.drop_first());
                lemma_handle_apply_coherent(entity.state, commands.first());
                lemma_run_replay(next, commands.drop_first());
                let evs = seq![(entity.seq + 1, step.1)] + rest.1;
                assert(evs.first() == (entity.seq + 1, step.1));
                assert(evs.drop_first() =~= rest.1);
            },
            Err(_) => {
                lemma_run_replay(entity, commands.drop_first());
            },
        }
    }
}

/// Replay law: starting from an empty aggregate and replaying the exact
/// events returned by a run of commands yields the post-command state and
/// watermark.
pub proof fn lemma_replay_round_trip(commands: Seq<CommandView>)
    ensures
        ({
            let r = run_commands(fresh_entity(), commands);
            replay_view(StateView::Empty, 0, r.1) == (r.0.state, r.0.seq, true)
        }),
{
    lemma_run_replay(fresh_entity(), commands);
}

/// Rejection law: a command the table rejects moves nothing — the model
/// after the rejected command equals the model before it, and no event is
/// produced.
pub proof fn lemma_rejection_no_mutation(entity: EntityView, command: CommandView)
    requires
        handle_view(entity.state, command) is Err,
    ensures
        run_commands(entity, seq![command]) == (entity, Seq::<(int, EventView)>::empty()),
{
    assert(seq![command].drop_first() =~= Seq::<CommandView>::empty());
    assert(run_commands(entity, Seq::<CommandView>::empty()) == (
        entity,
        Seq::<(int, EventView)>::empty(),
    ));
    assert(seq![command].first() == command);
}

/// Terminality: from a completed order every command fails with the
/// completed-order error, and no event is produced.
pub proof fn lemma_terminality(entity: EntityView, command: CommandView)
    requires
        entity.state is Completed,
    ensures
        handle_view(entity.state, command) matches Err(e) && e == OrderError::OrderCompleted,
        run_commands(entity, seq![command]) == (entity, Seq::<(int, EventView)>::empty()),
{
    lemma_rejection_no_mutation(entity, command);
}

/// How an exec handler's result must relate to the command table.
pub open spec fn handle_result_matches(
    state: StateView,
    command: CommandView,
    r: Result<(OrderState, OrderEvent), (OrderState, OrderError)>,
) -> bool {
    match handle_view(state, command) {
        Ok(step) => r matches Ok(p) && p.0@ == step.0 && p.1@ == step.1,
        Err(expected) => r matches Err(p) && p.0@ == state && p.1 == expected,
    }
}

} // verus!
