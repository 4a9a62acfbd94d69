//! The per-entity command service: resolve the aggregate for an order,
//! build the aggregate command (pricing resolved here), dispatch it, and
//! persist every produced event before acknowledging.

use std::collections::HashMap;

use vstd::prelude::*;

use crate::aggregate_root::{AggregateRoot, SequencedEvent};
use crate::errors::OrderError;
use crate::events_journal::{has_sequence, views_of, EventsJournal};
use crate::non_empty_cart::{CartLine, NonEmptyCart};
use crate::order_entity::{
    handle_view, replay_view, CommandView, EntityView, EventView, OrderEntity, OrderEntityCommand,
    OrderEvent,
};
use crate::order_state::{AddressView, DeliveryAddress, OrderState, StateView};
use crate::payment_processor::{PaymentProcessor, PaymentToken};
use crate::shipping_calculator::ShippingCalculator;
use crate::tax_calculator::TaxCalculator;

verus! {

broadcast use vstd::std_specs::hash::group_hash_axioms;

/// Replace the cart of one order, whatever its state allows.
#[derive(Debug)]
pub struct UpdateCart {
    pub order_id: i64,
    pub cart: NonEmptyCart,
}

/// Set or replace the delivery address of one order.
#[derive(Debug)]
pub struct UpdateDeliveryAddress {
    pub order_id: i64,
    pub delivery_address: DeliveryAddress,
}

/// Pay one order with a token.
#[derive(Debug)]
pub struct PayOrder {
    pub order_id: i64,
    pub payment_token: PaymentToken,
}

/// Which aggregate command a cart update builds, given the current state:
/// a plain cart replacement before an address exists, a re-priced one
/// after, and a rejection once the order is completed.
pub open spec fn cart_command_view<S: ShippingCalculator, T: TaxCalculator>(
    shipping: S,
    tax: T,
    state: StateView,
    cart: Seq<CartLine>,
) -> Result<CommandView, OrderError> {
    match state {
        StateView::Empty => Ok(CommandView::AddCart { cart }),
        StateView::WithCart { .. } => Ok(CommandView::AddCart { cart }),
        StateView::WithAddress { address, .. } => {
            let shipping_cost = shipping.cost_model(cart, address);
            Ok(
                CommandView::UpdateCart {
                    cart,
                    shipping_cost,
                    tax: tax.tax_model(cart, shipping_cost),
                },
            )
        },
        StateView::Completed { .. } => Err(OrderError::OrderCompleted),
    }
}

/// Which aggregate command an address update builds: prices are computed
/// against the cart already recorded.
pub open spec fn address_command_view<S: ShippingCalculator, T: TaxCalculator>(
    shipping: S,
    tax: T,
    state: StateView,
    address: AddressView,
) -> Result<CommandView, OrderError> {
    match state {
        StateView::Empty => Err(OrderError::AddressOnEmpty),
        StateView::WithCart { cart } => {
            let shipping_cost = shipping.cost_model(cart, address);
            Ok(
                CommandView::UpdateDeliveryAddress {
                    address,
                    shipping_cost,
                    tax: tax.tax_model(cart, shipping_cost),
                },
            )
        },
        StateView::WithAddress { cart, .. } => {
            let shipping_cost = shipping.cost_model(cart, address);
            Ok(
                CommandView::UpdateDeliveryAddress {
                    address,
                    shipping_cost,
                    tax: tax.tax_model(cart, shipping_cost),
                },
            )
        },
        StateView::Completed { .. } => Err(OrderError::OrderCompleted),
    }
}

/// Which aggregate command a payment builds: only an order with an address
/// is ready to be paid.
pub open spec fn pay_command_view<P: PaymentProcessor>(
    payment: P,
    state: StateView,
    token: Seq<char>,
) -> Result<CommandView, OrderError> {
    match state {
        StateView::Empty => Err(OrderError::NotReady),
        StateView::WithCart { .. } => Err(OrderError::NotReady),
        StateView::WithAddress { .. } => Ok(
            CommandView::Complete { invoice: payment.invoice_model(token) },
        ),
        StateView::Completed { .. } => Err(OrderError::OrderCompleted),
    }
}

/// Build the aggregate command a cart update means in the given state:
/// the recorded cart before an address exists, a re-priced cart after,
/// and a rejection once the order is completed.
pub fn build_cart_command<S: ShippingCalculator, T: TaxCalculator>(
    state: &OrderState,
    cart: NonEmptyCart,
    shipping_calculator: &S,
    tax_calculator: &T,
) -> (r: Result<OrderEntityCommand, OrderError>)
    ensures
        build_view(r) == cart_command_view(*shipping_calculator, *tax_calculator, state@, cart@),
{
    match state {
        OrderState::Empty(_) => Ok(OrderEntityCommand::AddCart { cart }),
        OrderState::WithCart(_) => Ok(OrderEntityCommand::AddCart { cart }),
        OrderState::WithAddress(with_addr) => {
            let shipping_cost = shipping_calculator.shipping_cost(
                &cart,
                with_addr.get_delivery_address(),
            );
            let tax = tax_calculator.tax_cost(&cart, &shipping_cost);
            Ok(OrderEntityCommand::UpdateCart { cart, shipping_cost, tax })
        },
        OrderState::Completed(_) => Err(OrderError::OrderCompleted),
    }
}

/// Build the aggregate command an address update means in the given state:
/// prices are computed against the cart already recorded.
pub fn build_address_command<S: ShippingCalculator, T: TaxCalculator>(
    state: &OrderState,
    delivery_address: DeliveryAddress,
    shipping_calculator: &S,
    tax_calculator: &T,
) -> (r: Result<OrderEntityCommand, OrderError>)
    ensures
        build_view(r) == address_command_view(
            *shipping_calculator,
            *tax_calculator,
            state@,
            delivery_address@,
        ),
{
    match state {
        OrderState::Empty(_) => Err(OrderError::AddressOnEmpty),
        OrderState::WithCart(with_cart) => {
            let shipping_cost = shipping_calculator.shipping_cost(
                with_cart.get_cart(),
                &delivery_address,
            );
            let tax = tax_calculator.tax_cost(with_cart.get_cart(), &shipping_cost);
            Ok(OrderEntityCommand::UpdateDeliveryAddress { delivery_address, shipping_cost, tax })
        },
        OrderState::WithAddress(with_addr) => {
            let shipping_cost = shipping_calculator.shipping_cost(
                with_addr.get_cart(),
                &delivery_address,
            );
            let tax = tax_calculator.tax_cost(with_addr.get_cart(), &shipping_cost);
            Ok(OrderEntityCommand::UpdateDeliveryAddress { delivery_address, shipping_cost, tax })
        },
        OrderState::Completed(_) => Err(OrderError::OrderCompleted),
    }
}

/// Build the aggregate command a payment means in the given state: only an
/// order holding an address is ready, and paying obtains the invoice.
pub fn build_pay_command<P: PaymentProcessor>(
    state: &OrderState,
    payment_token: PaymentToken,
    payment_processor: &P,
) -> (r: Result<OrderEntityCommand, OrderError>)
    ensures
        build_view(r) == pay_command_view(*payment_processor, state@, payment_token@),
{
    match state {
        OrderState::Empty(_) => Err(OrderError::NotReady),
        OrderState::WithCart(_) => Err(OrderError::NotReady),
        OrderState::WithAddress(_) => {
            let invoice = payment_processor.pay_with_token(payment_token);
            Ok(OrderEntityCommand::Complete { invoice })
        },
        OrderState::Completed(_) => Err(OrderError::OrderCompleted),
    }
}

/// The view of an exec command build.
pub open spec fn build_view(build: Result<OrderEntityCommand, OrderError>) -> Result<
    CommandView,
    OrderError,
> {
    match build {
        Ok(command) => Ok(command@),
        Err(e) => Err(e),
    }
}

/// One aggregate step at the model level: the built command is dispatched,
/// the accepted command advances the entity and yields its sequenced event.
pub open spec fn step_entity(entity: EntityView, build: Result<CommandView, OrderError>) -> Result<
    (EntityView, (int, EventView)),
    OrderError,
> {
    match build {
        Err(e) => Err(e),
        Ok(command) => match handle_view(entity.state, command) {
            Ok(step) => Ok(
                (
                    EntityView { state: step.0, seq: entity.seq + 1 },
                    (entity.seq + 1, step.1),
                ),
            ),
            Err(e) => Err(e),
        },
    }
}

/// The service's deterministic model: every entity's aggregate view and
/// journal record. The exec service's contracts pin its observations to
/// exactly one step of this model per accepted command.
pub struct ServiceModel {
    pub registry: Map<i64, EntityView>,
    pub journal: Map<i64, Seq<(int, EventView)>>,
}

/// A service-level request at the model level.
pub enum ServiceCommandView {
    UpdateCart { cart: Seq<CartLine> },
    UpdateDeliveryAddress { address: AddressView },
    PayOrder { token: Seq<char> },
}

/// The journal record of one entity; an unknown entity has none.
pub open spec fn model_journal_of(m: ServiceModel, entity_id: i64) -> Seq<(int, EventView)> {
    if m.journal.contains_key(entity_id) {
        m.journal[entity_id]
    } else {
        Seq::empty()
    }
}

/// The entity a command observes: the admitted aggregate, or the replay of
/// its journal record.
pub open spec fn model_entity_at(m: ServiceModel, entity_id: i64) -> EntityView {
    if m.registry.contains_key(entity_id) {
        m.registry[entity_id]
    } else {
        let rep = replay_view(StateView::Empty, 0, model_journal_of(m, entity_id));
        EntityView { state: rep.0, seq: rep.1 }
    }
}

/// One service command against the model: the entity is admitted either
/// way; an accepted command advances it and appends its event to the
/// entity's journal record.
pub open spec fn model_step<S: ShippingCalculator, T: TaxCalculator, P: PaymentProcessor>(
    shipping: S,
    tax: T,
    payment: P,
    m: ServiceModel,
    entity_id: i64,
    command: ServiceCommandView,
) -> ServiceModel {
    let entity = model_entity_at(m, entity_id);
    let build = match command {
        ServiceCommandView::UpdateCart { cart } => cart_command_view(
            shipping,
            tax,
            entity.state,
            cart,
        ),
        ServiceCommandView::UpdateDeliveryAddress { address } => address_command_view(
            shipping,
            tax,
            entity.state,
            address,
        ),
        ServiceCommandView::PayOrder { token } => pay_command_view(payment, entity.state, token),
    };
    match step_entity(entity, build) {
        Ok(sp) => ServiceModel {
            registry: m.registry.insert(entity_id, sp.0),
            journal: m.journal.insert(entity_id, model_journal_of(m, entity_id).push(sp.1)),
        },
        Err(_) => ServiceModel { registry: m.registry.insert(entity_id, entity), journal: m.journal },
    }
}

/// Per-entity serialisation, sequentially: a command only ever extends its
/// own entity's journal record at the end and leaves every other record
/// alone, so the journal of each entity lists its commands' events exactly
/// in the order the commands completed.
pub proof fn lemma_journal_order_is_completion_order<
    S: ShippingCalculator,
    T: TaxCalculator,
    P: PaymentProcessor,
>(shipping: S, tax: T, payment: P, m: ServiceModel, entity_id: i64, command: ServiceCommandView)
    ensures
        ({
            let post = model_step(shipping, tax, payment, m, entity_id, command);
            &&& model_journal_of(m, entity_id).is_prefix_of(model_journal_of(post, entity_id))
            &&& forall|other: i64|
                other != entity_id ==> model_journal_of(post, other) == model_journal_of(m, other)
        }),
{
    let post = model_step(shipping, tax, payment, m, entity_id, command);
    assert(model_journal_of(m, entity_id).is_prefix_of(model_journal_of(post, entity_id))) by {
        let pre_record = model_journal_of(m, entity_id);
        let post_record = model_journal_of(post, entity_id);
        assert(pre_record.len() <= post_record.len());
        assert(pre_record =~= post_record.take(pre_record.len() as int));
    }
}

/// Cross-entity independence: commands against distinct entities commute;
/// the model reaches the same registry and journal in either order.
pub proof fn lemma_cross_entity_independence<
    S: ShippingCalculator,
    T: TaxCalculator,
    P: PaymentProcessor,
>(
    shipping: S,
    tax: T,
    payment: P,
    m: ServiceModel,
    first_id: i64,
    first: ServiceCommandView,
    second_id: i64,
    second: ServiceCommandView,
)
    requires
        first_id != second_id,
    ensures
        model_step(
            shipping,
            tax,
            payment,
            model_step(shipping, tax, payment, m, first_id, first),
            second_id,
            second,
        ) == model_step(
            shipping,
            tax,
            payment,
            model_step(shipping, tax, payment, m, second_id, second),
            first_id,
            first,
        ),
{
    let m1 = model_step(shipping, tax, payment, m, first_id, first);
    let m2 = model_step(shipping, tax, payment, m, second_id, second);
    let m12 = model_step(shipping, tax, payment, m1, second_id, second);
    let m21 = model_step(shipping, tax, payment, m2, first_id, first);
    assert(model_journal_of(m1, second_id) == model_journal_of(m, second_id));
    assert(model_journal_of(m2, first_id) == model_journal_of(m, first_id));
    assert(model_entity_at(m1, second_id) == model_entity_at(m, second_id));
    assert(model_entity_at(m2, first_id) == model_entity_at(m, first_id));
    assert(m12.registry =~= m21.registry);
    assert(m12.journal =~= m21.journal);
}

/// A process-wide registry of aggregates over a shared journal, with the
/// pricing and payment collaborators injected at construction.
pub struct OrderService<
    E: EventsJournal<OrderEvent>,
    S: ShippingCalculator,
    T: TaxCalculator,
    P: PaymentProcessor,
> {
    orders: HashMap<i64, OrderEntity>,
    events_journal: E,
    shipping_calculator: S,
    tax_calculator: T,
    payment_processor: P,
}

impl<
    E: EventsJournal<OrderEvent>,
    S: ShippingCalculator,
    T: TaxCalculator,
    P: PaymentProcessor,
> OrderService<E, S, T, P> {
    /// The journal collaborator.
    pub closed spec fn journal(&self) -> E {
        self.events_journal
    }

    /// The registry of aggregates admitted so far.
    pub closed spec fn registry(&self) -> Map<i64, OrderEntity> {
        self.orders@
    }

    /// The shipping collaborator.
    pub closed spec fn shipping(&self) -> S {
        self.shipping_calculator
    }

    /// The tax collaborator.
    pub closed spec fn tax(&self) -> T {
        self.tax_calculator
    }

    /// The payment collaborator.
    pub closed spec fn payment(&self) -> P {
        self.payment_processor
    }

    /// Everything the journal has recorded for one entity.
    pub open spec fn journal_of(&self, entity_id: i64) -> Seq<(int, EventView)> {
        self.journal().events_of(entity_id)
    }

    /// Whether the entity is already admitted to the registry.
    pub open spec fn cached(&self, entity_id: i64) -> bool {
        self.registry().contains_key(entity_id)
    }

    /// The replay of the journal for one entity, from a fresh aggregate.
    pub open spec fn replayed(&self, entity_id: i64) -> (StateView, int, bool) {
        replay_view(StateView::Empty, 0, self.journal_of(entity_id))
    }

    /// Whether resolving the entity succeeds: it is cached, or its whole
    /// history applies.
    pub open spec fn replay_ok(&self, entity_id: i64) -> bool {
        self.cached(entity_id) || self.replayed(entity_id).2
    }

    /// The entity as a command would observe it: the cached aggregate, or
    /// the one the journal restores.
    pub open spec fn entity_at(&self, entity_id: i64) -> EntityView {
        if self.cached(entity_id) {
            self.registry()[entity_id]@
        } else {
            EntityView { state: self.replayed(entity_id).0, seq: self.replayed(entity_id).1 }
        }
    }

    /// Whether the journal behind this service can fail on its own.
    pub open spec fn journal_may_fail(&self) -> bool {
        self.journal().may_fail()
    }

    /// The collaborators are the same as before the call.
    pub open spec fn same_deps(pre: Self, post: Self) -> bool {
        &&& post.shipping() == pre.shipping()
        &&& post.tax() == pre.tax()
        &&& post.payment() == pre.payment()
        &&& post.journal_may_fail() == pre.journal_may_fail()
    }

    /// Nothing outside the given entity moved: every other entity keeps
    /// its journal record and its registry slot.
    pub open spec fn frame_except(pre: Self, post: Self, entity_id: i64) -> bool {
        &&& Self::same_deps(pre, post)
        &&& forall|other: i64|
            other != entity_id ==> post.journal_of(other) == pre.journal_of(other)
        &&& forall|other: i64|
            other != entity_id ==> post.cached(other) == pre.cached(other) && (pre.cached(other)
                ==> post.registry()[other] == pre.registry()[other])
    }

    /// What every service command guarantees, given the command the
    /// service would build for the observed state.
    ///
    /// The error value tells the story: a read failure or an inapplicable
    /// historic event comes from resolving the entity, which changes
    /// nothing; a write failure or a duplicate sequence number comes from
    /// the journal after the aggregate already advanced; every other error
    /// is the exact rejection the command table gives, with the aggregate
    /// unchanged. A journal failure can only occur over a backend that
    /// admits failing, so over a reliable journal an accepted command with
    /// a fresh sequence number provably returns `Ok`.
    pub open spec fn command_outcome(
        pre: Self,
        post: Self,
        entity_id: i64,
        build: Result<CommandView, OrderError>,
        r: Result<(OrderState, Vec<SequencedEvent<OrderEvent>>), OrderError>,
    ) -> bool {
        &&& Self::frame_except(pre, post, entity_id)
        &&& match r {
            Ok(p) => {
                &&& pre.replay_ok(entity_id)
                &&& step_entity(pre.entity_at(entity_id), build) matches Ok(sp) && p.0@ == sp.0.state
                    && views_of(p.1@) == seq![sp.1] && post.entity_at(entity_id) == sp.0
                    && post.journal_of(entity_id) == pre.journal_of(entity_id).push(sp.1)
                    && !has_sequence(pre.journal_of(entity_id), sp.1.0)
                &&& post.cached(entity_id)
            },
            Err(e) => match e {
                OrderError::JournalReadFailure => {
                    &&& !pre.cached(entity_id)
                    &&& pre.journal_may_fail()
                    &&& post.registry() == pre.registry()
                    &&& post.journal_of(entity_id) == pre.journal_of(entity_id)
                },
                OrderError::EventNotApplicable => {
                    &&& !pre.cached(entity_id)
                    &&& !pre.replayed(entity_id).2
                    &&& post.registry() == pre.registry()
                    &&& post.journal_of(entity_id) == pre.journal_of(entity_id)
                },
                OrderError::JournalWriteFailure | OrderError::DuplicateSequence => {
                    &&& pre.replay_ok(entity_id)
                    &&& e == OrderError::JournalWriteFailure ==> pre.journal_may_fail()
                    &&& step_entity(pre.entity_at(entity_id), build) matches Ok(sp)
                        && post.entity_at(entity_id) == sp.0 && (e
                        == OrderError::DuplicateSequence ==> has_sequence(
                        pre.journal_of(entity_id),
                        sp.1.0,
                    ))
                    &&& post.cached(entity_id)
                    &&& post.journal_of(entity_id) == pre.journal_of(entity_id)
                },
                _ => {
                    &&& pre.replay_ok(entity_id)
                    &&& step_entity(pre.entity_at(entity_id), build) matches Err(expected) && e
                        == expected
                    &&& post.entity_at(entity_id) == pre.entity_at(entity_id)
                    &&& post.cached(entity_id)
                    &&& post.journal_of(entity_id) == pre.journal_of(entity_id)
                },
            },
        }
    }

    /// Assemble a service over its journal and collaborators.
    pub fn new(
        events_journal: E,
        shipping_calculator: S,
        tax_calculator: T,
        payment_processor: P,
    ) -> (r: Self)
        ensures
            r.registry() == Map::<i64, OrderEntity>::empty(),
            forall|entity_id: i64| r.journal_of(entity_id) == events_journal.events_of(entity_id),
            r.shipping() == shipping_calculator,
            r.tax() == tax_calculator,
            r.payment() == payment_processor,
    {
        Self {
            orders: HashMap::new(),
            events_journal,
            shipping_calculator,
            tax_calculator,
            payment_processor,
        }
    }

    /// Resolve the aggregate for an entity and take exclusive hold of it:
    /// the cached one, or the one restored from the journal on first touch.
    fn take_entity(&mut self, entity_id: i64) -> (r: Result<OrderEntity, OrderError>)
        ensures
            Self::same_deps(*old(self), *final(self)),
            forall|other: i64| final(self).journal_of(other) == old(self).journal_of(other),
            match r {
                Ok(entity) => {
                    &&& old(self).replay_ok(entity_id)
                    &&& entity@ == old(self).entity_at(entity_id)
                    &&& final(self).registry() == old(self).registry().remove(entity_id)
                },
                Err(e) => {
                    &&& !old(self).cached(entity_id)
                    &&& final(self).registry() == old(self).registry()
                    &&& ((e == OrderError::JournalReadFailure && old(self).journal_may_fail()) || (
                    e == OrderError::EventNotApplicable && !old(self).replayed(entity_id).2))
                },
            },
    {
        if self.orders.contains_key(&entity_id) {
            let entity = self.orders.remove(&entity_id).unwrap();
            Ok(entity)
        } else {
            let events = match self.events_journal.retrieve_events(entity_id) {
                Ok(events) => events,
                Err(e) => {
                    return Err(e);
                },
            };
            let mut entity = OrderEntity::default();
            match entity.restore_from_events(events) {
                Ok(_) => {},
                Err(e) => {
                    return Err(e);
                },
            }
            proof {
                assert(self.registry() =~= self.registry().remove(entity_id));
            }
            Ok(entity)
        }
    }

    /// Dispatch a built command on an aggregate taken out of the registry,
    /// persist the produced event, and put the aggregate back.
    fn finish_command(
        &mut self,
        entity_id: i64,
        entity: OrderEntity,
        build: Result<OrderEntityCommand, OrderError>,
    ) -> (r: Result<(OrderState, Vec<SequencedEvent<OrderEvent>>), OrderError>)
        requires
            entity@.seq < i64::MAX,
            !old(self).cached(entity_id),
        ensures
            Self::same_deps(*old(self), *final(self)),
            forall|other: i64|
                other != entity_id ==> final(self).journal_of(other) == old(self).journal_of(other),
            forall|other: i64|
                other != entity_id ==> final(self).cached(other) == old(self).cached(other) && (
                old(self).cached(other) ==> final(self).registry()[other] == old(
                    self,
                ).registry()[other]),
            final(self).cached(entity_id),
            match step_entity(entity@, build_view(build)) {
                Err(expected) => {
                    &&& r matches Err(e) && e == expected
                    &&& final(self).entity_at(entity_id) == entity@
                    &&& final(self).journal_of(entity_id) == old(self).journal_of(entity_id)
                },
                Ok(sp) => {
                    &&& final(self).entity_at(entity_id) == sp.0
                    &&& match r {
                        Ok(p) => p.0@ == sp.0.state && views_of(p.1@) == seq![sp.1]
                            && final(self).journal_of(entity_id) == old(self).journal_of(
                            entity_id,
                        ).push(sp.1)
                            && !has_sequence(old(self).journal_of(entity_id), sp.1.0),
                        Err(e) => (e == OrderError::JournalWriteFailure || e
                            == OrderError::DuplicateSequence) && (e
                            == OrderError::JournalWriteFailure ==> old(self).journal_may_fail())
                            && (e == OrderError::DuplicateSequence ==> has_sequence(
                            old(self).journal_of(entity_id),
                            sp.1.0,
                        )) && final(self).journal_of(entity_id) == old(self).journal_of(entity_id),
                    }
                    &&& has_sequence(old(self).journal_of(entity_id), sp.1.0) ==> r is Err
                },
            },
    {
        let mut entity = entity;
        let ghost entity_pre = entity@;
        let entity_command = match build {
            Ok(command) => command,
            Err(e) => {
                self.orders.insert(entity_id, entity);
                return Err(e);
            },
        };
        let result = entity.handle_command(entity_command);
        match result {
            Ok((state, events)) => {
                let persist_result = self.events_journal.persist_event(entity_id, &events[0]);
                self.orders.insert(entity_id, entity);
                match persist_result {
                    Ok(()) => {
                        proof {
                            if let Ok(sp) = step_entity(entity_pre, build_view(build)) {
                                assert(views_of(events@).len() == 1);
                                assert(views_of(events@)[0] == events@[0]@);
                                assert(views_of(events@) =~= seq![sp.1]);
                            }
                        }
                        Ok((state, events))
                    },
                    Err(e) => Err(e),
                }
            },
            Err(e) => {
                self.orders.insert(entity_id, entity);
                Err(e)
            },
        }
    }

    /// Replace the order's cart. Before an address exists the cart is
    /// recorded as given; once an address exists it is re-priced against
    /// that address; a completed order rejects the change.
    pub fn update_cart(&mut self, cmd: UpdateCart) -> (r: Result<
        (OrderState, Vec<SequencedEvent<OrderEvent>>),
        OrderError,
    >)
        requires
            old(self).entity_at(cmd.order_id).seq < i64::MAX,
        ensures
            Self::command_outcome(
                *old(self),
                *final(self),
                cmd.order_id,
                cart_command_view(
                    old(self).shipping(),
                    old(self).tax(),
                    old(self).entity_at(cmd.order_id).state,
                    cmd.cart@,
                ),
                r,
            ),
    {
        let entity_id = cmd.order_id;
        let entity = match self.take_entity(entity_id) {
            Ok(entity) => entity,
            Err(e) => {
                return Err(e);
            },
        };
        let build = build_cart_command(
            entity.get_state(),
            cmd.cart,
            &self.shipping_calculator,
            &self.tax_calculator,
        );
        self.finish_command(entity_id, entity, build)
    }

    /// Set or replace the order's delivery address, with shipping and tax
    /// computed against the cart already recorded.
    pub fn update_delivery_address(&mut self, cmd: UpdateDeliveryAddress) -> (r: Result<
        (OrderState, Vec<SequencedEvent<OrderEvent>>),
        OrderError,
    >)
        requires
            old(self).entity_at(cmd.order_id).seq < i64::MAX,
        ensures
            Self::command_outcome(
                *old(self),
                *final(self),
                cmd.order_id,
                address_command_view(
                    old(self).shipping(),
                    old(self).tax(),
                    old(self).entity_at(cmd.order_id).state,
                    cmd.delivery_address@,
                ),
                r,
            ),
    {
        let entity_id = cmd.order_id;
        let entity = match self.take_entity(entity_id) {
            Ok(entity) => entity,
            Err(e) => {
                return Err(e);
            },
        };
        let build = build_address_command(
            entity.get_state(),
            cmd.delivery_address,
            &self.shipping_calculator,
            &self.tax_calculator,
        );
        self.finish_command(entity_id, entity, build)
    }

    /// Pay the order: only an order holding an address is ready, and the
    /// invoice obtained for the token closes it.
    pub fn pay_order(&mut self, cmd: PayOrder) -> (r: Result<
        (OrderState, Vec<SequencedEvent<OrderEvent>>),
        OrderError,
    >)
        requires
            old(self).entity_at(cmd.order_id).seq < i64::MAX,
        ensures
            Self::command_outcome(
                *old(self),
                *final(self),
                cmd.order_id,
                pay_command_view(
                    old(self).payment(),
                    old(self).entity_at(cmd.order_id).state,
                    cmd.payment_token@,
                ),
                r,
            ),
    {
        let entity_id = cmd.order_id;
        let entity = match self.take_entity(entity_id) {
            Ok(entity) => entity,
            Err(e) => {
                return Err(e);
            },
        };
        let build = build_pay_command(
            entity.get_state(),
            cmd.payment_token,
            &self.payment_processor,
        );
        self.finish_command(entity_id, entity, build)
    }

    /// The current state of one order, admitting it to the registry on
    /// first touch; nothing is journalled.
    pub fn get_state(&mut self, entity_id: i64) -> (r: Result<OrderState, OrderError>)
        ensures
            Self::frame_except(*old(self), *final(self), entity_id),
            forall|other: i64| final(self).journal_of(other) == old(self).journal_of(other),
            match r {
                Ok(state) => {
                    &&& old(self).replay_ok(entity_id)
                    &&& state@ == old(self).entity_at(entity_id).state
                    &&& final(self).cached(entity_id)
                    &&& final(self).entity_at(entity_id) == old(self).entity_at(entity_id)
                },
                Err(e) => {
                    &&& !old(self).cached(entity_id)
                    &&& final(self).registry() == old(self).registry()
                    &&& ((e == OrderError::JournalReadFailure && old(self).journal_may_fail()) || (
                    e == OrderError::EventNotApplicable && !old(self).replayed(entity_id).2))
                },
            },
    {
        let entity = match self.take_entity(entity_id) {
            Ok(entity) => entity,
            Err(e) => {
                return Err(e);
            },
        };
        let state = entity.get_state().clone();
        self.orders.insert(entity_id, entity);
        Ok(state)
    }
}

} // verus!
