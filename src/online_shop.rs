use std::marker::PhantomData;
use vstd::prelude::*;

verus! {

/// Marker for a customer who is looking around with an empty cart.
pub struct Browsing;

/// Marker for a customer who is adding items to the cart and removing them.
pub struct Shopping;

/// Marker for a customer who is paying.
pub struct Checkout;

/// The logical state of a customer. `Left` is the end of the flow, which no
/// value represents: the operations that reach it consume the customer.
pub enum Stage {
    Browsing,
    Shopping,
    Checkout,
    Left,
}

/// The operations of the flow, with their arguments.
pub enum Action {
    Leave,
    AddItem(u8),
    PopItem,
    ClearCart,
    ProceedToCheckout,
    CancelCheckout,
    FinalisePayment,
}

/// The cart without its last item; an empty cart stays empty.
pub open spec fn without_last(cart: Seq<u8>) -> Seq<u8> {
    if cart.len() > 0 {
        cart.drop_last()
    } else {
        cart
    }
}

/// The transition table: the state and cart after `action`, or `None` where
/// the action is not legal in `stage`.
pub open spec fn transition(stage: Stage, cart: Seq<u8>, action: Action) -> Option<(Stage, Seq<u8>)> {
    match (stage, action) {
        (Stage::Browsing, Action::Leave) => Some((Stage::Left, cart)),
        (Stage::Browsing, Action::AddItem(item)) => Some((Stage::Shopping, cart.push(item))),
        (Stage::Shopping, Action::AddItem(item)) => Some((Stage::Shopping, cart.push(item))),
        (Stage::Shopping, Action::PopItem) => Some((Stage::Shopping, without_last(cart))),
        (Stage::Shopping, Action::ClearCart) => Some((Stage::Browsing, Seq::empty())),
        (Stage::Shopping, Action::ProceedToCheckout) => Some((Stage::Checkout, cart)),
        (Stage::Checkout, Action::CancelCheckout) => Some((Stage::Shopping, cart)),
        (Stage::Checkout, Action::FinalisePayment) => Some((Stage::Left, cart)),
        _ => None,
    }
}

/// The state and cart after `actions` in order, or `None` where one of them is
/// not legal in the state it meets.
pub open spec fn run(stage: Stage, cart: Seq<u8>, actions: Seq<Action>) -> Option<(Stage, Seq<u8>)>
    decreases actions.len(),
{
    if actions.len() == 0 {
        Some((stage, cart))
    } else {
        match run(stage, cart, actions.drop_last()) {
            Some((s, c)) => transition(s, c, actions.last()),
            None => None,
        }
    }
}

/// What `action` does to a plain sequence of items: append, remove the last,
/// empty it, or leave it as it is.
pub open spec fn replay_one(cart: Seq<u8>, action: Action) -> Seq<u8> {
    match action {
        Action::AddItem(item) => cart.push(item),
        Action::PopItem => without_last(cart),
        Action::ClearCart => Seq::empty(),
        _ => cart,
    }
}

/// `actions` replayed in order on a plain sequence of items.
pub open spec fn replay(cart: Seq<u8>, actions: Seq<Action>) -> Seq<u8>
    decreases actions.len(),
{
    if actions.len() == 0 {
        cart
    } else {
        replay_one(replay(cart, actions.drop_last()), actions.last())
    }
}

/// For every sequence of legal operations, the cart ends as the same
/// operations replayed in order on a plain sequence: append, remove the last,
/// empty.
pub proof fn lemma_cart_follows_replay(stage: Stage, cart: Seq<u8>, actions: Seq<Action>)
    requires
        run(stage, cart, actions) is Some,
    ensures
        run(stage, cart, actions).unwrap().1 == replay(cart, actions),
    decreases actions.len(),
{
    if actions.len() > 0 {
        lemma_cart_follows_replay(stage, cart, actions.drop_last());
    }
}

/// Popping from an empty cart is legal, keeps the customer shopping, and
/// leaves the cart empty.
pub proof fn lemma_pop_empty_cart()
    ensures
        transition(Stage::Shopping, Seq::empty(), Action::PopItem) == Some((Stage::Shopping, Seq::<u8>::empty())),
{
}

/// Adding an item and popping right after leaves the cart as it was before
/// the item was added.
pub proof fn lemma_add_then_pop(stage: Stage, cart: Seq<u8>, item: u8)
    requires
        stage is Browsing || stage is Shopping,
    ensures
        run(stage, cart, seq![Action::AddItem(item), Action::PopItem]) == Some((Stage::Shopping, cart)),
{
    let actions = seq![Action::AddItem(item), Action::PopItem];
    let first = actions.drop_last();
    assert(first.drop_last() =~= Seq::<Action>::empty());
    assert(first.last() == Action::AddItem(item));
    assert(run(stage, cart, first.drop_last()) == Some((stage, cart)));
    assert(run(stage, cart, first) == Some((Stage::Shopping, cart.push(item))));
    assert(cart.push(item).drop_last() =~= cart);
}

/// Clearing the cart always leaves it empty, whatever it held.
pub proof fn lemma_clear_empties(cart: Seq<u8>)
    ensures
        transition(Stage::Shopping, cart, Action::ClearCart) == Some((Stage::Browsing, Seq::<u8>::empty())),
{
}

/// Going to checkout and cancelling it is a round trip: the customer is
/// shopping again, with the same cart.
pub proof fn lemma_checkout_round_trip(cart: Seq<u8>)
    ensures
        run(Stage::Shopping, cart, seq![Action::ProceedToCheckout, Action::CancelCheckout]) == Some((Stage::Shopping, cart)),
{
    let actions = seq![Action::ProceedToCheckout, Action::CancelCheckout];
    let first = actions.drop_last();
    assert(first.drop_last() =~= Seq::<Action>::empty());
    assert(first.last() == Action::ProceedToCheckout);
    assert(run(Stage::Shopping, cart, first.drop_last()) == Some((Stage::Shopping, cart)));
    assert(run(Stage::Shopping, cart, first) == Some((Stage::Checkout, cart)));
}

/// Each state admits exactly the operations of its row in the table, and the
/// end of the flow admits none.
pub proof fn lemma_legal_actions(cart: Seq<u8>, action: Action)
    ensures
        transition(Stage::Browsing, cart, action) is Some <==> (action is Leave || action is AddItem),
        transition(Stage::Shopping, cart, action) is Some <==> (action is AddItem || action is PopItem
            || action is ClearCart || action is ProceedToCheckout),
        transition(Stage::Checkout, cart, action) is Some <==> (action is CancelCheckout
            || action is FinalisePayment),
        transition(Stage::Left, cart, action) is None,
{
}

/// The online shop customer. The marker `S` is the state of the flow; each
/// state offers only the operations that are legal in it, and every operation
/// consumes the value it is called on.
#[verifier::reject_recursive_types(S)]
pub struct Customer<S> {
    shopping_cart: Vec<u8>,
    _inner: PhantomData<S>,
}

impl<S> View for Customer<S> {
    type V = Seq<u8>;

    /// The items in the cart, in the order they were added.
    closed spec fn view(&self) -> Seq<u8> {
        self.shopping_cart@
    }
}

impl<S> Customer<S> {
    /// The items in the cart, in the order they were added.
    pub fn cart(&self) -> (r: &[u8])
        ensures
            r@ == self@,
    {
        self.shopping_cart.as_slice()
    }
}

impl Customer<Browsing> {
    /// The only entry point of the flow: a browsing customer with an empty cart.
    pub fn visit_site() -> (r: Self)
        ensures
            r@ == Seq::<u8>::empty(),
    {
        Customer { shopping_cart: Vec::new(), _inner: PhantomData }
    }

    /// Ends the flow without buying anything.
    pub fn leave(self)
        ensures
            transition(Stage::Browsing, self@, Action::Leave) == Some((Stage::Left, self@)),
    {
    }

    /// Puts the first item in the cart: "Browsing" -> "Shopping".
    pub fn add_item(self, item: u8) -> (r: Customer<Shopping>)
        ensures
            r@ == self@.push(item),
            transition(Stage::Browsing, self@, Action::AddItem(item)) == Some((Stage::Shopping, r@)),
    {
        let mut shopping_cart = self.shopping_cart;
        shopping_cart.push(item);
        Customer { shopping_cart, _inner: PhantomData }
    }
}

impl Customer<Shopping> {
    /// Appends an item to the cart: "Shopping" -> "Shopping".
    pub fn add_item(self, item: u8) -> (r: Self)
        ensures
            r@ == self@.push(item),
            transition(Stage::Shopping, self@, Action::AddItem(item)) == Some((Stage::Shopping, r@)),
    {
        let mut s = self;
        s.shopping_cart.push(item);
        s
    }

    /// Removes the last item of the cart, if there is one: "Shopping" -> "Shopping".
    pub fn pop_item(self) -> (r: Self)
        ensures
            r@ == without_last(self@),
            self@.len() == 0 ==> r@ == self@,
            transition(Stage::Shopping, self@, Action::PopItem) == Some((Stage::Shopping, r@)),
    {
        let mut s = self;
        let _ = s.shopping_cart.pop();
        s
    }

    /// Empties the cart: "Shopping" -> "Browsing".
    pub fn clear_cart(self) -> (r: Customer<Browsing>)
        ensures
            r@ == Seq::<u8>::empty(),
            transition(Stage::Shopping, self@, Action::ClearCart) == Some((Stage::Browsing, r@)),
    {
        let mut shopping_cart = self.shopping_cart;
        shopping_cart.clear();
        Customer { shopping_cart, _inner: PhantomData }
    }

    /// Goes to pay, with the cart as it is: "Shopping" -> "Checkout".
    pub fn proceed_to_checkout(self) -> (r: Customer<Checkout>)
        ensures
            r@ == self@,
            transition(Stage::Shopping, self@, Action::ProceedToCheckout) == Some((Stage::Checkout, r@)),
    {
        Customer { shopping_cart: self.shopping_cart, _inner: PhantomData }
    }
}

impl Customer<Checkout> {
    /// Goes back to shopping, with the cart as it is: "Checkout" -> "Shopping".
    pub fn cancel_checkout(self) -> (r: Customer<Shopping>)
        ensures
            r@ == self@,
            transition(Stage::Checkout, self@, Action::CancelCheckout) == Some((Stage::Shopping, r@)),
    {
        Customer { shopping_cart: self.shopping_cart, _inner: PhantomData }
    }

    /// Pays for the items in the cart and ends the flow.
    pub fn finalise_payment(self)
        ensures
            transition(Stage::Checkout, self@, Action::FinalisePayment) == Some((Stage::Left, self@)),
    {
    }
}

} // verus!
