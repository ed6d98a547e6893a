use stated::online_shop::{Browsing, Customer, Shopping};

#[test]
fn visit_site_starts_with_empty_cart() {
    let browsing = Customer::visit_site();
    assert!(browsing.cart().is_empty());
}

#[test]
fn first_add_item_moves_to_shopping() {
    let shopping: Customer<Shopping> = Customer::visit_site().add_item(7);
    assert_eq!(shopping.cart(), &[7]);
}

#[test]
fn add_item_appends_in_order_with_duplicates() {
    let shopping = Customer::visit_site().add_item(5).add_item(9).add_item(5);
    assert_eq!(shopping.cart(), &[5, 9, 5]);
}

#[test]
fn add_item_takes_the_largest_item() {
    let shopping = Customer::visit_site().add_item(255).add_item(0);
    assert_eq!(shopping.cart(), &[255, 0]);
}

#[test]
fn pop_item_removes_last() {
    let shopping = Customer::visit_site().add_item(1).add_item(2).add_item(3).pop_item();
    assert_eq!(shopping.cart(), &[1, 2]);
}

#[test]
fn pop_item_on_empty_cart_is_a_no_op() {
    let shopping = Customer::visit_site().add_item(4).pop_item();
    assert!(shopping.cart().is_empty());
    let shopping = shopping.pop_item().pop_item();
    assert!(shopping.cart().is_empty());
    let shopping = shopping.add_item(8);
    assert_eq!(shopping.cart(), &[8]);
}

#[test]
fn add_then_pop_leaves_cart_unchanged() {
    let shopping = Customer::visit_site().add_item(10).add_item(11);
    let before = shopping.cart().to_vec();
    let shopping = shopping.add_item(12).pop_item();
    assert_eq!(shopping.cart(), before.as_slice());
}

#[test]
fn clear_cart_empties_and_returns_to_browsing() {
    let browsing: Customer<Browsing> =
        Customer::visit_site().add_item(1).add_item(2).add_item(3).clear_cart();
    assert!(browsing.cart().is_empty());
    let shopping = browsing.add_item(6);
    assert_eq!(shopping.cart(), &[6]);
}

#[test]
fn clear_cart_after_popping_everything() {
    let browsing = Customer::visit_site().add_item(1).pop_item().clear_cart();
    assert!(browsing.cart().is_empty());
    browsing.leave();
}

#[test]
fn checkout_then_cancel_is_a_round_trip() {
    let shopping = Customer::visit_site().add_item(3).add_item(4);
    let checkout = shopping.proceed_to_checkout();
    assert_eq!(checkout.cart(), &[3, 4]);
    let shopping: Customer<Shopping> = checkout.cancel_checkout();
    assert_eq!(shopping.cart(), &[3, 4]);
    let shopping = shopping.add_item(5);
    assert_eq!(shopping.cart(), &[3, 4, 5]);
}

#[test]
fn cart_follows_plain_replay() {
    let mut plain: Vec<u8> = Vec::new();
    let shopping = Customer::visit_site().add_item(1);
    plain.push(1);
    let shopping = shopping.add_item(2).pop_item().pop_item().pop_item();
    plain.push(2);
    plain.pop();
    plain.pop();
    plain.pop();
    assert_eq!(shopping.cart(), plain.as_slice());
    let shopping = shopping.add_item(3).proceed_to_checkout().cancel_checkout().add_item(4);
    plain.push(3);
    plain.push(4);
    assert_eq!(shopping.cart(), plain.as_slice());
    let browsing = shopping.clear_cart();
    plain.clear();
    assert_eq!(browsing.cart(), plain.as_slice());
}

#[test]
fn leave_right_away() {
    let browsing = Customer::visit_site();
    browsing.leave();
}

#[test]
fn demonstration_flow_ends_with_twenty_and_hundred() {
    let browsing = Customer::visit_site();
    let mut shopping = browsing.add_item(20);
    assert_eq!(shopping.cart(), &[20]);
    let expected: [&[u8]; 5] = [&[20, 42], &[20, 42, 36], &[20, 42], &[20], &[20, 100]];
    for (item, want) in [42u8, 36, 13, 71, 100].iter().zip(expected.iter()) {
        if item % 2 == 0 {
            shopping = shopping.add_item(*item);
        } else {
            shopping = shopping.pop_item();
        }
        assert_eq!(shopping.cart(), *want);
    }
    let checkout = shopping.proceed_to_checkout();
    assert_eq!(checkout.cart(), &[20, 100]);
    checkout.finalise_payment();
}
