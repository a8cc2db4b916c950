use crudkit_leptos::order::{Order, OrderBy, OrderByUpdateOptions};

fn entries(o: &OrderBy) -> Vec<(u64, Order)> {
    (0..o.len()).map(|i| o.get_index(i).unwrap()).collect()
}

#[test]
fn click_orders_by_field_alone_ascending() {
    let mut o = OrderBy::new();
    o.insert(1, Order::Desc);
    o.insert(2, Order::Asc);
    o.update(3, OrderByUpdateOptions { append: false });
    assert_eq!(entries(&o), vec![(3, Order::Asc)]);
}

#[test]
fn click_flips_direction() {
    let mut o = OrderBy::new();
    o.update(7, OrderByUpdateOptions { append: false });
    assert_eq!(o.get(7), Some(Order::Asc));
    o.update(7, OrderByUpdateOptions { append: false });
    assert_eq!(entries(&o), vec![(7, Order::Desc)]);
    o.update(7, OrderByUpdateOptions { append: false });
    assert_eq!(entries(&o), vec![(7, Order::Asc)]);
}

#[test]
fn appending_keeps_other_fields_in_place() {
    let mut o = OrderBy::new();
    o.insert(1, Order::Asc);
    o.insert(2, Order::Desc);
    o.insert(3, Order::Asc);
    o.update(2, OrderByUpdateOptions { append: true });
    assert_eq!(entries(&o), vec![(1, Order::Asc), (2, Order::Asc), (3, Order::Asc)]);
    o.update(4, OrderByUpdateOptions { append: true });
    assert_eq!(
        entries(&o),
        vec![(1, Order::Asc), (2, Order::Asc), (3, Order::Asc), (4, Order::Asc)]
    );
}

#[test]
fn appending_twice_restores() {
    let mut o = OrderBy::new();
    o.insert(1, Order::Asc);
    o.insert(2, Order::Desc);
    let before = entries(&o);
    o.update(2, OrderByUpdateOptions { append: true });
    o.update(2, OrderByUpdateOptions { append: true });
    assert_eq!(entries(&o), before);
}

#[test]
fn duplicate_copies_entries() {
    let mut o = OrderBy::new();
    o.insert(5, Order::Desc);
    o.insert(2, Order::Asc);
    let d = o.duplicate();
    assert_eq!(entries(&d), entries(&o));
    assert_eq!(o.get(9), None);
    assert_eq!(o.get_index(2), None);
}

#[test]
fn two_clicks_on_a_new_field_append_it_descending() {
    let mut o = OrderBy::new();
    o.insert(1, Order::Asc);
    o.update(4, OrderByUpdateOptions { append: true });
    o.update(4, OrderByUpdateOptions { append: true });
    assert_eq!(o.len(), 2);
    assert_eq!(o.get_index(0), Some((1, Order::Asc)));
    assert_eq!(o.get_index(1), Some((4, Order::Desc)));
}
