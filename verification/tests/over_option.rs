use std::cell::Cell;

use option_t::OptionT;

fn upper(s: String) -> String {
    s.to_uppercase()
}

#[test]
fn test_option_option_fmap() {
    let oo = Some(Some(String::from("a")));
    let ot1 = OptionT::from(oo);
    let ot2 = ot1.fmap(upper);
    assert_eq!(ot2.value, Some(Some(String::from("A"))))
}

#[test]
fn test_option_option_pure() {
    let o = Some("a");
    let p = OptionT::<Option<_>>::pure(o);
    assert_eq!(p.value, Some(Some("a")))
}

#[test]
fn option_option_apply() {
    let ot = OptionT::from(Some(Some("x")));
    assert_eq!(ot.value, Some(Some("x")));
}

#[test]
fn test_option_option_bind() {
    let ot1 = OptionT::from(Some(Some(String::from("a"))));
    let ot2 = ot1.bind(|o| OptionT::<Option<_>>::pure(Some(upper(o))));
    assert_eq!(ot2.value, Some(Some("A".to_string())))
}

#[test]
fn from_keeps_the_value_as_it_is() {
    let none: Option<Option<u8>> = None;
    assert_eq!(OptionT::from(none).value, None);
    assert_eq!(OptionT::from(Some(None::<u8>)).value, Some(None));
    assert_eq!(OptionT::from(7u8).value, 7u8);
}

#[test]
fn fmap_changes_the_value_held() {
    let x = OptionT::from(Some(Some(20u32)));
    assert_eq!(x.fmap(|a: u32| a + 1).value, Some(Some(21u32)));
}

#[test]
fn fmap_can_change_the_type() {
    let x = OptionT::from(Some(Some(31337u32)));
    assert_eq!(x.fmap(|a: u32| a.to_string()).value, Some(Some(String::from("31337"))));
}

#[test]
fn fmap_on_absence_stays_absent_and_calls_nothing() {
    let calls: Cell<u32> = Cell::new(0);
    let x = OptionT::from(Some(None::<String>));
    let y = x.fmap(|s: String| {
        calls.set(calls.get() + 1);
        upper(s)
    });
    assert_eq!(y.value, Some(None));
    assert_eq!(calls.get(), 0);
}

#[test]
fn fmap_on_an_empty_outer_layer_stays_empty_and_calls_nothing() {
    let calls: Cell<u32> = Cell::new(0);
    let x = OptionT::from(None::<Option<String>>);
    let y = x.fmap(|s: String| {
        calls.set(calls.get() + 1);
        upper(s)
    });
    assert_eq!(y.value, None);
    assert_eq!(calls.get(), 0);
}

#[test]
fn fmap_calls_the_function_once_on_a_value() {
    let calls: Cell<u32> = Cell::new(0);
    let x = OptionT::from(Some(Some(String::from("a"))));
    let y = x.fmap(|s: String| {
        calls.set(calls.get() + 1);
        upper(s)
    });
    assert_eq!(y.value, Some(Some(String::from("A"))));
    assert_eq!(calls.get(), 1);
}

#[test]
fn pure_of_none_is_absence_in_a_present_outer_layer() {
    let p = OptionT::<Option<Option<u8>>>::pure(None);
    assert_eq!(p.value, Some(None));
}

#[test]
fn pure_is_the_outer_lift_of_option() {
    let by_outer: Option<Option<u8>> = higher::Pure::pure(Some(5u8));
    assert_eq!(OptionT::<Option<_>>::pure(Some(5u8)).value, by_outer);
    let absent_by_outer: Option<Option<u8>> = higher::Pure::pure(None);
    assert_eq!(OptionT::<Option<Option<u8>>>::pure(None).value, absent_by_outer);
}

#[test]
fn bind_on_absence_stays_absent_and_calls_nothing() {
    let calls: Cell<u32> = Cell::new(0);
    let x = OptionT::from(Some(None::<String>));
    let y = x.bind(|s: String| {
        calls.set(calls.get() + 1);
        OptionT::<Option<_>>::pure(Some(upper(s)))
    });
    assert_eq!(y.value, Some(None));
    assert_eq!(calls.get(), 0);
}

#[test]
fn bind_on_an_empty_outer_layer_stays_empty_and_calls_nothing() {
    let calls: Cell<u32> = Cell::new(0);
    let x = OptionT::from(None::<Option<String>>);
    let y = x.bind(|s: String| {
        calls.set(calls.get() + 1);
        OptionT::<Option<_>>::pure(Some(upper(s)))
    });
    assert_eq!(y.value, None);
    assert_eq!(calls.get(), 0);
}

#[test]
fn bind_hands_on_what_the_continuation_gives() {
    let to_absent = OptionT::from(Some(Some(4u8))).bind(|_a: u8| OptionT::from(Some(None::<u8>)));
    assert_eq!(to_absent.value, Some(None));
    let to_empty = OptionT::from(Some(Some(4u8))).bind(|_a: u8| OptionT::from(None::<Option<u8>>));
    assert_eq!(to_empty.value, None);
    let to_value = OptionT::from(Some(Some(4u8))).bind(|a: u8| OptionT::from(Some(Some(a * 2))));
    assert_eq!(to_value.value, Some(Some(8u8)));
}

#[test]
fn bind_chains_checked_division() {
    let halve = |a: u32| OptionT::from(Some(a.checked_div(2)));
    let by_zero = |a: u32| OptionT::from(Some(a.checked_div(0)));
    let x = OptionT::from(Some(Some(16u32)));
    assert_eq!(x.bind(halve).bind(halve).value, Some(Some(4u32)));
    let y = OptionT::from(Some(Some(16u32)));
    assert_eq!(y.bind(by_zero).bind(halve).value, Some(None));
}

#[test]
fn apply_needs_both_the_function_and_the_value() {
    let add_two = |a: i32| a + 2;
    let both = OptionT::from(Some(Some(5i32))).apply(OptionT::from(Some(Some(add_two))));
    assert_eq!(both.value, Some(Some(7i32)));
    let no_value = OptionT::from(Some(None::<i32>)).apply(OptionT::from(Some(Some(add_two))));
    assert_eq!(no_value.value, Some(None));
    let no_function = OptionT::from(Some(Some(5i32))).apply(OptionT::from(Some(None::<fn(i32) -> i32>)));
    assert_eq!(no_function.value, Some(None));
    let neither = OptionT::from(Some(None::<i32>)).apply(OptionT::from(Some(None::<fn(i32) -> i32>)));
    assert_eq!(neither.value, Some(None));
}

#[test]
fn apply_on_an_empty_outer_layer_is_empty() {
    let add_two = |a: i32| a + 2;
    let no_outer_value = OptionT::from(None::<Option<i32>>).apply(OptionT::from(Some(Some(add_two))));
    assert_eq!(no_outer_value.value, None);
    let no_outer_function =
        OptionT::from(Some(Some(5i32))).apply(OptionT::from(None::<Option<fn(i32) -> i32>>));
    assert_eq!(no_outer_function.value, None);
}

#[test]
fn apply_calls_nothing_where_the_value_is_absent() {
    let calls: Cell<u32> = Cell::new(0);
    let counted = |a: i32| {
        calls.set(calls.get() + 1);
        a + 2
    };
    let r = OptionT::from(Some(None::<i32>)).apply(OptionT::from(Some(Some(&counted))));
    assert_eq!(r.value, Some(None));
    assert_eq!(calls.get(), 0);
    let s = OptionT::from(Some(Some(1i32))).apply(OptionT::from(Some(Some(&counted))));
    assert_eq!(s.value, Some(Some(3i32)));
    assert_eq!(calls.get(), 1);
}

#[test]
fn composed_values_compare_by_what_they_hold() {
    assert_eq!(OptionT::from(Some(Some(1u8))), OptionT::<Option<_>>::pure(Some(1u8)));
    assert_ne!(OptionT::from(Some(None::<u8>)), OptionT::from(None::<Option<u8>>));
    assert_eq!(format!("{:?}", OptionT::from(Some(Some(1u8)))), "OptionT { value: Some(Some(1)) }");
}
