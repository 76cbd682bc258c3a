use orx_closure::{Capture, Closure};
use std::collections::HashMap;

type GetOpt = fn(&Vec<i32>, usize) -> Option<i32>;
type GetOptRef = fn(&&Vec<i32>, usize) -> Option<i32>;
type GetAgeOwned<'a> = fn(&HashMap<String, u32>, &'a str) -> Option<u32>;
type GetAgeRef<'a> = fn(&&'a HashMap<String, u32>, &'a str) -> Option<u32>;

fn make_owning_function(data: Vec<i32>) -> Closure<Vec<i32>, usize, Option<i32>, GetOpt> {
    let get: GetOpt = |data, i| data.get(i).cloned();
    Capture(data).fun(get)
}

fn make_referencing_function(data: &Vec<i32>) -> Closure<&Vec<i32>, usize, Option<i32>, GetOptRef> {
    let get: GetOptRef = |data, i| data.get(i).cloned();
    Capture(data).fun(get)
}

fn assert_higher_order_function<F: Fn(usize) -> Option<i32>>(fun: F) {
    assert_eq!(Some(0), fun(0));
    assert_eq!(Some(3), fun(3));
    assert_eq!(None, fun(13));
}

#[test]
fn closure_val_options_owning_higher_order_function() {
    let data = vec![0, 1, 2, 3, 4];

    let closure = make_owning_function(data);

    assert_eq!(Some(0), closure.call(0));
    assert_eq!(Some(3), closure.call(3));
    assert_eq!(None, closure.call(13));
    assert_higher_order_function(closure.as_fn());

    let data = closure.into_captured_data();
    assert_eq!(5, data.len());
}

#[test]
fn closure_val_options_referencing_higher_order_function() {
    let data = vec![0, 1, 2, 3, 4];

    let closure = make_referencing_function(&data);

    assert_higher_order_function(closure.as_fn());

    let data = closure.into_captured_data();
    assert_eq!(5, data.len());
}

struct PeopleOwning<'a> {
    get_age: Closure<HashMap<String, u32>, &'a str, Option<u32>, GetAgeOwned<'a>>,
}
impl<'a> PeopleOwning<'a> {
    fn age_of(&self, empires: &'a str) -> Option<u32> {
        self.get_age.call(empires)
    }
}

struct PeopleReferencing<'a> {
    get_age: Closure<&'a HashMap<String, u32>, &'a str, Option<u32>, GetAgeRef<'a>>,
}
impl<'a> PeopleReferencing<'a> {
    fn age_of(&self, empires: &'a str) -> Option<u32> {
        self.get_age.call(empires)
    }
}

#[test]
fn closure_val_options_owning_field() {
    let map =
        HashMap::from_iter([(String::from("john"), 42), (String::from("doe"), 33)].into_iter());
    let get: GetAgeOwned = |m, p| m.get(p).cloned();
    let people = PeopleOwning {
        get_age: Capture(map).fun(get),
    };

    assert_eq!(Some(42), people.age_of("john"));
    // map is moved into the closure; only the closure can reach it now
    assert_eq!(None, people.age_of("foo"));

    let map_back = people.get_age.into_captured_data();
    assert_eq!(2, map_back.len()); // map is moved out of the closure
}

#[test]
fn closure_val_options_referencing_field() {
    let map =
        HashMap::from_iter([(String::from("john"), 42), (String::from("doe"), 33)].into_iter());
    let get: GetAgeRef = |m, p| m.get(p).cloned();
    let people = PeopleReferencing {
        get_age: Capture(&map).fun(get),
    };

    assert_eq!(Some(42), people.age_of("john"));
    assert_eq!(2, map.len()); // map is only referenced by the closure
    assert_eq!(None, people.age_of("foo"));
}
