use orx_closure::{Capture, Closure};
use std::collections::HashMap;

type GetRes = fn(&Vec<i32>, usize) -> Result<i32, &'static str>;
type GetResRef = fn(&&Vec<i32>, usize) -> Result<i32, &'static str>;
type GetAgeOwned<'a> = fn(&HashMap<String, u32>, &'a str) -> Result<u32, String>;
type GetAgeRef<'a> = fn(&&'a HashMap<String, u32>, &'a str) -> Result<u32, String>;

fn make_owning_function(
    data: Vec<i32>,
) -> Closure<Vec<i32>, usize, Result<i32, &'static str>, GetRes> {
    let get: GetRes = |data, i| data.get(i).cloned().ok_or("it was None!!!");
    Capture(data).fun(get)
}

fn make_referencing_function(
    data: &Vec<i32>,
) -> Closure<&Vec<i32>, usize, Result<i32, &'static str>, GetResRef> {
    let get: GetResRef = |data, i| data.get(i).cloned().ok_or("it was None!!!");
    Capture(data).fun(get)
}

fn assert_higher_order_function<F: Fn(usize) -> Result<i32, &'static str>>(fun: F) {
    assert_eq!(Ok(0), fun(0));
    assert_eq!(Ok(3), fun(3));
    assert_eq!(Err("it was None!!!"), fun(13));
}

#[test]
fn closure_val_result_owning_higher_order_function() {
    let data = vec![0, 1, 2, 3, 4];

    let closure = make_owning_function(data);

    assert_eq!(Ok(0), closure.call(0));
    assert_eq!(Ok(3), closure.call(3));
    assert_eq!(Err("it was None!!!"), closure.call(13));
    assert_higher_order_function(closure.as_fn());

    let data = closure.into_captured_data();
    assert_eq!(5, data.len());
}

#[test]
fn closure_val_result_referencing_higher_order_function() {
    let data = vec![0, 1, 2, 3, 4];

    let closure = make_referencing_function(&data);

    assert_higher_order_function(closure.as_fn());

    let data = closure.into_captured_data();
    assert_eq!(5, data.len());
}

struct PeopleOwning<'a> {
    get_age: Closure<HashMap<String, u32>, &'a str, Result<u32, String>, GetAgeOwned<'a>>,
}
impl<'a> PeopleOwning<'a> {
    fn age_of(&self, empires: &'a str) -> Result<u32, String> {
        self.get_age.call(empires)
    }
}

struct PeopleReferencing<'a> {
    get_age: Closure<&'a HashMap<String, u32>, &'a str, Result<u32, String>, GetAgeRef<'a>>,
}
impl<'a> PeopleReferencing<'a> {
    fn age_of(&self, empires: &'a str) -> Result<u32, String> {
        self.get_age.call(empires)
    }
}

#[test]
fn closure_val_result_owning_field() {
    let map = HashMap::from_iter([(String::from("john"), 42), (String::from("doe"), 33)]);
    let get: GetAgeOwned = |m, p| m.get(p).cloned().ok_or_else(|| String::from("who???"));
    let people = PeopleOwning {
        get_age: Capture(map).fun(get),
    };

    assert_eq!(Ok(42), people.age_of("john"));
    // map is moved into the closure; only the closure can reach it now
    assert_eq!(Err(String::from("who???")), people.age_of("foo"));

    let map_back = people.get_age.into_captured_data();
    assert_eq!(2, map_back.len()); // map is moved out of the closure
}

#[test]
fn closure_val_result_referencing_field() {
    let map = HashMap::from_iter([(String::from("john"), 42), (String::from("doe"), 33)]);
    let get: GetAgeRef = |m, p| m.get(p).cloned().ok_or_else(|| String::from("who???"));
    let people = PeopleReferencing {
        get_age: Capture(&map).fun(get),
    };

    assert_eq!(Ok(42), people.age_of("john"));
    assert_eq!(2, map.len()); // map is only referenced by the closure
    assert_eq!(Err(String::from("who???")), people.age_of("foo"));
}
