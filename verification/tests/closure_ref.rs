use orx_closure::{Capture, ClosureRef, ClosureResRefOneOf2};
use std::collections::HashMap;

type Toy = String;
type MyErr = &'static str;

struct Cat {
    name: String,
    favorite_toys: Vec<Toy>,
}
struct Dog {
    name: String,
    nickname: String,
    favorite_toys: Vec<Toy>,
}

type CatFun<'a> = for<'d> fn(&'d Vec<Cat>, &'a str) -> Result<&'d [Toy], MyErr>;
type DogFun<'a> = for<'d> fn(&'d Vec<Dog>, &'a str) -> Result<&'d [Toy], MyErr>;

struct PresentIdeas<'a> {
    // for cats or dogs
    for_pet: ClosureResRefOneOf2<Vec<Cat>, Vec<Dog>, &'a str, [Toy], MyErr, CatFun<'a>, DogFun<'a>>,
}

#[test]
fn ex() {
    // cats
    let cats = vec![Cat {
        name: "bella".to_string(),
        favorite_toys: vec!["ball".to_string()],
    }];
    let cat_fun: CatFun = |cats, name| {
        cats.iter()
            .find(|cat| cat.name == name)
            .map(|cat| cat.favorite_toys.as_slice())
            .ok_or("pet name is absent")
    };
    let present_ideas = PresentIdeas {
        for_pet: Capture(cats).fun_result_ref(cat_fun).into_oneof2_var1(),
    };

    assert_eq!(
        Ok(vec!["ball".to_string()].as_slice()),
        present_ideas.for_pet.call("bella")
    );
    assert_eq!(
        Err("pet name is absent"),
        present_ideas.for_pet.call("luna")
    );

    // dogs
    let dogs = vec![Dog {
        name: "luke".to_string(),
        nickname: "dogzilla".to_string(),
        favorite_toys: vec!["toy turtle".to_string()],
    }];
    let dog_fun: DogFun = |dogs, name| {
        dogs.iter()
            .find(|dog| dog.name == name || dog.nickname == name)
            .map(|dog| dog.favorite_toys.as_slice())
            .ok_or("pet name is absent")
    };
    let present_ideas = PresentIdeas {
        for_pet: Capture(dogs).fun_result_ref(dog_fun).into_oneof2_var2(),
    };
    assert_eq!(
        Ok(vec!["toy turtle".to_string()].as_slice()),
        present_ideas.for_pet.call("luke")
    );
    assert_eq!(
        Ok(vec!["toy turtle".to_string()].as_slice()),
        present_ideas.for_pet.call("dogzilla")
    );
    assert_eq!(Err("pet name is absent"), present_ideas.for_pet.call("tux"));
}

type GetRef = fn(&Vec<i32>, usize) -> &i32;
type GetRefRef = for<'d> fn(&'d &Vec<i32>, usize) -> &'d i32;
type GetAgeOwned<'a> = for<'d> fn(&'d HashMap<String, u32>, &'a str) -> &'d u32;
type GetAgeRef<'a> = for<'d> fn(&'d &'a HashMap<String, u32>, &'a str) -> &'d u32;

fn make_owning_function(data: Vec<i32>) -> ClosureRef<Vec<i32>, usize, i32, GetRef> {
    let get: GetRef = |data, i| &data[i];
    Capture(data).fun_ref(get)
}

fn make_referencing_function(data: &Vec<i32>) -> ClosureRef<&Vec<i32>, usize, i32, GetRefRef> {
    let get: GetRefRef = |data, i| &data[i];
    Capture(data).fun_ref(get)
}

#[test]
fn closure_ref_owning_higher_order_function() {
    let data = vec![0, 1, 2, 3, 4];

    let closure = make_owning_function(data);

    assert_eq!(&0, closure.call(0));
    assert_eq!(&3, closure.call(3));

    let data = closure.into_captured_data();
    assert_eq!(5, data.len());
}

#[test]
fn closure_ref_referencing_higher_order_function() {
    let data = vec![0, 1, 2, 3, 4];

    let closure = make_referencing_function(&data);

    assert_eq!(&0, closure.call(0));
    assert_eq!(&3, closure.call(3));

    let data = closure.into_captured_data();
    assert_eq!(5, data.len());
}

struct PeopleOwning<'a> {
    get_age: ClosureRef<HashMap<String, u32>, &'a str, u32, GetAgeOwned<'a>>,
}
impl<'a> PeopleOwning<'a> {
    fn age_of(&self, empires: &'a str) -> &u32 {
        self.get_age.call(empires)
    }
}

struct PeopleReferencing<'a> {
    get_age: ClosureRef<&'a HashMap<String, u32>, &'a str, u32, GetAgeRef<'a>>,
}
impl<'a> PeopleReferencing<'a> {
    fn age_of(&self, empires: &'a str) -> &u32 {
        self.get_age.call(empires)
    }
}

#[test]
fn closure_ref_owning_field() {
    let map =
        HashMap::from_iter([(String::from("john"), 42), (String::from("doe"), 33)].into_iter());
    let get: GetAgeOwned = |m, p| m.get(p).unwrap_or(&0);
    let people = PeopleOwning {
        get_age: Capture(map).fun_ref(get),
    };

    assert_eq!(&42, people.age_of("john"));
    // map is moved into the closure; only the closure can reach it now
    assert_eq!(&0, people.age_of("foo"));

    let map_back = people.get_age.into_captured_data();
    assert_eq!(2, map_back.len()); // map is moved out of the closure
}

#[test]
fn closure_ref_referencing_field() {
    let map =
        HashMap::from_iter([(String::from("john"), 42), (String::from("doe"), 33)].into_iter());
    let get: GetAgeRef = |m, p| m.get(p).unwrap_or(&0);
    let people = PeopleReferencing {
        get_age: Capture(&map).fun_ref(get),
    };

    assert_eq!(&42, people.age_of("john"));
    assert_eq!(2, map.len()); // map is only referenced by the closure
    assert_eq!(&0, people.age_of("foo"));
}
