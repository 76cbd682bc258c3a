use orx_closure::{Capture, Fun, FunOptRef, FunRef, FunResRef};
use std::collections::{hash_map::RandomState, HashMap};

#[test]
fn test_fun() {
    let get: fn(&Vec<String>, usize) -> String = |x, i| x[i].clone();
    let fun = Capture(vec!["john".to_string(), "doe".to_string()]).fun(get);
    validate_fun(fun);

    let get: fn(&[String; 2], usize) -> String = |x, i| x[i].clone();
    let fun = Capture(["john".to_string(), "doe".to_string()]).fun(get);
    validate_fun(fun);

    let map: HashMap<usize, String, RandomState> =
        HashMap::from_iter([(0usize, "john".to_string()), (1, "doe".to_string())].into_iter());
    let get: fn(&HashMap<usize, String>, usize) -> String = |x, i| x.get(&i).unwrap().clone();
    let fun = Capture(map).fun(get);
    validate_fun(fun);
}
fn validate_fun<F: Fun<usize, String>>(fun: F) {
    assert_eq!(String::from("john"), fun.call(0));
    assert_eq!(String::from("doe"), fun.call(1));
}

#[test]
fn test_funref() {
    let get: fn(&Vec<String>, usize) -> &str = |x, i| x[i].as_str();
    let fun = Capture(vec!["john".to_string(), "doe".to_string()]).fun_ref(get);
    validate_fun_ref(fun);

    let get: fn(&[String; 2], usize) -> &str = |x, i| x[i].as_str();
    let fun = Capture(["john".to_string(), "doe".to_string()]).fun_ref(get);
    validate_fun_ref(fun);

    let map: HashMap<usize, String, RandomState> =
        HashMap::from_iter([(0usize, "john".to_string()), (1, "doe".to_string())].into_iter());
    let get: fn(&HashMap<usize, String>, usize) -> &str = |x, i| x.get(&i).unwrap().as_str();
    let fun = Capture(map).fun_ref(get);
    validate_fun_ref(fun);
}
fn validate_fun_ref<F: FunRef<usize, str>>(fun: F) {
    assert_eq!("john", fun.call(0));
    assert_eq!("doe", fun.call(1));
}

#[test]
fn test_funoptref() {
    let get: fn(&Vec<String>, usize) -> Option<&str> = |x, i| x.get(i).map(|x| x.as_str());
    let fun = Capture(vec!["john".to_string(), "doe".to_string()]).fun_option_ref(get);
    validate_fun_opt_ref(fun);

    let get: fn(&[String; 2], usize) -> Option<&str> = |x, i| x.get(i).map(|x| x.as_str());
    let fun = Capture(["john".to_string(), "doe".to_string()]).fun_option_ref(get);
    validate_fun_opt_ref(fun);

    let map: HashMap<usize, String, RandomState> =
        HashMap::from_iter([(0usize, "john".to_string()), (1, "doe".to_string())].into_iter());
    let get: fn(&HashMap<usize, String>, usize) -> Option<&str> =
        |x, i| x.get(&i).map(|x| x.as_str());
    let fun = Capture(map).fun_option_ref(get);
    validate_fun_opt_ref(fun);
}
fn validate_fun_opt_ref<F: FunOptRef<usize, str>>(fun: F) {
    assert_eq!(Some("john"), fun.call(0));
    assert_eq!(Some("doe"), fun.call(1));
    assert_eq!(None, fun.call(2));
}

#[test]
fn test_funresref() {
    let get: fn(&Vec<String>, usize) -> Result<&str, usize> =
        |x, i| x.get(i).map(|x| x.as_str()).ok_or(42);
    let fun = Capture(vec!["john".to_string(), "doe".to_string()]).fun_result_ref(get);
    validate_fun_res_ref(fun);

    let get: fn(&[String; 2], usize) -> Result<&str, usize> =
        |x, i| x.get(i).map(|x| x.as_str()).ok_or(42);
    let fun = Capture(["john".to_string(), "doe".to_string()]).fun_result_ref(get);
    validate_fun_res_ref(fun);

    let map: HashMap<usize, String, RandomState> =
        HashMap::from_iter([(0usize, "john".to_string()), (1, "doe".to_string())].into_iter());
    let get: fn(&HashMap<usize, String>, usize) -> Result<&str, usize> =
        |x, i| x.get(&i).map(|x| x.as_str()).ok_or(42);
    let fun = Capture(map).fun_result_ref(get);
    validate_fun_res_ref(fun);
}
fn validate_fun_res_ref<F: FunResRef<usize, str, usize>>(fun: F) {
    assert_eq!(Ok("john"), fun.call(0));
    assert_eq!(Ok("doe"), fun.call(1));
    assert_eq!(Err(42), fun.call(2));
}
