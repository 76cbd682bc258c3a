use orx_closure::Capture;
use std::collections::HashMap;

#[test]
fn test_debug() {
    let map = HashMap::<char, usize>::from_iter([('a', 1), ('b', 2)]);
    let f: fn(&&HashMap<char, usize>, char) -> usize = |map, c| *map.get(&c).unwrap_or(&42);
    let fun = Capture(&map).fun(f);

    let dbg_map = format!("Closure {{ capture: {:?} }}", map);
    let dbg_fun = fun.debug_string();

    assert_eq!(dbg_map, dbg_fun)
}
