use rcelery::decode::{JsonDecode, ToJson};
use rcelery::error::CeleryError;
use rcelery::handler::{
    dispatch_positional_sum, dispatch_positional_sum_in_task, make_handler, make_handler2, make_handler4, Callable,
    HandlerMap,
};
use rcelery::json::Json;
use rcelery::task::Task;
use rcelery::types::{Args, FromJson};

fn num(n: i128) -> Json {
    Json::Int(n)
}

fn object(entries: Vec<(&str, Json)>) -> Json {
    Json::Object(entries.into_iter().map(|(k, v)| (k.to_string(), v)).collect())
}

fn args_payload(items: Vec<Json>) -> Json {
    object(vec![("args", Json::Array(items))])
}

#[derive(Debug, PartialEq, Default)]
pub struct Point {
    pub x: u32,
    pub y: u32,
}

fn decode_point(val: &Json) -> Result<Point, CeleryError> {
    let x = match val.get("x") {
        Some(v) => u32::decode(v)?,
        None => return Err(CeleryError::InvalidParam("missing x".to_string())),
    };
    let y = match val.get("y") {
        Some(v) => u32::decode(v)?,
        None => return Err(CeleryError::InvalidParam("missing y".to_string())),
    };
    Ok(Point { x, y })
}

impl JsonDecode for Point {
    fn decoded_type() -> String {
        "Point".to_string()
    }

    fn decode(val: &Json) -> Result<Point, CeleryError> {
        decode_point(val)
    }
}

impl FromJson for Point {
    fn decoded_type() -> String {
        "Point".to_string()
    }

    fn from_json_value(val: &Json) -> Result<Point, CeleryError> {
        decode_point(val)
    }
}

fn add(_task: Task, args: Args<(i32, i32, i32)>) -> i32 {
    let (x, y, z) = args.into_inner();
    x + y + z
}

fn add_struct(args: Point) -> u32 {
    args.x + args.y
}

fn struct_args(args: Args<(Point, i32, i32)>) -> i32 {
    let (p, a, b) = args.into_inner();
    a + b + (p.x as i32) + (p.y as i32)
}

#[test]
fn positional_args_dispatch_sums_to_six() {
    let mut map = HandlerMap::new();
    map.register("add".to_string(), make_handler2(add)).unwrap();
    let result = map.dispatch("add", &args_payload(vec![num(1), num(2), num(3)]));
    assert!(matches!(result, Ok(Json::Int(6))));
}

#[test]
fn struct_argument_dispatch_sums_to_five() {
    let mut map = HandlerMap::new();
    map.register("add_struct".to_string(), make_handler(add_struct)).unwrap();
    let result = map.dispatch("add_struct", &object(vec![("x", num(2)), ("y", num(3))]));
    assert!(matches!(result, Ok(Json::Int(5))));
}

#[test]
fn mixed_struct_and_positional_sums_to_ten() {
    let handler = make_handler(struct_args);
    let point = object(vec![("x", num(3)), ("y", num(4))]);
    let payload = args_payload(vec![point, num(1), num(2)]);
    assert!(matches!(handler.invoke(&payload), Ok(Json::Int(10))));
}

#[test]
fn unknown_task_is_reported() {
    let mut map = HandlerMap::new();
    map.register("add".to_string(), make_handler2(add)).unwrap();
    let result = map.dispatch("sub", &args_payload(vec![num(1), num(2), num(3)]));
    assert!(matches!(result, Err(CeleryError::TaskNotFound(ref n)) if n == "sub"));
}

#[test]
fn decode_failure_is_reported_not_null() {
    let mut map = HandlerMap::new();
    map.register("add".to_string(), make_handler2(add)).unwrap();
    let result = map.dispatch("add", &args_payload(vec![num(1), Json::Str("two".to_string()), num(3)]));
    match result {
        Err(CeleryError::InvalidParam(m)) => assert_eq!(
            m,
            "add: (Task, Args<(i32, i32, i32)>): Args<(i32, i32, i32)>: expected an i32"
        ),
        other => panic!("unexpected {:?}", other),
    }
    let result = map.dispatch("add", &args_payload(vec![num(1), num(2)]));
    assert!(matches!(result, Err(CeleryError::InvalidParam(_))));
}

#[test]
fn duplicate_handler_name_is_refused() {
    let mut map = HandlerMap::new();
    assert!(map.register("add".to_string(), make_handler2(add)).is_ok());
    assert!(matches!(map.register("add".to_string(), make_handler2(add)), Err(CeleryError::InvalidParam(_))));
    assert_eq!(map.len(), 1);
    assert!(map.contains("add"));
    assert!(!map.contains("other"));
}

#[test]
fn missing_args_member_gives_default() {
    let empty = object(vec![]);
    let a = Args::<i32>::from_json_value(&empty).unwrap();
    assert_eq!(a.into_inner(), 0);
    let a = Args::<(i32, i32, i32)>::from_json_value(&object(vec![("other", num(9))])).unwrap();
    assert_eq!(a.into_inner(), (0, 0, 0));
    let a = Args::<Vec<u64>>::from_json_value(&Json::Null).unwrap();
    assert!(a.into_inner().is_empty());
    let a = Args::<String>::from_json_value(&object(vec![("args", Json::Str("hi".to_string()))])).unwrap();
    assert_eq!(a.into_inner(), "hi");
}

#[test]
fn tuple_decodes_like_its_parts() {
    let payload = object(vec![("name", Json::Str("job".to_string())), ("args", Json::Array(vec![num(4), num(5)]))]);
    let (t, a) = <(Task, Args<(i32, i32)>)>::from_json_value(&payload).unwrap();
    let (a2, t2) = <(Args<(i32, i32)>, Task)>::from_json_value(&payload).unwrap();
    let t_alone = Task::from_json_value(&payload).unwrap();
    let a_alone = Args::<(i32, i32)>::from_json_value(&payload).unwrap();
    assert_eq!(t.name.as_deref(), Some("job"));
    assert_eq!(t.name, t2.name);
    assert_eq!(t.name, t_alone.name);
    assert_eq!(a.0, (4, 5));
    assert_eq!(a2.0, a_alone.0);
    let (t3, a3, b3, c3, d3) =
        <(Task, Args<(i32, i32)>, Task, Args<(i32, i32)>, Task)>::from_json_value(&payload).unwrap();
    assert_eq!(a3.0, (4, 5));
    assert_eq!(c3.0, (4, 5));
    assert_eq!(t3.name, b3.name);
    assert_eq!(d3.name.as_deref(), Some("job"));
}

#[test]
fn tuple_fails_when_a_part_fails() {
    let payload = Json::Array(vec![num(1)]);
    assert!(matches!(<(Task, Args<i32>)>::from_json_value(&payload), Err(CeleryError::InvalidParam(_))));
    let bad_args = object(vec![("args", Json::Str("x".to_string()))]);
    assert!(matches!(<(Task, Args<i32>)>::from_json_value(&bad_args), Err(CeleryError::InvalidParam(_))));
    assert!(Task::from_json_value(&bad_args).is_ok());
}

#[test]
fn integers_respect_their_range() {
    assert_eq!(i32::decode(&num(-5)).unwrap(), -5);
    assert!(i32::decode(&num(1 << 31)).is_err());
    assert!(u32::decode(&num(-1)).is_err());
    assert_eq!(u64::decode(&num(u64::MAX as i128)).unwrap(), u64::MAX);
    assert_eq!(i64::decode(&num(i64::MIN as i128)).unwrap(), i64::MIN);
    assert!(bool::decode(&Json::Bool(true)).unwrap());
    assert!(bool::decode(&Json::Null).is_err());
    assert!(matches!((-7i32).to_json(), Json::Int(-7)));
    assert!(matches!(Some(3u64).to_json(), Json::Int(3)));
    assert!(matches!(None::<u32>.to_json(), Json::Null));
    assert!(matches!("s".to_string().to_json(), Json::Str(ref s) if s == "s"));
}

#[test]
fn member_lookup() {
    let v = object(vec![("a", num(1)), ("b", num(2)), ("a", num(3))]);
    assert!(matches!(v.get("a"), Some(Json::Int(1))));
    assert!(matches!(v.get("b"), Some(Json::Int(2))));
    assert!(v.get("c").is_none());
    assert!(num(1).get("a").is_none());
    assert!(Json::Array(vec![]).is_array());
    assert!(!v.is_array());
}

#[test]
fn task_context_name_forms() {
    assert!(Task::from_json_value(&object(vec![])).unwrap().name.is_none());
    assert!(Task::from_json_value(&object(vec![("name", Json::Null)])).unwrap().name.is_none());
    assert!(Task::from_json_value(&object(vec![("name", num(1))])).is_err());
    assert!(Task::from_json_value(&num(1)).is_err());
}

/// Reads a bare array `[point, a, b]` as one struct-shaped argument.
#[derive(Debug, Default)]
pub struct Mixed {
    pub a: i32,
    pub b: i32,
    pub args: Point,
}

impl FromJson for Mixed {
    fn decoded_type() -> String {
        "Mixed".to_string()
    }

    fn from_json_value(val: &Json) -> Result<Mixed, CeleryError> {
        match val {
            Json::Array(items) if items.len() == 3 => Ok(Mixed {
                args: decode_point(&items[0])?,
                a: i32::decode(&items[1])?,
                b: i32::decode(&items[2])?,
            }),
            _ => Err(CeleryError::InvalidParam("expected [point, a, b]".to_string())),
        }
    }
}

fn mixed_args(m: Mixed) -> i32 {
    m.a + m.b + (m.args.x as i32) + (m.args.y as i32)
}

#[test]
fn mixed_bare_array_payload_sums_to_ten() {
    let mut map = HandlerMap::new();
    map.register("struct_args".to_string(), make_handler(mixed_args)).unwrap();
    let point = object(vec![("x", num(3)), ("y", num(4))]);
    let payload = Json::Array(vec![point, num(1), num(2)]);
    assert!(matches!(map.dispatch("struct_args", &payload), Ok(Json::Int(10))));
}

#[test]
fn args_wraps_and_derefs() {
    let mut a: Args<i32> = Args::from(5);
    assert_eq!(*a, 5);
    *a += 1;
    assert_eq!(a.into_inner(), 6);
}

#[test]
fn test_handler_map_usage() {
    let mut map = HandlerMap::new();
    map.register("add".to_string(), make_handler2(add)).unwrap();
    let result = map.dispatch("add", &args_payload(vec![num(1), num(2), num(3)]));
    assert!(matches!(result, Ok(Json::Int(6))));

    let mut structs = HandlerMap::new();
    structs.register("add_struct".to_string(), make_handler(add_struct)).unwrap();
    let result = structs.dispatch("add_struct", &object(vec![("x", num(2)), ("y", num(3))]));
    assert!(matches!(result, Ok(Json::Int(5))));

    let mut mixed = HandlerMap::new();
    mixed.register("struct_args".to_string(), make_handler(mixed_args)).unwrap();
    let point = object(vec![("x", num(3)), ("y", num(4))]);
    let result = mixed.dispatch("struct_args", &Json::Array(vec![point, num(1), num(2)]));
    assert!(matches!(result, Ok(Json::Int(10))));
}

fn pair_list(task: Task, args: Args<(i32, i32)>, extra: Args<Vec<u32>>, again: Task) -> Vec<i64> {
    let (a, b) = args.into_inner();
    let n = extra.into_inner().len() as i64;
    let same = if task.name == again.name { 1 } else { 0 };
    vec![a as i64, b as i64, n, same]
}

#[test]
fn four_argument_handler_returns_a_list() {
    let handler = make_handler4(pair_list);
    let payload = object(vec![("name", Json::Str("j".to_string())), ("args", Json::Array(vec![num(2), num(3)]))]);
    match handler.invoke(&payload) {
        Ok(Json::Array(items)) => {
            assert_eq!(items.len(), 4);
            assert!(matches!(items[0], Json::Int(2)));
            assert!(matches!(items[1], Json::Int(3)));
            assert!(matches!(items[3], Json::Int(1)));
        }
        other => panic!("unexpected {:?}", other),
    }
}

#[test]
fn verified_positional_dispatch_gives_six() {
    assert!(matches!(dispatch_positional_sum(), Ok(Json::Int(6))));
    assert!(matches!(dispatch_positional_sum_in_task(), Ok(Json::Int(6))));
}

#[test]
fn tuple_error_names_the_failing_slot() {
    let bad_args = object(vec![("args", Json::Str("x".to_string()))]);
    match <(Task, Args<i32>)>::from_json_value(&bad_args) {
        Err(CeleryError::InvalidParam(m)) => assert_eq!(m, "Args<i32>: expected an i32"),
        other => panic!("unexpected {:?}", other),
    }
    match <(Task, Args<i32>, Task)>::from_json_value(&num(1)) {
        Err(CeleryError::InvalidParam(m)) => assert_eq!(m, "Task: task context must be an object"),
        other => panic!("unexpected {:?}", other),
    }
    match <(Args<i32>,)>::from_json_value(&bad_args) {
        Err(CeleryError::InvalidParam(m)) => assert_eq!(m, "expected an i32"),
        other => panic!("unexpected {:?}", other),
    }
    assert_eq!(<(Task, Args<Vec<u64>>, Args<(i32, String)>)>::decoded_type(), "(Task, Args<Vec<u64>>, Args<(i32, String)>)");
}
