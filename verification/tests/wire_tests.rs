use llamix::json_model::{as_text, get_field, JsonVal};
use llamix::wire::{dump_json, parse_json};

#[test]
fn dump_prints_the_document() {
    let v = JsonVal::Obj(vec![
        ("a".to_string(), JsonVal::Str("b".to_string())),
        ("n".to_string(), JsonVal::Num("42".to_string())),
        ("t".to_string(), JsonVal::Bool(true)),
        ("z".to_string(), JsonVal::Null),
        ("l".to_string(), JsonVal::Arr(vec![JsonVal::Str("x".to_string())])),
    ]);
    assert_eq!(dump_json(&v), "{\"a\":\"b\",\"n\":42,\"t\":true,\"z\":null,\"l\":[\"x\"]}");
}

#[test]
fn parse_reads_the_document() {
    let v = parse_json("{\"a\":\"b\",\"n\":42,\"deep\":{\"inner\":[1,false,null]}}").unwrap();
    assert_eq!(as_text(get_field(&v, "a").unwrap()).unwrap(), "b");
    match get_field(&v, "n").unwrap() {
        JsonVal::Num(text) => assert_eq!(text, "42"),
        _ => panic!("n is not a number"),
    }
    match get_field(get_field(&v, "deep").unwrap(), "inner").unwrap() {
        JsonVal::Arr(elems) => {
            assert_eq!(elems.len(), 3);
            assert!(matches!(elems[1], JsonVal::Bool(false)));
            assert!(matches!(elems[2], JsonVal::Null));
        }
        _ => panic!("inner is not an array"),
    }
}

#[test]
fn parse_rejects_invalid_text() {
    assert!(parse_json("{oops").is_none());
    assert!(parse_json("").is_none());
}

#[test]
fn dump_then_parse_round_trips() {
    let v = JsonVal::Obj(vec![(
        "args".to_string(),
        JsonVal::Obj(vec![("command".to_string(), JsonVal::Str("ls -la".to_string()))]),
    )]);
    let text = dump_json(&v);
    let back = parse_json(&text).unwrap();
    let args = get_field(&back, "args").unwrap();
    assert_eq!(as_text(get_field(args, "command").unwrap()).unwrap(), "ls -la");
}
