use lottery_options::options::{parse_options, render_options, LotteryOptions};
use lottery_options::store::OptionsStore;
use serde_json::{Number, Value};
use std::path::PathBuf;

fn names(items: &[&str]) -> Value {
    Value::Array(items.iter().map(|s| Value::String(s.to_string())).collect())
}

fn group(name: &str, members: Value) -> Value {
    let mut map = serde_json::Map::new();
    map.insert(name.to_string(), members);
    Value::Object(map)
}

fn storage_path() -> PathBuf {
    PathBuf::from("data").join("lottery-system").join("data.json")
}

fn cached_groups(store: &OptionsStore) -> Option<Value> {
    store.get_options().unwrap().map(|options| options.groups)
}

#[test]
fn new_store_holds_what_it_was_given() {
    let empty = OptionsStore::new(None, storage_path());
    assert_eq!(cached_groups(&empty), None);
    assert_eq!(empty.file_path(), &storage_path());
    let seeded = OptionsStore::new(Some(LotteryOptions { groups: Value::Bool(true) }), storage_path());
    assert_eq!(cached_groups(&seeded), Some(Value::Bool(true)));
}

#[test]
fn cold_start_is_absent() {
    let store = OptionsStore::start(storage_path(), None);
    assert_eq!(store.get_options().map(|o| o.is_none()), Ok(true));
    assert_eq!(store.file_path(), &storage_path());
}

#[test]
fn start_with_a_corrupt_file_is_absent() {
    let store = OptionsStore::start(storage_path(), Some("this is not json"));
    assert_eq!(cached_groups(&store), None);
}

#[test]
fn start_with_a_saved_file_loads_it() {
    let store = OptionsStore::start(storage_path(), Some("{\"groups\": {\"A\": [\"x\"]}}"));
    assert_eq!(cached_groups(&store), Some(group("A", names(&["x"]))));
}

#[test]
fn save_then_get_round_trips() {
    let values = vec![
        Value::Null,
        Value::Bool(false),
        Value::Number(Number::from(7)),
        Value::String("solo".to_string()),
        names(&["x", "y"]),
        group("A", group("B", names(&[]))),
    ];
    for value in values {
        let mut store = OptionsStore::new(None, storage_path());
        let saved = store.save_options(LotteryOptions { groups: value.clone() }, Ok(()));
        assert_eq!(saved, Ok(()));
        assert_eq!(cached_groups(&store), Some(value));
    }
}

#[test]
fn second_save_replaces_the_first() {
    let first = LotteryOptions { groups: group("A", names(&["x"])) };
    let second = LotteryOptions { groups: group("B", names(&["y", "z"])) };
    let mut store = OptionsStore::new(None, storage_path());
    let mut file: Option<String> = None;

    file = Some(render_options(&first).unwrap());
    assert_eq!(store.save_options(first, Ok(())), Ok(()));
    assert!(file.is_some());
    file = Some(render_options(&second).unwrap());
    assert_eq!(store.save_options(second, Ok(())), Ok(()));

    assert_eq!(cached_groups(&store), Some(group("B", names(&["y", "z"]))));
    let on_disk = file.unwrap();
    assert_eq!(on_disk, "{\n  \"groups\": {\n    \"B\": [\n      \"y\",\n      \"z\"\n    ]\n  }\n}");
    assert!(!on_disk.contains("\"A\""));
    assert_eq!(store.file_path(), &storage_path());
}

#[test]
fn example_scenario() {
    let mut file: Option<String> = None;
    let mut store = OptionsStore::start(storage_path(), file.as_deref());
    assert_eq!(cached_groups(&store), None);

    let options = LotteryOptions { groups: group("A", names(&["x", "y"])) };
    let written = match render_options(&options) {
        Ok(text) => {
            file = Some(text);
            Ok(())
        }
        Err(message) => Err(message),
    };
    assert_eq!(store.save_options(options, written), Ok(()));
    assert_eq!(cached_groups(&store), Some(group("A", names(&["x", "y"]))));

    let on_disk = file.unwrap();
    assert_eq!(on_disk, "{\n  \"groups\": {\n    \"A\": [\n      \"x\",\n      \"y\"\n    ]\n  }\n}");
    let reread = parse_options(&on_disk).unwrap();
    assert_eq!(reread.groups, group("A", names(&["x", "y"])));
    let restarted = OptionsStore::start(storage_path(), Some(&on_disk));
    assert_eq!(cached_groups(&restarted), Some(group("A", names(&["x", "y"]))));
}

#[test]
fn failed_save_keeps_the_cached_value() {
    let mut store = OptionsStore::new(None, storage_path());
    let kept = LotteryOptions { groups: names(&["kept"]) };
    assert_eq!(store.save_options(kept, Ok(())), Ok(()));

    let lost = LotteryOptions { groups: names(&["lost"]) };
    let failure = Err("No such file or directory (os error 2)".to_string());
    assert_eq!(
        store.save_options(lost, failure),
        Err("No such file or directory (os error 2)".to_string())
    );
    assert_eq!(cached_groups(&store), Some(names(&["kept"])));
    assert_eq!(store.file_path(), &storage_path());
}

#[test]
fn failed_first_save_leaves_the_cache_empty() {
    let mut store = OptionsStore::start(storage_path(), None);
    let options = LotteryOptions { groups: Value::Null };
    assert_eq!(store.save_options(options, Err("disk full".to_string())), Err("disk full".to_string()));
    assert_eq!(cached_groups(&store), None);
}

#[test]
fn get_does_not_empty_the_cache() {
    let store = OptionsStore::new(Some(LotteryOptions { groups: names(&["a"]) }), storage_path());
    assert_eq!(cached_groups(&store), Some(names(&["a"])));
    assert_eq!(cached_groups(&store), Some(names(&["a"])));
}
