use typed_store::buffer::{Allocation, OneTime, Pool};
use typed_store::codec::Codec;
use typed_store::error::{Error, ErrorKind};
use typed_store::generation::{Action, Event, Generation, Outcome};
use typed_store::tree::{Id, Tree};

fn temporary_db() -> sled::Db {
    sled::Config::new().temporary(true).open().unwrap()
}

fn users(db: &sled::Db) -> Tree<u64, String> {
    Tree::open(db.open_tree("users")).unwrap()
}

fn stored(tree: &Tree<u64, String>, key: u64) -> Option<String> {
    let mut bytes = Vec::new();
    typed_store::encode(&key, &mut bytes).unwrap();
    let found = tree.storage().get(&bytes).unwrap();
    found.map(|value| typed_store::decode::<String>(&value).unwrap())
}

fn store(tree: &Tree<u64, String>, key: u64, value: &str) {
    let mut key_bytes = Vec::new();
    typed_store::encode(&key, &mut key_bytes).unwrap();
    let mut value_bytes = Vec::new();
    typed_store::encode(&value.to_string(), &mut value_bytes).unwrap();
    tree.storage().insert(key_bytes, value_bytes).unwrap();
}

fn drive<K, V, E, A, FK, FV>(
    db: &sled::Db,
    tree: &Tree<K, V>,
    allocation: &mut A,
    mut make_id: FK,
    make_data: FV,
    actions: &mut Vec<Action>,
) -> Outcome<K, V, E>
where
    K: Codec,
    V: Codec,
    A: Allocation,
    FK: FnMut(Id) -> Result<K, E>,
    FV: FnOnce(&K) -> Result<V, E>,
{
    let mut make_data = Some(make_data);
    let mut run = Generation::begin(allocation);
    loop {
        let action = run.action();
        actions.push(action);
        run = match action {
            Action::GenerateId => run.step(Event::RawId(db.generate_id())),
            Action::MakeId(raw) => run.step(Event::Key(make_id(raw))),
            Action::ContainsKey => {
                let reply = tree.storage().contains_key(run.key_bytes());
                run.step(Event::Presence(reply))
            }
            Action::Yield => run.step(Event::Yielded),
            Action::MakeData => {
                let make = make_data.take().expect("the data-maker is asked once");
                let made = make(run.candidate().unwrap());
                run.step(Event::Data(made))
            }
            Action::Insert => {
                let reply = tree.storage().insert(run.key_bytes(), run.value_bytes());
                match reply {
                    Ok(Some(previous)) => run.step(Event::Inserted(Ok(Some(&previous[..])))),
                    Ok(None) => run.step(Event::Inserted(Ok(None))),
                    Err(failure) => run.step(Event::Inserted(Err(failure))),
                }
            }
            Action::Finish => break,
        };
    }
    run.end(allocation).expect("the run is over")
}

fn never(_: Error) -> String {
    panic!("the conversor is not asked")
}

#[test]
fn generates_a_pair_and_inserts_it() {
    let db = temporary_db();
    let tree = users(&db);
    let mut pool = Pool::default();
    let mut actions = Vec::new();
    let outcome: Outcome<u64, String, String> = drive(
        &db,
        &tree,
        &mut pool,
        |raw| Ok(raw + 1000),
        |key| Ok(format!("user {}", key)),
        &mut actions,
    );
    let (key, value) = outcome.into_result(never).unwrap();
    assert!(key >= 1000);
    assert_eq!(value, format!("user {}", key));
    assert_eq!(stored(&tree, key), Some(value));
    assert_eq!(actions.len(), 6);
    assert_eq!(actions[0], Action::GenerateId);
    assert_eq!(actions[1], Action::MakeId(key - 1000));
    assert_eq!(
        &actions[2..],
        &[Action::ContainsKey, Action::MakeData, Action::Insert, Action::Finish]
    );
}

#[test]
fn generated_keys_are_distinct_and_stored() {
    let db = temporary_db();
    let tree = users(&db);
    let mut pool = Pool::default();
    let mut pairs: Vec<(u64, String)> = Vec::new();
    for _ in 0..20 {
        let mut actions = Vec::new();
        let outcome: Outcome<u64, String, String> = drive(
            &db,
            &tree,
            &mut pool,
            |raw| Ok(raw),
            |key| Ok(format!("value of {}", key)),
            &mut actions,
        );
        pairs.push(outcome.into_result(never).unwrap());
    }
    for (place, (key, value)) in pairs.iter().enumerate() {
        for (other, _) in &pairs[place + 1..] {
            assert_ne!(key, other);
        }
        assert_eq!(stored(&tree, *key).as_ref(), Some(value));
    }
    assert_eq!(tree.storage().len(), 20);
}

#[test]
fn key_in_use_is_tried_again_and_never_inserted() {
    let db = temporary_db();
    let tree = users(&db);
    store(&tree, 7, "taken");
    let mut pool = Pool::default();
    let mut actions = Vec::new();
    let mut calls = 0;
    let outcome: Outcome<u64, String, String> = drive(
        &db,
        &tree,
        &mut pool,
        |_raw| {
            calls += 1;
            Ok(if calls == 1 { 7 } else { 8 })
        },
        |key| Ok(format!("fresh {}", key)),
        &mut actions,
    );
    assert_eq!(outcome.into_result(never).unwrap(), (8, "fresh 8".to_string()));
    assert_eq!(calls, 2);
    assert_eq!(stored(&tree, 7), Some("taken".to_string()));
    assert_eq!(stored(&tree, 8), Some("fresh 8".to_string()));
    let kinds: Vec<Action> = actions
        .iter()
        .map(|action| match action {
            Action::MakeId(_) => Action::MakeId(0),
            other => *other,
        })
        .collect();
    assert_eq!(
        kinds,
        vec![
            Action::GenerateId,
            Action::MakeId(0),
            Action::ContainsKey,
            Action::Yield,
            Action::GenerateId,
            Action::MakeId(0),
            Action::ContainsKey,
            Action::MakeData,
            Action::Insert,
            Action::Finish,
        ]
    );
}

#[test]
fn failure_of_the_data_maker_comes_back_untouched() {
    let db = temporary_db();
    let tree = users(&db);
    let mut pool = Pool::default();
    let mut actions = Vec::new();
    let outcome: Outcome<u64, String, String> = drive(
        &db,
        &tree,
        &mut pool,
        |raw| Ok(raw),
        |_key| Err("no data today".to_string()),
        &mut actions,
    );
    assert!(matches!(&outcome, Outcome::Failed(failure) if failure == "no data today"));
    let result = outcome.into_result(|_: Error| "converted".to_string());
    assert_eq!(result.unwrap_err(), "no data today");
    assert_eq!(tree.storage().len(), 0);
    assert_eq!(actions.last(), Some(&Action::Finish));
    assert!(!actions.contains(&Action::Insert));
}

#[test]
fn failure_of_the_id_maker_comes_back_untouched() {
    let db = temporary_db();
    let tree = users(&db);
    let mut pool = Pool::default();
    let mut actions = Vec::new();
    let outcome: Outcome<u64, String, String> = drive(
        &db,
        &tree,
        &mut pool,
        |_raw| Err("no key today".to_string()),
        |key| Ok(format!("value of {}", key)),
        &mut actions,
    );
    let result = outcome.into_result(|_: Error| "converted".to_string());
    assert_eq!(result.unwrap_err(), "no key today");
    assert_eq!(actions.len(), 3);
    assert_eq!(actions[0], Action::GenerateId);
    assert_eq!(actions[2], Action::Finish);
}

#[test]
fn id_maker_can_cap_the_number_of_tries() {
    let db = temporary_db();
    let tree = users(&db);
    store(&tree, 7, "taken");
    let mut strategy = OneTime;
    let mut actions = Vec::new();
    let mut calls = 0;
    let outcome: Outcome<u64, String, String> = drive(
        &db,
        &tree,
        &mut strategy,
        |_raw| {
            calls += 1;
            if calls > 3 {
                Err("gave up".to_string())
            } else {
                Ok(7)
            }
        },
        |key| Ok(format!("value of {}", key)),
        &mut actions,
    );
    assert_eq!(outcome.into_result(never).unwrap_err(), "gave up");
    assert_eq!(actions.iter().filter(|action| **action == Action::Yield).count(), 3);
    assert_eq!(stored(&tree, 7), Some("taken".to_string()));
}

#[test]
fn failure_of_the_store_is_converted() {
    let mut pool = Pool::default();
    let run: Generation<u64, String, String> = Generation::begin(&mut pool);
    let failure = sled::Error::Unsupported("down".to_string());
    let run = run.step(Event::RawId(Err(failure)));
    assert_eq!(run.action(), Action::Finish);
    let outcome = run.end(&mut pool).unwrap();
    assert!(matches!(&outcome, Outcome::Aborted(error) if matches!(error.kind(), ErrorKind::Sled(_))));
    let result = outcome.into_result(|error: Error| format!("converted: {}", error.message()));
    assert_eq!(
        result.unwrap_err(),
        format!("converted: {}", sled::Error::Unsupported("down".to_string()))
    );
}

#[test]
fn failure_of_the_store_at_each_raw_call_aborts_the_run() {
    let mut pool = Pool::default();
    let run: Generation<u64, String, String> = Generation::begin(&mut pool);
    let run = run.step(Event::RawId(Ok(1))).step(Event::Key(Ok(1)));
    assert_eq!(run.action(), Action::ContainsKey);
    let run = run.step(Event::Presence(Err(sled::Error::Unsupported("down".to_string()))));
    assert!(matches!(run.end(&mut pool), Some(Outcome::Aborted(_))));

    let run: Generation<u64, String, String> = Generation::begin(&mut pool);
    let run = run
        .step(Event::RawId(Ok(1)))
        .step(Event::Key(Ok(1)))
        .step(Event::Presence(Ok(false)))
        .step(Event::Data(Ok("one".to_string())));
    assert_eq!(run.action(), Action::Insert);
    let run = run.step(Event::Inserted(Err(sled::Error::Unsupported("down".to_string()))));
    assert!(matches!(run.end(&mut pool), Some(Outcome::Aborted(_))));
}

#[test]
fn previous_value_that_cannot_be_decoded_aborts_the_run() {
    let mut pool = Pool::default();
    let run: Generation<u64, String, String> = Generation::begin(&mut pool);
    let run = run
        .step(Event::RawId(Ok(1)))
        .step(Event::Key(Ok(1)))
        .step(Event::Presence(Ok(false)))
        .step(Event::Data(Ok("one".to_string())))
        .step(Event::Inserted(Ok(Some(&[0xff, 0xff][..]))));
    let outcome = run.end(&mut pool).unwrap();
    assert!(matches!(&outcome, Outcome::Aborted(error) if matches!(error.kind(), ErrorKind::Serde(_))));
}

#[test]
fn previous_value_that_can_be_decoded_is_passed_over() {
    let mut pool = Pool::default();
    let run: Generation<u64, String, String> = Generation::begin(&mut pool);
    let run = run
        .step(Event::RawId(Ok(1)))
        .step(Event::Key(Ok(1)))
        .step(Event::Presence(Ok(false)))
        .step(Event::Data(Ok("one".to_string())))
        .step(Event::Inserted(Ok(Some(&b"\x03old"[..]))));
    let outcome = run.end(&mut pool).unwrap();
    assert!(matches!(outcome, Outcome::Generated(1, value) if value == "one"));
}

#[test]
fn run_holds_the_operands_of_each_raw_call() {
    let mut pool = Pool::default();
    let run: Generation<u64, String, String> = Generation::begin(&mut pool);
    assert!(run.candidate().is_none());
    let run = run.step(Event::RawId(Ok(300))).step(Event::Key(Ok(300)));
    assert_eq!(run.key_bytes(), &[251u8, 1, 44][..]);
    let run = run.step(Event::Presence(Ok(false)));
    assert_eq!(run.candidate(), Some(&300));
    let run = run.step(Event::Data(Ok("hi".to_string())));
    assert!(run.candidate().is_none());
    assert_eq!(run.key_bytes(), &[251u8, 1, 44][..]);
    assert_eq!(run.value_bytes(), b"\x02hi");
    run.end(&mut pool);
}

#[test]
fn event_that_is_not_waited_for_changes_nothing() {
    let mut pool = Pool::default();
    let run: Generation<u64, String, String> = Generation::begin(&mut pool);
    let run = run.step(Event::Yielded);
    assert_eq!(run.action(), Action::GenerateId);
    let run = run.step(Event::Key(Ok(3)));
    assert_eq!(run.action(), Action::GenerateId);
    let run = run.step(Event::RawId(Ok(5)));
    assert_eq!(run.action(), Action::MakeId(5));
    let run = run.step(Event::RawId(Ok(6)));
    assert_eq!(run.action(), Action::MakeId(5));
    let run = run.step(Event::Key(Ok(5))).step(Event::Data(Ok("early".to_string())));
    assert_eq!(run.action(), Action::ContainsKey);
    let run = run.step(Event::Presence(Ok(true)));
    assert_eq!(run.action(), Action::Yield);
    let run = run.step(Event::Presence(Ok(false)));
    assert_eq!(run.action(), Action::Yield);
    let run = run.step(Event::Yielded);
    assert_eq!(run.action(), Action::GenerateId);
    run.end(&mut pool);
}

#[test]
fn finished_run_stays_finished() {
    let mut pool = Pool::default();
    let run: Generation<u64, String, String> = Generation::begin(&mut pool);
    let run = run.step(Event::RawId(Ok(1))).step(Event::Key(Err("stop".to_string())));
    assert_eq!(run.action(), Action::Finish);
    let run = run.step(Event::RawId(Ok(2))).step(Event::Yielded);
    assert_eq!(run.action(), Action::Finish);
    assert!(matches!(run.end(&mut pool), Some(Outcome::Failed(failure)) if failure == "stop"));
}

#[test]
fn buffers_of_a_run_go_back_to_the_pool() {
    let db = temporary_db();
    let tree = users(&db);
    let mut pool = Pool::default();
    let mut actions = Vec::new();
    let outcome: Outcome<u64, String, String> = drive(
        &db,
        &tree,
        &mut pool,
        |_raw| Ok(300),
        |_key| Ok("hi".to_string()),
        &mut actions,
    );
    assert!(matches!(outcome, Outcome::Generated(300, _)));
    assert_eq!(pool.make().bytes(), b"\x02hi");
    assert_eq!(pool.make().bytes(), &[251u8, 1, 44][..]);
    assert!(pool.make().bytes().is_empty());
}

#[test]
fn buffers_of_a_run_that_is_given_up_go_back_to_the_pool() {
    let mut pool = Pool::default();
    let run: Generation<u64, String, String> = Generation::begin(&mut pool);
    let run = run.step(Event::RawId(Ok(9))).step(Event::Key(Ok(9)));
    assert!(run.end(&mut pool).is_none());
    assert!(pool.make().bytes().is_empty());
    assert_eq!(pool.make().bytes(), &[9u8][..]);
    assert!(pool.make().bytes().is_empty());
}

#[test]
fn buffers_of_a_failed_run_go_back_to_the_pool() {
    let db = temporary_db();
    let tree = users(&db);
    let mut pool = Pool::default();
    let mut warm = pool.make();
    warm.encode(&"warm".to_string()).unwrap();
    pool.save(warm);
    let mut actions = Vec::new();
    let outcome: Outcome<u64, String, String> = drive(
        &db,
        &tree,
        &mut pool,
        |_raw| Ok(4),
        |_key| Err("no".to_string()),
        &mut actions,
    );
    assert!(matches!(outcome, Outcome::Failed(_)));
    let value_buffer = pool.make();
    let key_buffer = pool.make();
    assert!(value_buffer.bytes().is_empty());
    assert_eq!(key_buffer.bytes(), &[4u8][..]);
    assert!(pool.make().bytes().is_empty());
}

#[test]
fn outcome_becomes_the_result_of_the_caller() {
    let generated: Outcome<u64, String, String> = Outcome::Generated(1, "one".to_string());
    assert_eq!(generated.into_result(never).unwrap(), (1, "one".to_string()));
    let failed: Outcome<u64, String, String> = Outcome::Failed("mine".to_string());
    assert_eq!(failed.into_result(never).unwrap_err(), "mine");
    let aborted: Outcome<u64, String, String> =
        Outcome::Aborted(Error::new(ErrorKind::Custom("inner".to_string())));
    assert_eq!(
        aborted.into_result(|error: Error| error.message() + "!").unwrap_err(),
        "inner!"
    );
}
