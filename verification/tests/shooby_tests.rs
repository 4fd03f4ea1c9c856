use shooby::{FieldValue, MultiObserver, ShoobyDb, ShoobyError, ShoobyField, ShoobyObserver, ShoobyStorage};
use std::cell::{Cell, RefCell};

#[derive(Debug, Clone, Copy, PartialEq, Eq)]
enum Id {
    Num,
    Str,
    Boolean,
    Blob,
}

const NUM: usize = 0;
const STRING: usize = 1;
const BOOLEAN: usize = 2;
const BLOB: usize = 3;

struct EmptyObserver;

impl ShoobyObserver for EmptyObserver {
    type ID = Id;

    fn update(&self, _field: &ShoobyField<Id>) {}
}

struct EmptyStorage;

impl ShoobyStorage for EmptyStorage {
    type ID = Id;

    fn save_raw(&self, _id: Id, _data: &[u8]) -> Result<(), ShoobyError> {
        Ok(())
    }

    fn load_raw(&mut self, _id: Id, _data: &mut Vec<u8>) -> Result<bool, ShoobyError> {
        Ok(false)
    }
}

fn a_bytes(a: u32, b: u32) -> Vec<u8> {
    let mut v = a.to_le_bytes().to_vec();
    v.extend_from_slice(&b.to_le_bytes());
    v
}

fn make_fields() -> Vec<ShoobyField<Id>> {
    vec![
        ShoobyField::new(
            Id::Num,
            "TESTER::ID::NUM",
            FieldValue::Int(15),
            Some((10, 100)),
            0,
            false,
        )
        .unwrap(),
        ShoobyField::new(
            Id::Str,
            "TESTER::ID::STRING",
            FieldValue::Str("default".to_string()),
            None,
            24,
            false,
        )
        .unwrap(),
        ShoobyField::new(
            Id::Boolean,
            "TESTER::ID::BOOLEAN",
            FieldValue::Bool(false),
            None,
            0,
            true,
        )
        .unwrap(),
        ShoobyField::new(
            Id::Blob,
            "TESTER::ID::BLOB",
            FieldValue::Blob(a_bytes(5, 9)),
            None,
            8,
            true,
        )
        .unwrap(),
    ]
}

fn take_plain() -> ShoobyDb<Id, EmptyObserver, EmptyStorage> {
    ShoobyDb::take("TESTER", make_fields(), None, None)
}

#[test]
fn it_works() {
    let db = take_plain();
    let reader = db.reader();
    assert_eq!(reader[NUM].get_int().unwrap() as f64, 15.0);
    assert_eq!(reader[STRING].get_string().unwrap(), "default");
    assert_eq!(reader[BOOLEAN].get_bool().unwrap(), false);
    let blob = reader[BLOB].get_blob().unwrap();
    assert_eq!(u32::from_le_bytes(blob[0..4].try_into().unwrap()), 5);
    assert_eq!(u32::from_le_bytes(blob[4..8].try_into().unwrap()), 9);
}

#[test]
fn can_be_changed() {
    let mut db = take_plain();

    db.write_with(|mut writer: Vec<ShoobyField<Id>>| {
        assert_eq!(writer[NUM].set_int(17).unwrap(), 15);
        assert_eq!(writer[BOOLEAN].set_bool(true).unwrap(), false);
        writer[STRING].set_string("I LOVE JENNY").unwrap();
        writer[BLOB].set_blob(&a_bytes(80, 90)).unwrap();
        writer
    })
    .unwrap();

    let reader = db.reader();
    assert_eq!(reader[NUM].get_int().unwrap(), 17);
    assert_eq!(reader[STRING].get_string().unwrap(), "I LOVE JENNY");
    assert_eq!(reader[BOOLEAN].get_bool().unwrap(), true);
    let blob = reader[BLOB].get_blob().unwrap();
    assert_eq!(u32::from_le_bytes(blob[0..4].try_into().unwrap()), 80);
    assert_eq!(u32::from_le_bytes(blob[4..8].try_into().unwrap()), 90);
}

#[test]
fn name_as_str() {
    let db = take_plain();

    assert_eq!(db.name(), "TESTER");
    assert_eq!(db.reader()[NUM].name(), "TESTER::ID::NUM");
    assert_eq!(db.reader()[BLOB].name(), "TESTER::ID::BLOB");
    assert_eq!(db.reader()[STRING].name(), "TESTER::ID::STRING");
    assert_eq!(db.reader()[BOOLEAN].name(), "TESTER::ID::BOOLEAN");
}

struct TestObserver<'a> {
    num_changed: &'a Cell<bool>,
}

impl<'a> ShoobyObserver for TestObserver<'a> {
    type ID = Id;

    fn update(&self, field: &ShoobyField<Id>) {
        if field.id() == Id::Num {
            self.num_changed.set(true);
        }
    }
}

#[test]
fn observer() {
    let boolcell = Cell::new(false);

    let observer = TestObserver {
        num_changed: &boolcell,
    };

    let mut db: ShoobyDb<Id, TestObserver, EmptyStorage> =
        ShoobyDb::take("TESTER", make_fields(), Some(observer), None);

    db.write_with(|mut writer: Vec<ShoobyField<Id>>| {
        writer[NUM].set_int(90).unwrap();
        writer
    })
    .unwrap();

    assert_eq!(boolcell.get(), true);
}

#[test]
fn multi_observers_before_creating_db() {
    let bools: [Cell<bool>; 3] = [Cell::new(false), Cell::new(false), Cell::new(false)];
    let observer_0 = TestObserver {
        num_changed: &bools[0],
    };
    let observer_1 = TestObserver {
        num_changed: &bools[1],
    };
    let observer_2 = TestObserver {
        num_changed: &bools[2],
    };

    let mut multi_observer: MultiObserver<Id, TestObserver, 3> = MultiObserver::new();
    multi_observer.add(observer_0).unwrap();
    multi_observer.add(observer_1).unwrap();
    multi_observer.add(observer_2).unwrap();

    let mut db: ShoobyDb<Id, MultiObserver<Id, TestObserver, 3>, EmptyStorage> =
        ShoobyDb::take("TESTER", make_fields(), Some(multi_observer), None);

    db.write_with(|mut writer: Vec<ShoobyField<Id>>| {
        writer[NUM].set_int(90).unwrap();
        writer
    })
    .unwrap();

    assert_eq!(bools[0].get(), true);
    assert_eq!(bools[1].get(), true);
    assert_eq!(bools[2].get(), true);
}

#[test]
fn multi_observers_after_creating_db() {
    let bools: [Cell<bool>; 3] = [Cell::new(false), Cell::new(false), Cell::new(false)];
    let observer_0 = TestObserver {
        num_changed: &bools[0],
    };
    let observer_1 = TestObserver {
        num_changed: &bools[1],
    };
    let observer_2 = TestObserver {
        num_changed: &bools[2],
    };

    let multi_observer: MultiObserver<Id, TestObserver, 3> = MultiObserver::new();
    let mut db: ShoobyDb<Id, MultiObserver<Id, TestObserver, 3>, EmptyStorage> =
        ShoobyDb::take("TESTER", make_fields(), Some(multi_observer), None);

    db.observer(|observer: Option<MultiObserver<Id, TestObserver, 3>>| {
        if let Some(mut multi_observer) = observer {
            multi_observer.add(observer_0).unwrap();
            multi_observer.add(observer_1).unwrap();
            multi_observer.add(observer_2).unwrap();
            Some(multi_observer)
        } else {
            None
        }
    });

    db.write_with(|mut writer: Vec<ShoobyField<Id>>| {
        writer[NUM].set_int(90).unwrap();
        writer
    })
    .unwrap();

    assert_eq!(bools[0].get(), true);
    assert_eq!(bools[1].get(), true);
    assert_eq!(bools[2].get(), true);
}

#[test]
fn factory_reset() {
    let mut db = take_plain();

    db.write_with(|mut writer: Vec<ShoobyField<Id>>| {
        assert_eq!(writer[NUM].set_int(17).unwrap(), 15);
        assert_eq!(writer[BOOLEAN].set_bool(true).unwrap(), false);
        writer[STRING].set_string("I LOVE JENNY").unwrap();
        writer[BLOB].set_blob(&a_bytes(80, 90)).unwrap();
        writer
    })
    .unwrap();

    db.factory_reset().unwrap();
    let reader = db.reader();
    assert_eq!(reader[NUM].get_int().unwrap(), 15);
    assert_eq!(reader[STRING].get_string().unwrap(), "default");
    assert_eq!(reader[BOOLEAN].get_bool().unwrap(), false);
    let blob = reader[BLOB].get_blob().unwrap();
    assert_eq!(u32::from_le_bytes(blob[0..4].try_into().unwrap()), 5);
    assert_eq!(u32::from_le_bytes(blob[4..8].try_into().unwrap()), 9);
}
