use rusqlite::types::Value as SqlValue;
use rusqlite::{params_from_iter, Connection};
use sshm::keeping::{
    statement, Statement, Value, CREATE_TABLE, DELETE_ROW, INSERT_ROW, SELECT_LAST_ID, SELECT_ROWS,
    UPDATE_ROW,
};
use sshm::profile::Profile;
use sshm::session::{Action, Change, Event, Session};
use sshm::store::ProfileStore;

fn boxed() -> Profile {
    Profile {
        id: 3,
        name: "box".to_string(),
        host: "10.0.0.1".to_string(),
        port: 2222,
        username: "root".to_string(),
        password: "secret".to_string(),
    }
}

fn text(value: &str) -> Value {
    Value::Text(value.to_string())
}

fn file() -> Connection {
    let conn = Connection::open_in_memory().unwrap();
    conn.execute(CREATE_TABLE, []).unwrap();
    conn
}

fn write(conn: &Connection, statement: &Statement) -> usize {
    let values = statement.values.iter().map(|value| match value {
        Value::Number(number) => SqlValue::Integer(i64::from(*number)),
        Value::Text(text) => SqlValue::Text(text.clone()),
    });
    conn.execute(&statement.text, params_from_iter(values)).unwrap()
}

fn read(conn: &Connection) -> (Vec<Profile>, i32) {
    let mut stmt = conn.prepare(SELECT_ROWS).unwrap();
    let rows = stmt
        .query_map([], |row| {
            Ok(Profile {
                id: row.get(0)?,
                name: row.get(1)?,
                host: row.get(2)?,
                port: row.get(3)?,
                username: row.get(4)?,
                password: row.get(5)?,
            })
        })
        .unwrap()
        .map(|row| row.unwrap())
        .collect();
    let last_id = match conn.query_row(SELECT_LAST_ID, [], |row| row.get::<_, i32>(0)) {
        Ok(seq) => seq,
        Err(rusqlite::Error::QueryReturnedNoRows) => 0,
        Err(error) => panic!("{error}"),
    };
    (rows, last_id)
}

#[test]
fn statement_for_a_new_row_has_id_and_texts() {
    assert_eq!(
        statement(&Change::Insert(boxed())),
        Statement {
            text: INSERT_ROW.to_string(),
            values: vec![
                Value::Number(3),
                text("box"),
                text("10.0.0.1"),
                Value::Number(2222),
                text("root"),
                text("secret"),
            ],
        }
    );
}

#[test]
fn statement_for_other_texts_has_the_id_last() {
    assert_eq!(
        statement(&Change::Replace(boxed())),
        Statement {
            text: UPDATE_ROW.to_string(),
            values: vec![
                text("box"),
                text("10.0.0.1"),
                Value::Number(2222),
                text("root"),
                text("secret"),
                Value::Number(3),
            ],
        }
    );
}

#[test]
fn statement_for_a_removed_row_has_its_id() {
    assert_eq!(
        statement(&Change::Remove(7)),
        Statement { text: DELETE_ROW.to_string(), values: vec![Value::Number(7)] }
    );
}

#[test]
fn new_file_holds_the_empty_table() {
    let conn = file();
    assert_eq!(read(&conn), (vec![], 0));
    let store = ProfileStore::restore(vec![], 0).unwrap();
    assert_eq!(store.list(), vec![]);
}

#[test]
fn making_the_table_again_keeps_its_rows() {
    let conn = file();
    assert_eq!(write(&conn, &statement(&Change::Insert(boxed()))), 1);
    conn.execute(CREATE_TABLE, []).unwrap();
    conn.execute(CREATE_TABLE, []).unwrap();
    assert_eq!(read(&conn), (vec![boxed()], 3));
}

#[test]
fn file_gives_back_the_row_that_was_written() {
    let conn = file();
    let mut row = boxed();
    row.id = 1;
    row.password = " p\u{e4}ss 密码 ".to_string();
    assert_eq!(write(&conn, &statement(&Change::Insert(row.clone()))), 1);
    assert_eq!(read(&conn), (vec![row], 1));
}

#[test]
fn file_counts_ids_as_the_table_does() {
    let conn = file();
    let mut store = ProfileStore::new();
    for name in ["a", "b", "c"] {
        let id = store.create(name, "h", "", "u", "p").unwrap();
        write(&conn, &statement(&Change::Insert(store.get(id).unwrap())));
    }
    store.delete(3);
    write(&conn, &statement(&Change::Remove(3)));
    store.delete(1);
    write(&conn, &statement(&Change::Remove(1)));
    let (rows, last_id) = read(&conn);
    assert_eq!(last_id, 3);
    let mut read_back = ProfileStore::restore(rows, last_id).unwrap();
    assert_eq!(read_back.list(), store.list());
    assert_eq!(read_back.create("d", "h", "", "u", "p"), Ok(4));
    assert_eq!(store.create("d", "h", "", "u", "p"), Ok(4));
}

#[test]
fn statements_change_one_row_or_none() {
    let conn = file();
    assert_eq!(write(&conn, &statement(&Change::Insert(boxed()))), 1);
    let mut other = boxed();
    other.id = 4;
    assert_eq!(write(&conn, &statement(&Change::Replace(other.clone()))), 0);
    assert_eq!(write(&conn, &statement(&Change::Remove(4))), 0);
    assert_eq!(read(&conn), (vec![boxed()], 3));
    other.id = 3;
    other.name = "vm".to_string();
    other.port = 22;
    assert_eq!(write(&conn, &statement(&Change::Replace(other.clone()))), 1);
    assert_eq!(read(&conn), (vec![other], 3));
    assert_eq!(write(&conn, &statement(&Change::Remove(3))), 1);
    assert_eq!(read(&conn), (vec![], 3));
}

#[test]
fn file_follows_the_table_through_a_session() {
    let conn = file();
    let mut session = Session::new();
    let lines = [
        "c", "a", "h1", "", "u1", "p1", "c", "b", "h2", "2202", "u2", "p2", "x", "u", "2", "b2", "h2",
        "", "u22", "p22", "d", "1", "d", "1", "u", "1", "c", "c", "h3", "+3", "u3", "", "d", "zz",
        "c", "", "h", "", "u", "p", "q",
    ];
    for line in lines {
        let (rows, last_id) = read(&conn);
        let mut store = ProfileStore::restore(rows, last_id).unwrap();
        let before = store.list();
        let (next, action) = session.step(&mut store, &Event::Line(line.to_string()));
        session = next;
        match action {
            Action::Persist(change) => {
                write(&conn, &statement(&change));
            }
            _ => assert_eq!(store.list(), before),
        }
        let (rows, last_id) = read(&conn);
        let read_back = ProfileStore::restore(rows, last_id).unwrap();
        assert_eq!(read_back.list(), store.list());
        for id in 0..5 {
            assert_eq!(read_back.get(id), store.get(id));
        }
    }
    assert_eq!(session, Session::Terminated);
    let (rows, last_id) = read(&conn);
    assert_eq!(last_id, 3);
    assert_eq!(
        rows,
        vec![
            Profile {
                id: 2,
                name: "b2".to_string(),
                host: "h2".to_string(),
                port: 22,
                username: "u22".to_string(),
                password: "p22".to_string(),
            },
            Profile {
                id: 3,
                name: "c".to_string(),
                host: "h3".to_string(),
                port: 3,
                username: "u3".to_string(),
                password: "".to_string(),
            },
        ]
    );
}
