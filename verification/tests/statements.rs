use pk::broadcaster::NODES_QUERY;
use pk::models::RegisterPayload;
use pk::statement::{load_statement, register_statements, touch_statement, SqlValue, Statement};
use rusqlite::types::Value;
use rusqlite::{params_from_iter, Connection};

const NODE: u128 = 0x67e55044_10b1_426f_9247_bb680e5fe0c8;
const NODE_TEXT: &str = "67e55044-10b1-426f-9247-bb680e5fe0c8";

fn text(s: &str) -> SqlValue {
    SqlValue::Text(s.to_string())
}

fn payload(hostname: &str) -> RegisterPayload {
    RegisterPayload {
        node_id: NODE,
        hostname: hostname.to_string(),
        platform: "linux".to_string(),
        arch: "x86_64".to_string(),
        version: "1.2".to_string(),
    }
}

fn values(s: &Statement) -> Vec<Value> {
    s.params
        .iter()
        .map(|p| match p {
            SqlValue::Text(t) => Value::Text(t.clone()),
            SqlValue::Integer(n) => Value::Integer(*n),
        })
        .collect()
}

fn run(conn: &Connection, s: &Statement) -> usize {
    conn.execute(&s.sql, params_from_iter(values(s))).unwrap()
}

fn count(conn: &Connection, s: &Statement) -> Option<i64> {
    conn.query_row(&s.sql, params_from_iter(values(s)), |r| r.get::<_, i64>(0))
        .ok()
}

fn database() -> Connection {
    let conn = Connection::open_in_memory().unwrap();
    conn.execute(
        "CREATE TABLE nodes (id TEXT, hostname TEXT, platform TEXT, arch TEXT, version TEXT, \
         status TEXT, registered_at TEXT, last_seen TEXT, tags TEXT, active_tasks INTEGER, \
         bytes_downloaded INTEGER, note TEXT)",
        [],
    )
    .unwrap();
    conn
}

fn row(conn: &Connection) -> (String, String, String, i64, i64) {
    conn.query_row(
        "SELECT hostname, status, last_seen, active_tasks, bytes_downloaded FROM nodes",
        [],
        |r| Ok((r.get(0)?, r.get(1)?, r.get(2)?, r.get(3)?, r.get(4)?)),
    )
    .unwrap()
}

#[test]
fn touch_statement_text() {
    assert_eq!(
        touch_statement(NODE, "now".to_string()),
        Statement {
            sql: "UPDATE nodes SET status=CASE WHEN status='pending' THEN 'pending' ELSE 'online' END, last_seen=?1 WHERE id=?2".to_string(),
            params: vec![text("now"), text(NODE_TEXT)],
        }
    );
}

#[test]
fn load_statement_text() {
    assert_eq!(
        load_statement(NODE, 3, 4096, "now".to_string()),
        Statement {
            sql: "UPDATE nodes SET status=CASE WHEN status='pending' THEN 'pending' ELSE 'online' END, last_seen=?1, active_tasks=?2, bytes_downloaded=?3 WHERE id=?4".to_string(),
            params: vec![text("now"), SqlValue::Integer(3), SqlValue::Integer(4096), text(NODE_TEXT)],
        }
    );
}

#[test]
fn large_counts_wrap_as_a_cast_does() {
    for n in [0, 1, u64::MAX, u64::MAX - 1, 1 << 63, (1 << 63) - 1, (1 << 63) + 7] {
        let s = load_statement(NODE, u32::MAX, n, "now".to_string());
        assert_eq!(s.params[1], SqlValue::Integer(4294967295));
        assert_eq!(s.params[2], SqlValue::Integer(n as i64));
    }
}

#[test]
fn register_statements_text() {
    let r = register_statements(payload("host"), "now".to_string());
    assert_eq!(
        r.probe,
        Statement {
            sql: "SELECT COUNT(*) FROM nodes WHERE id = ?1".to_string(),
            params: vec![text(NODE_TEXT)],
        }
    );
    assert_eq!(
        r.update,
        Statement {
            sql: "UPDATE nodes SET hostname=?1, platform=?2, arch=?3, version=?4, status=CASE WHEN status='pending' THEN 'pending' ELSE 'online' END, last_seen=?5 WHERE id=?6".to_string(),
            params: vec![
                text("host"),
                text("linux"),
                text("x86_64"),
                text("1.2"),
                text("now"),
                text(NODE_TEXT),
            ],
        }
    );
    assert_eq!(
        r.insert,
        Statement {
            sql: "INSERT INTO nodes VALUES (?1,?2,?3,?4,?5,'online',?6,?6,'[]',0,0,NULL)".to_string(),
            params: vec![
                text(NODE_TEXT),
                text("host"),
                text("linux"),
                text("x86_64"),
                text("1.2"),
                text("now"),
            ],
        }
    );
}

#[test]
fn the_probe_decides() {
    let made = |count: Option<i64>| {
        let r = register_statements(payload("host"), "now".to_string());
        r.after_probe(count).sql
    };
    for count in [None, Some(0), Some(-1)] {
        assert!(made(count).starts_with("INSERT"));
    }
    for count in [Some(1), Some(2), Some(i64::MAX)] {
        assert!(made(count).starts_with("UPDATE"));
    }
}

#[test]
fn a_database_takes_the_statements() {
    let conn = database();
    assert_eq!(run(&conn, &touch_statement(NODE, "t0".to_string())), 0);

    let r = register_statements(payload("first"), "t1".to_string());
    let found = count(&conn, &r.probe);
    assert_eq!(found, Some(0));
    assert_eq!(run(&conn, &r.after_probe(found)), 1);
    assert_eq!(row(&conn), ("first".into(), "online".into(), "t1".into(), 0, 0));

    let r = register_statements(payload("second"), "t2".to_string());
    let found = count(&conn, &r.probe);
    assert_eq!(found, Some(1));
    assert_eq!(run(&conn, &r.after_probe(found)), 1);
    assert_eq!(row(&conn), ("second".into(), "online".into(), "t2".into(), 0, 0));

    assert_eq!(run(&conn, &load_statement(NODE, 2, u64::MAX, "t3".to_string())), 1);
    assert_eq!(row(&conn), ("second".into(), "online".into(), "t3".into(), 2, -1));
}

#[test]
fn a_pending_node_stays_pending() {
    let conn = database();
    let r = register_statements(payload("host"), "t1".to_string());
    run(&conn, &r.after_probe(None));
    conn.execute("UPDATE nodes SET status='pending'", []).unwrap();
    run(&conn, &touch_statement(NODE, "t2".to_string()));
    assert_eq!(row(&conn).1, "pending");
    conn.execute("UPDATE nodes SET status='offline'", []).unwrap();
    run(&conn, &touch_statement(NODE, "t3".to_string()));
    assert_eq!(row(&conn).1, "online");
}

#[test]
fn the_query_lists_nodes_by_hostname() {
    assert_eq!(
        NODES_QUERY,
        "SELECT id, hostname, platform, arch, version, status, last_seen FROM nodes ORDER BY hostname"
    );
    let conn = database();
    for (id, host) in [(1, "b"), (2, "a")] {
        let mut p = payload(host);
        p.node_id = id;
        run(&conn, &register_statements(p, "t".to_string()).after_probe(Some(0)));
    }
    let mut stmt = conn.prepare(NODES_QUERY).unwrap();
    let hosts: Vec<String> = stmt
        .query_map([], |r| r.get::<_, String>(1))
        .unwrap()
        .map(|r| r.unwrap())
        .collect();
    assert_eq!(hosts, vec!["a", "b"]);
}
