use ameca::db::database::{Database, ExecutionError, Handshake, Outcome, Request};
use ameca::models::clock::{Timestamp, LAST_SECOND};
use ameca::models::guilds::{DecodeError, Guild, GuildData, GuildWrite};
use chrono::{DateTime, SecondsFormat, Utc};
use std::collections::BTreeMap;
use std::time::{SystemTime, UNIX_EPOCH};
use surrealdb::engine::local::{Db, Mem};
use surrealdb::opt::Resource;
use surrealdb::sql::Value;
use surrealdb::Surreal;

fn block_on<F: std::future::Future>(work: F) -> F::Output {
    tokio::runtime::Builder::new_current_thread().enable_all().build().unwrap().block_on(work)
}

async fn connect() -> Database<Surreal<Db>> {
    let mut state: Handshake<Surreal<Db>> = Database::init("memory".to_string());
    loop {
        let outcome = match state.pending() {
            Request::OpenTransport { .. } => match Surreal::new::<Mem>(()).await {
                Ok(client) => Outcome::TransportOpened { client },
                Err(error) => Outcome::Refused { reason: error.to_string() },
            },
            Request::SignIn => Outcome::Accepted,
            Request::SelectContext { name_space, db_name } => {
                match state.client().unwrap().use_ns(name_space).use_db(db_name).await {
                    Ok(()) => Outcome::Accepted,
                    Err(error) => Outcome::Refused { reason: error.to_string() },
                }
            }
            Request::Finished => break,
        };
        state = state.step(outcome);
    }
    state.finish().unwrap().unwrap()
}

fn content(guild: &Guild) -> BTreeMap<String, String> {
    let at = DateTime::<Utc>::from_timestamp(guild.time_of_join.secs, guild.time_of_join.nanos)
        .unwrap();
    let mut fields = BTreeMap::new();
    fields.insert("guild_id".to_string(), guild.guild_id.clone());
    fields.insert("time_of_join".to_string(), at.to_rfc3339_opts(SecondsFormat::Nanos, true));
    fields
}

async fn send(db: &Database<Surreal<Db>>, write: &GuildWrite) -> Result<Value, surrealdb::Error> {
    db.client
        .create(Resource::from((write.table.clone(), write.key)))
        .content(content(&write.content))
        .await
}

fn text(row: &BTreeMap<String, Value>, field: &str) -> Result<String, DecodeError> {
    match row.get(field) {
        Some(Value::Strand(text)) => Ok(text.0.clone()),
        _ => Err(DecodeError { reason: format!("missing field `{field}`") }),
    }
}

fn decode(rows: Value) -> Result<Vec<Guild>, DecodeError> {
    let rows = match rows {
        Value::Array(rows) => rows.0,
        other => vec![other],
    };
    let mut guilds = Vec::new();
    for row in rows {
        let row = match row {
            Value::Object(row) => row.0,
            _ => return Err(DecodeError { reason: "no record".to_string() }),
        };
        let at = DateTime::parse_from_rfc3339(&text(&row, "time_of_join")?)
            .map_err(|error| DecodeError { reason: error.to_string() })?;
        guilds.push(Guild {
            guild_id: text(&row, "guild_id")?,
            time_of_join: Timestamp { secs: at.timestamp(), nanos: at.timestamp_subsec_nanos() },
        });
    }
    Ok(guilds)
}

async fn list(db: &Database<Surreal<Db>>) -> Option<Vec<Guild>> {
    let statement = db.db_query(Guild::listing_query());
    let read = match db.client.query(statement.text).await {
        Ok(mut response) => match response.take::<Value>(0) {
            Ok(rows) => Ok(decode(rows)),
            Err(error) => Ok(Err(DecodeError { reason: error.to_string() })),
        },
        Err(error) => Err(ExecutionError { reason: error.to_string() }),
    };
    Database::get_all_guilds(db, read)
}

fn seconds_now() -> i64 {
    SystemTime::now().duration_since(UNIX_EPOCH).unwrap().as_secs() as i64
}

#[test]
fn last_second_is_the_last_that_the_calendar_holds() {
    assert_eq!(DateTime::<Utc>::MAX_UTC.timestamp(), LAST_SECOND);
    assert_eq!(LAST_SECOND, 8_210_266_876_799);
    assert!(DateTime::<Utc>::from_timestamp(LAST_SECOND, 999_999_999).is_some());
    assert!(DateTime::<Utc>::from_timestamp(LAST_SECOND + 1, 0).is_none());
    assert!(DateTime::<Utc>::from_timestamp(0, 0).is_some());
}

#[test]
fn joined_guild_gives_an_instant_that_the_calendar_holds() {
    let db = block_on(connect());
    let at = Database::joined_guild(&db, 50, 123456789).content.time_of_join;
    assert!(0 <= at.secs && at.secs <= LAST_SECOND);
    assert!(at.nanos < 1_000_000_000);
    let held = DateTime::<Utc>::from_timestamp(at.secs, at.nanos).unwrap();
    assert_eq!((held.timestamp(), held.timestamp_subsec_nanos()), (at.secs, at.nanos));
}

#[test]
fn handshake_with_a_database_in_memory() {
    let db = block_on(connect());
    assert_eq!(db.name_space, "database");
    assert_eq!(db.db_name, "storage");
    let again = block_on(connect());
    assert_eq!(again.name_space, "database");
    assert_eq!(again.db_name, "storage");
}

#[test]
fn listing_of_an_empty_database_is_empty() {
    let listed = block_on(async {
        let db = connect().await;
        list(&db).await
    });
    assert_eq!(listed, Some(Vec::new()));
}

#[test]
fn joined_guild_is_listed() {
    let before = seconds_now();
    let listed = block_on(async {
        let db = connect().await;
        let write = Database::joined_guild(&db, 50, 123456789);
        send(&db, &write).await.unwrap();
        list(&db).await
    });
    let listed = listed.unwrap();
    assert_eq!(listed.len(), 1);
    assert_eq!(listed[0].guild_id, "123456789");
    assert!(listed[0].time_of_join.secs >= before);
    assert!(listed[0].time_of_join.secs <= seconds_now());
    assert!(listed[0].time_of_join.secs - before <= 5);
}

#[test]
fn listing_returns_the_record_that_was_written() {
    let (write, listed) = block_on(async {
        let db = connect().await;
        let write = Database::joined_guild(&db, 3, 987654321012345678);
        send(&db, &write).await.unwrap();
        (write, list(&db).await)
    });
    assert_eq!(listed, Some(vec![write.content]));
}

#[test]
fn each_joined_guild_is_listed_once() {
    let ids = [1u64, 10, 100, 123456789, 9223372036854775807];
    let listed = block_on(async {
        let db = connect().await;
        for id in ids {
            send(&db, &Database::joined_guild(&db, 1, id)).await.unwrap();
        }
        list(&db).await
    });
    let listed = listed.unwrap();
    assert_eq!(listed.len(), ids.len());
    for id in ids {
        assert_eq!(listed.iter().filter(|guild| guild.guild_id == id.to_string()).count(), 1);
    }
}

#[test]
fn second_write_for_a_guild_adds_no_record() {
    let (second, listed) = block_on(async {
        let db = connect().await;
        let first = Database::joined_guild(&db, 50, 77);
        send(&db, &first).await.unwrap();
        let second = send(&db, &Database::joined_guild(&db, 51, 77)).await;
        (second, (first, list(&db).await))
    });
    assert!(second.is_err());
    let (first, listed) = listed;
    assert_eq!(listed, Some(vec![first.content]));
}

#[test]
fn two_databases_do_not_share_records() {
    let (one, other) = block_on(async {
        let one = connect().await;
        let other = connect().await;
        send(&one, &Database::joined_guild(&one, 50, 5)).await.unwrap();
        (list(&one).await, list(&other).await)
    });
    assert_eq!(one.unwrap().len(), 1);
    assert_eq!(other, Some(Vec::new()));
}

#[test]
fn listing_gives_nothing_for_records_that_do_not_decode() {
    let listed = block_on(async {
        let db = connect().await;
        db.client.query("CREATE guild:1 SET guild_id = 1;").await.unwrap();
        list(&db).await
    });
    assert_eq!(listed, None);
}
