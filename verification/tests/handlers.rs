use std::collections::HashMap;

use url_shortener::handler::url_add::{
    add_on_lookup, add_on_write, add_reply, add_start, reject_reply, AddStep, UrlJsonData,
    UrlNew,
};
use url_shortener::handler::url_delete::{
    delete_on_exists, delete_on_remove, delete_reply, DeleteStep,
};
use url_shortener::handler::url_redirect::{get_on_lookup, redirect_reply};
use url_shortener::handler::{
    failure_reply, Error, Fail, Lookup, Reply, ReplyBody, Success, UrlResponsePayload,
};
use url_shortener::key::short_key;

const CHALLENGE: &str = "https://codingchallenges.fyi/challenges/challenge-url-shortener/";

fn payload(key: &str, long_url: &str, short_url: &str) -> UrlResponsePayload {
    UrlResponsePayload {
        key: key.to_string(),
        long_url: long_url.to_string(),
        short_url: short_url.to_string(),
    }
}

fn copy(p: &UrlResponsePayload) -> UrlResponsePayload {
    payload(&p.key, &p.long_url, &p.short_url)
}

fn read(store: &HashMap<String, UrlResponsePayload>, key: &str) -> Lookup {
    match store.get(key) {
        Some(p) => Lookup::Found(copy(p)),
        None => Lookup::Missing,
    }
}

fn add(store: &mut HashMap<String, UrlResponsePayload>, long_url: &str) -> UrlResponsePayload {
    let first = add_start(long_url);
    let key = first.key.clone();
    match add_on_lookup(first, read(store, &key)) {
        AddStep::Write(p) => {
            store.insert(p.key.clone(), copy(&p));
            add_on_write(p, Ok(())).unwrap()
        }
        AddStep::Done(r) => r.unwrap(),
    }
}

fn delete(store: &mut HashMap<String, UrlResponsePayload>, key: &str) -> Result<(), Error> {
    let count: i8 = if store.contains_key(key) { 1 } else { 0 };
    match delete_on_exists(key, Ok(count)) {
        DeleteStep::Remove => {
            store.remove(key);
            delete_on_remove(Ok(()))
        }
        DeleteStep::Done(r) => r,
    }
}

fn redirect(store: &HashMap<String, UrlResponsePayload>, key: &str) -> Reply {
    redirect_reply("r".to_string(), get_on_lookup(key, read(store, key)))
}

#[test]
fn error_messages() {
    assert_eq!(
        Error::Serialisation("bad".to_string()).message(),
        "Failed to serialise/deserialise payload: bad"
    );
    assert_eq!(Error::RedisConnection("x".to_string()).message(), "Failed to get Redis connection: x");
    assert_eq!(Error::RedisQuery("y".to_string()).message(), "Failed to execute Redis Query: y");
    assert_eq!(Error::NotFound("k1".to_string()).message(), "Item with key 'k1' cannot be found");
    assert!(Error::NotFound(String::new()).is_not_found());
    assert!(!Error::RedisQuery(String::new()).is_not_found());
}

#[test]
fn request_data_is_checked() {
    let ok = UrlNew::try_from(UrlJsonData { long_url: Some(CHALLENGE.to_string()) }).unwrap();
    assert_eq!(ok.long_url.as_ref(), CHALLENGE);
    let missing = UrlNew::try_from(UrlJsonData { long_url: None }).unwrap_err();
    assert_eq!(missing, "Invalid JSON data: missing field longUrl");
    let bad = UrlNew::try_from(UrlJsonData { long_url: Some("nope".to_string()) }).unwrap_err();
    assert_eq!(bad, "Invalid JSON data: 'nope' is not a valid long URL");
}

#[test]
fn first_payload_uses_the_url_key() {
    let p = add_start(CHALLENGE);
    assert_eq!(p, payload("4168cd70", CHALLENGE, "http://localhost/4168cd70"));
}

#[test]
fn free_key_is_written() {
    let step = add_on_lookup(add_start(CHALLENGE), Lookup::Missing);
    assert_eq!(step, AddStep::Write(payload("4168cd70", CHALLENGE, "http://localhost/4168cd70")));
}

#[test]
fn same_url_is_not_written_again() {
    let stored = payload("4168cd70", CHALLENGE, "http://localhost/4168cd70");
    let step = add_on_lookup(add_start(CHALLENGE), Lookup::Found(stored));
    assert_eq!(
        step,
        AddStep::Done(Ok(payload("4168cd70", CHALLENGE, "http://localhost/4168cd70")))
    );
}

#[test]
fn taken_key_gives_way_to_the_second_key() {
    let other = payload("4168cd70", "https://other.example/", "http://localhost/4168cd70");
    let step = add_on_lookup(add_start(CHALLENGE), Lookup::Found(other));
    assert_eq!(step, AddStep::Write(payload("f03a7833", CHALLENGE, "http://localhost/4168cd70")));
}

#[test]
fn failed_reads_end_the_add() {
    let step = add_on_lookup(add_start("hello"), Lookup::Undecodable("eof".to_string()));
    assert_eq!(step, AddStep::Done(Err(Error::Serialisation("eof".to_string()))));
    let step = add_on_lookup(add_start("hello"), Lookup::Failed("down".to_string()));
    assert_eq!(step, AddStep::Done(Err(Error::RedisQuery("down".to_string()))));
}

#[test]
fn failed_write_is_a_query_error() {
    let r = add_on_write(add_start("hello"), Err("readonly".to_string()));
    assert_eq!(r, Err(Error::RedisQuery("readonly".to_string())));
    let r = add_on_write(add_start("hello"), Ok(()));
    assert_eq!(r, Ok(payload("2cf24dba", "hello", "http://localhost/2cf24dba")));
}

#[test]
fn add_replies() {
    let ok = add_reply("id".to_string(), Ok(add_start("hello")));
    assert_eq!(
        ok,
        Reply {
            status: 200,
            location: None,
            body: ReplyBody::Payload(Success {
                request_id: "id".to_string(),
                payload: payload("2cf24dba", "hello", "http://localhost/2cf24dba"),
            }),
        }
    );
    let err = add_reply("id".to_string(), Err(Error::NotFound("k".to_string())));
    assert_eq!(err.status, 500);
    assert_eq!(
        err.body,
        ReplyBody::Failure(Fail {
            request_id: "id".to_string(),
            error: "Item with key 'k' cannot be found".to_string(),
        })
    );
    let rejected = reject_reply("id".to_string(), "no".to_string());
    assert_eq!(
        rejected,
        Reply {
            status: 400,
            location: None,
            body: ReplyBody::Failure(Fail { request_id: "id".to_string(), error: "no".to_string() }),
        }
    );
}

#[test]
fn reads_of_a_key() {
    let p = payload("k", "u", "s");
    assert_eq!(get_on_lookup("k", Lookup::Found(copy(&p))), Ok(p));
    assert_eq!(get_on_lookup("4168cd7y", Lookup::Missing), Err(Error::NotFound("4168cd7y".to_string())));
    assert_eq!(
        get_on_lookup("k", Lookup::Undecodable("m".to_string())),
        Err(Error::Serialisation("m".to_string()))
    );
    assert_eq!(get_on_lookup("k", Lookup::Failed("m".to_string())), Err(Error::RedisQuery("m".to_string())));
}

#[test]
fn redirect_replies() {
    let found = redirect_reply("id".to_string(), Ok(payload("k", CHALLENGE, "s")));
    assert_eq!(
        found,
        Reply { status: 302, location: Some(CHALLENGE.to_string()), body: ReplyBody::Empty }
    );
    let missing = redirect_reply("id".to_string(), Err(Error::NotFound("4168cd7y".to_string())));
    assert_eq!(missing.status, 404);
    let broken = redirect_reply("id".to_string(), Err(Error::RedisConnection("c".to_string())));
    assert_eq!(
        broken,
        Reply {
            status: 500,
            location: None,
            body: ReplyBody::Failure(Fail {
                request_id: "id".to_string(),
                error: "Failed to get Redis connection: c".to_string(),
            }),
        }
    );
    assert_eq!(failure_reply("id".to_string(), Error::NotFound("k".to_string())).status, 404);
}

#[test]
fn delete_steps() {
    assert_eq!(delete_on_exists("k", Ok(1)), DeleteStep::Remove);
    assert_eq!(
        delete_on_exists("4168cd7y", Ok(0)),
        DeleteStep::Done(Err(Error::NotFound("4168cd7y".to_string())))
    );
    assert_eq!(
        delete_on_exists("k", Ok(-1)),
        DeleteStep::Done(Err(Error::NotFound("k".to_string())))
    );
    assert_eq!(
        delete_on_exists("k", Err("x".to_string())),
        DeleteStep::Done(Err(Error::RedisQuery("x".to_string())))
    );
    assert_eq!(delete_on_remove(Ok(())), Ok(()));
    assert_eq!(delete_on_remove(Err("y".to_string())), Err(Error::RedisQuery("y".to_string())));
}

#[test]
fn delete_replies() {
    let ok = delete_reply("id".to_string(), Ok(()));
    assert_eq!(
        ok,
        Reply {
            status: 200,
            location: None,
            body: ReplyBody::Message(Success {
                request_id: "id".to_string(),
                payload: "URL deleted successfully!".to_string(),
            }),
        }
    );
    assert_eq!(delete_reply("id".to_string(), Err(Error::NotFound("k".to_string()))).status, 404);
    assert_eq!(delete_reply("id".to_string(), Err(Error::RedisQuery("k".to_string()))).status, 500);
}

#[test]
fn added_url_redirects_to_itself() {
    let mut store = HashMap::new();
    let p = add(&mut store, CHALLENGE);
    assert_eq!(p.key, "4168cd70");
    let reply = redirect(&store, &p.key);
    assert_eq!(reply.status, 302);
    assert_eq!(reply.location, Some(CHALLENGE.to_string()));
}

#[test]
fn colliding_url_redirects_to_itself() {
    let mut store = HashMap::new();
    store.insert(
        "4168cd70".to_string(),
        payload("4168cd70", "https://other.example/", "http://localhost/4168cd70"),
    );
    let p = add(&mut store, CHALLENGE);
    assert_eq!(p.key, short_key(&format!("{}a", CHALLENGE)));
    assert_eq!(redirect(&store, &p.key).location, Some(CHALLENGE.to_string()));
    assert_eq!(redirect(&store, "4168cd70").location, Some("https://other.example/".to_string()));
}

#[test]
fn adding_twice_changes_nothing() {
    let mut store = HashMap::new();
    store.insert(
        "4168cd70".to_string(),
        payload("4168cd70", "https://other.example/", "http://localhost/4168cd70"),
    );
    let first = add(&mut store, CHALLENGE);
    let after_first: HashMap<String, UrlResponsePayload> =
        store.iter().map(|(k, v)| (k.clone(), copy(v))).collect();
    let second = add(&mut store, CHALLENGE);
    assert_eq!(first, second);
    assert_eq!(store, after_first);
}

#[test]
fn deleted_key_is_not_found() {
    let mut store = HashMap::new();
    let p = add(&mut store, CHALLENGE);
    assert_eq!(delete(&mut store, &p.key), Ok(()));
    assert_eq!(redirect(&store, &p.key).status, 404);
    assert_eq!(delete(&mut store, &p.key), Err(Error::NotFound(p.key.clone())));
    assert!(store.is_empty());
}

#[test]
fn missing_key_is_not_deleted() {
    let mut store = HashMap::new();
    add(&mut store, CHALLENGE);
    assert_eq!(delete(&mut store, "4168cd7y"), Err(Error::NotFound("4168cd7y".to_string())));
    assert_eq!(store.len(), 1);
}
