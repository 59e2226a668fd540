//! Scenario tests: a small in-memory stand-in for the store performs the
//! transport actions the machine asks for, so whole calls run end to end
//! and the transport round-trips can be counted.

use std::collections::HashMap;

use hyperdb_rs::client::HyperClient;
use hyperdb_rs::dispatch::DispatchStep;
use hyperdb_rs::request::Action;
use hyperdb_rs::request::Event;
use hyperdb_rs::request::Request;
use hyperdb_rs::request::Verb;
use hyperdb_rs::HyperError;

const BASE: &str = "http://localhost:8765";

/// An in-memory server speaking the store's wire protocol.
struct FakeStore {
    data: HashMap<String, String>,
    saved: HashMap<String, String>,
    version: String,
    auth_required: bool,
    user: String,
    pass: String,
    /// The token a `Send` must carry while `auth_required` is set.
    session_token: String,
    /// The raw body the authentication exchange answers with.
    token_response: String,
    sends: usize,
    auths: usize,
    probes: usize,
}

impl FakeStore {
    fn new() -> FakeStore {
        FakeStore {
            data: HashMap::new(),
            saved: HashMap::new(),
            version: String::from("[HyperDB v0.2.0 (https://afaan.dev)]"),
            auth_required: false,
            user: String::new(),
            pass: String::new(),
            session_token: String::new(),
            token_response: String::new(),
            sends: 0,
            auths: 0,
            probes: 0,
        }
    }

    fn perform(&mut self, a: &Action) -> Event {
        match a {
            Action::Probe { url } => {
                self.probes += 1;
                if url == &format!("{}/ping", BASE) {
                    Event::Response(String::from("PONG"))
                } else {
                    Event::TransportFailed
                }
            }
            Action::Auth { url, username, password } => {
                self.auths += 1;
                assert_eq!(url, BASE);
                if username == &self.user && password == &self.pass {
                    Event::Response(self.token_response.clone())
                } else {
                    Event::Response(String::from("INVALID_CREDENTIALS"))
                }
            }
            Action::Send { verb, url, token, body } => {
                self.sends += 1;
                let prefix = format!("{}/", BASE);
                assert!(url.starts_with(&prefix), "send outside the base address");
                let path = url[prefix.len()..].to_string();
                if self.auth_required && token != &self.session_token {
                    return Event::Response(String::from("AUTH_FAILED"));
                }
                Event::Response(self.route(*verb, &path, body))
            }
        }
    }

    fn route(&mut self, verb: Verb, path: &str, body: &str) -> String {
        match (verb, path) {
            (Verb::Get, "") => self.version.clone(),
            (Verb::Get, "ping") => String::from("PONG"),
            (Verb::Get, "empty") => {
                if self.data.is_empty() {
                    String::from("YES")
                } else {
                    String::from("NO")
                }
            }
            (Verb::Get, "data") => {
                if self.data.is_empty() {
                    String::from("{}")
                } else {
                    let mut pairs: Vec<String> = self
                        .data
                        .iter()
                        .map(|(k, v)| format!("\"{}\": \"{}\"", k, v))
                        .collect();
                    pairs.sort();
                    format!("{{{}}}", pairs.join(", "))
                }
            }
            (Verb::Delete, "data") => {
                self.data.clear();
                String::from("OK")
            }
            (Verb::Post, "save") => {
                self.saved = self.data.clone();
                String::from("OK")
            }
            (Verb::Post, "reload") => {
                self.data = self.saved.clone();
                String::from("OK")
            }
            (Verb::Delete, "reset") => {
                self.data.clear();
                self.saved.clear();
                String::from("OK")
            }
            (v, p) => {
                if let Some(key) = p.strip_prefix("has/") {
                    assert_eq!(v, Verb::Get);
                    if self.data.contains_key(key) {
                        String::from("YES")
                    } else {
                        String::from("NO")
                    }
                } else if let Some(key) = p.strip_prefix("data/") {
                    match v {
                        Verb::Get => self.data.get(key).cloned().unwrap_or_default(),
                        Verb::Post => {
                            self.data.insert(key.to_string(), body.to_string());
                            body.to_string()
                        }
                        Verb::Delete => {
                            self.data.remove(key);
                            String::from("OK")
                        }
                    }
                } else {
                    panic!("unexpected request: {:?} {}", v, p);
                }
            }
        }
    }
}

/// Runs one dispatched call to completion against the stand-in.
fn run(
    req: Request,
    client: &mut HyperClient,
    store: &mut FakeStore,
) -> Result<String, HyperError> {
    let (mut d, mut a) = client.http(req);
    loop {
        let ev = store.perform(&a);
        match d.step(client, ev) {
            DispatchStep::Next(d2, a2) => {
                d = d2;
                a = a2;
            }
            DispatchStep::Done(t) => return Ok(t),
            DispatchStep::Failed(e) => return Err(e),
        }
    }
}

/// Builds a handle and confirms liveness, as a driver does at
/// construction time.
fn connect_client(store: &mut FakeStore) -> Result<HyperClient, HyperError> {
    let mut c = HyperClient::new(String::from(BASE));
    let probe = run(c.connect_request(), &mut c, store);
    c.connect(probe)?;
    Ok(c)
}

/// Performs the exchange `authenticate` begins and completes it.
fn authenticate(
    client: &mut HyperClient,
    store: &mut FakeStore,
    username: &str,
    password: &str,
) -> Result<String, HyperError> {
    let a = client.authenticate(String::from(username), String::from(password));
    let ev = store.perform(&a);
    client.finish_auth(ev)
}

/// Performs the bare liveness probe.
fn ping(client: &HyperClient, store: &mut FakeStore) -> Result<String, HyperError> {
    match store.perform(&client.ping()) {
        Event::Response(t) => Ok(t),
        Event::TransportFailed => Err(HyperError::Transport),
    }
}

#[test]
fn test_all() {
    let mut store = FakeStore::new();
    let mut hyper = connect_client(&mut store).expect("failed");

    // Ping the server
    let mut r = ping(&hyper, &mut store).expect("failed");
    assert_eq!(r, "PONG");

    // Get the version number
    r = run(hyper.version(), &mut hyper, &mut store).expect("failed");
    assert_eq!(r, "[HyperDB v0.2.0 (https://afaan.dev)]");

    // Set a value
    r = run(hyper.set("test", "value"), &mut hyper, &mut store).expect("failed");
    assert_eq!(r, "value");

    // Check if a key is present
    r = run(hyper.has("test"), &mut hyper, &mut store).expect("failed");
    assert_eq!(r, "YES");

    // Get a value
    r = run(hyper.get("test"), &mut hyper, &mut store).expect("failed");
    assert_eq!(r, "value");

    // Get all stored data
    r = run(hyper.all(), &mut hyper, &mut store).expect("failed");
    assert_eq!(r, "{\"test\": \"value\"}");

    // Remove a key
    r = run(hyper.delete("test"), &mut hyper, &mut store).expect("failed");
    assert_eq!(r, "OK");

    // Delete all stored data
    r = run(hyper.clear(), &mut hyper, &mut store).expect("failed");
    assert_eq!(r, "OK");

    // Check if the store is empty
    r = run(hyper.empty(), &mut hyper, &mut store).expect("failed");
    assert_eq!(r, "YES");

    // Persist the store to disk
    r = run(hyper.save(), &mut hyper, &mut store).expect("failed");
    assert_eq!(r, "OK");

    // Reload the store from disk
    r = run(hyper.reload(), &mut hyper, &mut store).expect("failed");
    assert_eq!(r, "OK");

    // Delete all store data from memory and disk
    r = run(hyper.reset(), &mut hyper, &mut store).expect("failed");
    assert_eq!(r, "OK");
}

#[test]
fn set_get_has_delete_round() {
    let mut store = FakeStore::new();
    let mut c = connect_client(&mut store).unwrap();
    assert_eq!(run(c.set("k", "v"), &mut c, &mut store).unwrap(), "v");
    assert_eq!(run(c.get("k"), &mut c, &mut store).unwrap(), "v");
    assert_eq!(run(c.has("k"), &mut c, &mut store).unwrap(), "YES");
    assert_eq!(run(c.delete("k"), &mut c, &mut store).unwrap(), "OK");
    assert_ne!(run(c.has("k"), &mut c, &mut store).unwrap(), "YES");
}

#[test]
fn clear_then_all_is_empty() {
    let mut store = FakeStore::new();
    let mut c = connect_client(&mut store).unwrap();
    run(c.set("a", "1"), &mut c, &mut store).unwrap();
    run(c.set("b", "2"), &mut c, &mut store).unwrap();
    assert_eq!(run(c.clear(), &mut c, &mut store).unwrap(), "OK");
    assert_eq!(run(c.all(), &mut c, &mut store).unwrap(), "{}");
    assert_eq!(run(c.empty(), &mut c, &mut store).unwrap(), "YES");
}

#[test]
fn save_reload_round_trip() {
    let mut store = FakeStore::new();
    let mut c = connect_client(&mut store).unwrap();
    run(c.set("k", "v"), &mut c, &mut store).unwrap();
    assert_eq!(run(c.save(), &mut c, &mut store).unwrap(), "OK");
    run(c.clear(), &mut c, &mut store).unwrap();
    assert_eq!(run(c.get("k"), &mut c, &mut store).unwrap(), "");
    assert_eq!(run(c.reload(), &mut c, &mut store).unwrap(), "OK");
    assert_eq!(run(c.get("k"), &mut c, &mut store).unwrap(), "v");
    assert_eq!(run(c.has("k"), &mut c, &mut store).unwrap(), "YES");
}

#[test]
fn stale_token_recovers_with_one_exchange_and_one_retry() {
    let mut store = FakeStore::new();
    store.user = String::from("admin");
    store.pass = String::from("secret");
    store.token_response = String::from("tok-1\n");
    store.session_token = String::from("tok-1");
    let mut c = HyperClient::new(String::from(BASE));
    authenticate(&mut c, &mut store, "admin", "secret").expect("failed");
    assert_eq!(c.token, "tok-1");

    // the server now rotates the token; the client's copy goes stale
    store.auth_required = true;
    store.session_token = String::from("tok-2");
    store.token_response = String::from("tok-2");
    store.sends = 0;
    store.auths = 0;
    let r = run(c.set("test", "value"), &mut c, &mut store).expect("failed");
    assert_eq!(r, "value");
    assert_eq!(c.token, "tok-2");
    // exactly one re-authentication exchange and exactly one retry
    assert_eq!(store.auths, 1);
    assert_eq!(store.sends, 2);
}

#[test]
fn second_auth_failure_is_returned_verbatim() {
    let mut store = FakeStore::new();
    store.user = String::from("admin");
    store.pass = String::from("secret");
    store.token_response = String::from("tok-1");
    store.session_token = String::from("tok-1");
    let mut c = HyperClient::new(String::from(BASE));
    authenticate(&mut c, &mut store, "admin", "secret").expect("failed");

    // the exchange now grants a token the store still refuses
    store.auth_required = true;
    store.session_token = String::from("tok-3");
    store.token_response = String::from("tok-2");
    store.sends = 0;
    store.auths = 0;
    let r = run(c.get("k"), &mut c, &mut store).expect("failed");
    assert_eq!(r, "AUTH_FAILED");
    assert_eq!(store.auths, 1);
    assert_eq!(store.sends, 2);
}

#[test]
fn no_recovery_without_credentials() {
    let mut store = FakeStore::new();
    store.auth_required = true;
    store.session_token = String::from("tok-1");
    let mut c = HyperClient::new(String::from(BASE));
    let r = run(c.get("k"), &mut c, &mut store).expect("failed");
    assert_eq!(r, "AUTH_FAILED");
    assert_eq!(store.auths, 0);
    assert_eq!(store.sends, 1);
}

#[test]
fn rotated_credentials_fail_the_retry_path() {
    let mut store = FakeStore::new();
    store.user = String::from("admin");
    store.pass = String::from("secret");
    store.token_response = String::from("tok-1");
    store.session_token = String::from("tok-1");
    let mut c = HyperClient::new(String::from(BASE));
    authenticate(&mut c, &mut store, "admin", "secret").expect("failed");

    // the server rotates both the token and the password
    store.auth_required = true;
    store.session_token = String::from("tok-2");
    store.pass = String::from("other");
    let r = run(c.get("k"), &mut c, &mut store);
    assert_eq!(r, Err(HyperError::InvalidCredentials));
    // the stored token is left as it was
    assert_eq!(c.token, "tok-1");
}

#[test]
fn bad_credentials_fail_authentication() {
    let mut store = FakeStore::new();
    store.user = String::from("admin");
    store.pass = String::from("secret");
    let mut c = HyperClient::new(String::from(BASE));
    let r = authenticate(&mut c, &mut store, "admin", "wrong");
    assert_eq!(r, Err(HyperError::InvalidCredentials));
    assert_eq!(c.token, "");
}
